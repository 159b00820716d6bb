//! Properties that hold across whole runs of the filter.
//!
//! Chief among them stability: because every arithmetic step saturates,
//! each solved voltage, each updated state and each output sample of either
//! circuit is bounded by the fixed-point range, for every input sequence
//! (a unit impulse in particular), every resonance in range and either
//! solver strategy — the output sequence can never grow without bound.

use vstd::prelude::*;
use crate::coeff::{FilterParams, SolverKind};
use crate::fixed::{abs_int, fx_valid, FX_MAX};
use crate::ladder::{
    ladder_newton_iters_spec, ladder_pivot_spec, ladder_solution_spec, ladder_tick_out_spec,
    ladder_tick_state_spec, LadderState,
};
use crate::svf::{
    svf_newton_iters_spec, svf_pivot_spec, svf_solution_spec, svf_tick_out_spec,
    svf_tick_state_spec, SvfState,
};

verus! {

/// Newton iterates of the state-variable core stay representable.
proof fn lemma_svf_iters_valid(g: int, k: int, x: int, s0: int, s1: int, v0: int, v1: int, fuel: nat)
    requires
        fx_valid(v0),
        fx_valid(v1),
    ensures
        fx_valid(svf_newton_iters_spec(g, k, x, s0, s1, v0, v1, fuel).0),
        fx_valid(svf_newton_iters_spec(g, k, x, s0, s1, v0, v1, fuel).1),
    decreases fuel,
{
    if fuel > 0 && !crate::svf::svf_converged_spec(g, k, x, s0, s1, v0, v1) {
        let n = crate::svf::svf_newton_step_spec(g, k, x, s0, s1, v0, v1);
        lemma_svf_iters_valid(g, k, x, s0, s1, n.0, n.1, (fuel - 1) as nat);
    }
}

/// The solved voltages of a state-variable tick stay representable.
proof fn lemma_svf_solution_valid(p: FilterParams, st: SvfState, x: int, solver: SolverKind)
    ensures
        fx_valid(svf_solution_spec(p, st, x, solver).0),
        fx_valid(svf_solution_spec(p, st, x, solver).1),
{
    let xd = crate::solver::drive_input_spec(x, p.drive as int);
    let piv = svf_pivot_spec(p.g as int, p.k_svf as int, xd, st.s0 as int, st.s1 as int);
    match solver {
        SolverKind::FixedPivot => {
        },
        SolverKind::Newton => {
            lemma_svf_iters_valid(
                p.g as int,
                p.k_svf as int,
                xd,
                st.s0 as int,
                st.s1 as int,
                piv.0,
                piv.1,
                crate::solver::NEWTON_CAP as nat,
            );
        },
    }
}

/// One state-variable tick keeps the state well formed and the output in
/// the fixed-point range.
pub proof fn lemma_svf_tick_bounded(p: FilterParams, st: SvfState, x: int, solver: SolverKind)
    ensures
        abs_int(svf_tick_out_spec(p, st, x, solver)) <= FX_MAX,
        svf_tick_state_spec(p, st, x, solver).wf(),
{
    lemma_svf_solution_valid(p, st, x, solver);
}

/// Newton iterates of the ladder stay representable.
proof fn lemma_ladder_iters_valid(
    g: int,
    k: int,
    x: int,
    s0: int,
    s1: int,
    s2: int,
    s3: int,
    v0: int,
    v1: int,
    v2: int,
    v3: int,
    fuel: nat,
)
    requires
        fx_valid(v0),
        fx_valid(v1),
        fx_valid(v2),
        fx_valid(v3),
    ensures
        fx_valid(ladder_newton_iters_spec(g, k, x, s0, s1, s2, s3, v0, v1, v2, v3, fuel).0),
        fx_valid(ladder_newton_iters_spec(g, k, x, s0, s1, s2, s3, v0, v1, v2, v3, fuel).1),
        fx_valid(ladder_newton_iters_spec(g, k, x, s0, s1, s2, s3, v0, v1, v2, v3, fuel).2),
        fx_valid(ladder_newton_iters_spec(g, k, x, s0, s1, s2, s3, v0, v1, v2, v3, fuel).3),
    decreases fuel,
{
    if fuel > 0 && !crate::ladder::ladder_converged_spec(g, k, x, s0, s1, s2, s3, v0, v1, v2, v3) {
        let n = crate::ladder::ladder_newton_step_spec(g, k, x, s0, s1, s2, s3, v0, v1, v2, v3);
        lemma_ladder_iters_valid(g, k, x, s0, s1, s2, s3, n.0, n.1, n.2, n.3, (fuel - 1) as nat);
    }
}

/// The solved voltages of a ladder tick stay representable.
proof fn lemma_ladder_solution_valid(p: FilterParams, st: LadderState, x: int, solver: SolverKind)
    ensures
        fx_valid(ladder_solution_spec(p, st, x, solver).0),
        fx_valid(ladder_solution_spec(p, st, x, solver).1),
        fx_valid(ladder_solution_spec(p, st, x, solver).2),
        fx_valid(ladder_solution_spec(p, st, x, solver).3),
{
    let xd = crate::solver::drive_input_spec(x, p.drive as int);
    let piv = ladder_pivot_spec(
        p.g as int,
        p.k_ladder as int,
        xd,
        st.s0 as int,
        st.s1 as int,
        st.s2 as int,
        st.s3 as int,
    );
    match solver {
        SolverKind::FixedPivot => {
        },
        SolverKind::Newton => {
            lemma_ladder_iters_valid(
                p.g as int,
                p.k_ladder as int,
                xd,
                st.s0 as int,
                st.s1 as int,
                st.s2 as int,
                st.s3 as int,
                piv.0,
                piv.1,
                piv.2,
                piv.3,
                crate::solver::NEWTON_CAP as nat,
            );
        },
    }
}

/// One ladder tick keeps the state well formed and the output in the
/// fixed-point range.
pub proof fn lemma_ladder_tick_bounded(p: FilterParams, st: LadderState, x: int, solver: SolverKind)
    ensures
        abs_int(ladder_tick_out_spec(p, st, x, solver)) <= FX_MAX,
        ladder_tick_state_spec(p, st, x, solver).wf(),
{
    lemma_ladder_solution_valid(p, st, x, solver);
}

/// Silence is a fixed point of the state-variable circuit: from zero state,
/// a zero input sample produces a zero output and leaves the state zero,
/// whatever the parameters and whichever solver runs.
pub proof fn lemma_svf_silence(p: FilterParams, solver: SolverKind)
    ensures
        svf_tick_out_spec(p, SvfState { s0: 0, s1: 0 }, 0, solver) == 0,
        svf_tick_state_spec(p, SvfState { s0: 0, s1: 0 }, 0, solver) == (SvfState { s0: 0, s1: 0 }),
{
    let st = SvfState { s0: 0, s1: 0 };
    let xd = crate::solver::drive_input_spec(0, p.drive as int);
    assert(xd == 0);
    let piv = svf_pivot_spec(p.g as int, p.k_svf as int, 0, 0, 0);
    assert(piv.0 == 0 && piv.1 == 0);
    assert(crate::svf::svf_converged_spec(p.g as int, p.k_svf as int, 0, 0, 0, 0, 0));
    assert(svf_newton_iters_spec(p.g as int, p.k_svf as int, 0, 0, 0, 0, 0, crate::solver::NEWTON_CAP as nat)
        == (0int, 0int));
    assert(svf_solution_spec(p, st, 0, solver) == (0int, 0int));
}

/// Silence is a fixed point of the ladder circuit as well, for parameters
/// in range.
pub proof fn lemma_ladder_silence(p: FilterParams, solver: SolverKind)
    requires
        p.wf(),
    ensures
        ladder_tick_out_spec(p, LadderState { s0: 0, s1: 0, s2: 0, s3: 0 }, 0, solver) == 0,
        ladder_tick_state_spec(p, LadderState { s0: 0, s1: 0, s2: 0, s3: 0 }, 0, solver) == (
        LadderState { s0: 0, s1: 0, s2: 0, s3: 0 }),
{
    let st = LadderState { s0: 0, s1: 0, s2: 0, s3: 0 };
    let xd = crate::solver::drive_input_spec(0, p.drive as int);
    assert(xd == 0);
    let g = p.g as int;
    crate::coeff::lemma_g_bounds(p.cutoff_mhz as int, p.sample_rate_hz as int);
    assert((crate::fixed::FX_ONE as int) * (crate::fixed::FX_ONE as int) == 281474976710656int)
        by (nonlinear_arith);
    assert(crate::fixed::tdiv(281474976710656int, 16777216int) == 16777216int);
    assert(crate::sat::sat_gain_spec(0) == crate::fixed::FX_ONE as int);
    crate::sat::lemma_fx_mul_unit(crate::sat::sat_gain_spec(0), g);
    assert(crate::sat::sat_gain_spec(0) * g == g * crate::sat::sat_gain_spec(0))
        by (nonlinear_arith);
    let d = crate::ladder::ladder_den_spec(g, 0);
    assert(d >= crate::fixed::FX_ONE);
    vstd::arithmetic::div_mod::lemma_div_of0(d);
    assert(crate::fixed::fx_div_spec(0, d) == 0);
    let piv = ladder_pivot_spec(p.g as int, p.k_ladder as int, 0, 0, 0, 0, 0);
    assert(piv.0 == 0 && piv.1 == 0 && piv.2 == 0 && piv.3 == 0);
    assert(crate::ladder::ladder_converged_spec(
        p.g as int, p.k_ladder as int, 0, 0, 0, 0, 0, 0, 0, 0, 0,
    ));
    assert(ladder_newton_iters_spec(
        p.g as int, p.k_ladder as int, 0, 0, 0, 0, 0, 0, 0, 0, 0,
        crate::solver::NEWTON_CAP as nat,
    ) == (0int, 0int, 0int, 0int));
    assert(ladder_solution_spec(p, st, 0, solver) == (0int, 0int, 0int, 0int));
}

/// The output samples of a state-variable run over an input sequence.
pub open spec fn svf_outputs_spec(p: FilterParams, st: SvfState, xs: Seq<int>, solver: SolverKind) -> Seq<int>
    decreases xs.len(),
{
    if xs.len() == 0 {
        Seq::empty()
    } else {
        seq![svf_tick_out_spec(p, st, xs[0], solver)] + svf_outputs_spec(
            p,
            svf_tick_state_spec(p, st, xs[0], solver),
            xs.drop_first(),
            solver,
        )
    }
}

/// The output samples of a ladder run over an input sequence.
pub open spec fn ladder_outputs_spec(
    p: FilterParams,
    st: LadderState,
    xs: Seq<int>,
    solver: SolverKind,
) -> Seq<int>
    decreases xs.len(),
{
    if xs.len() == 0 {
        Seq::empty()
    } else {
        seq![ladder_tick_out_spec(p, st, xs[0], solver)] + ladder_outputs_spec(
            p,
            ladder_tick_state_spec(p, st, xs[0], solver),
            xs.drop_first(),
            solver,
        )
    }
}

/// Stability of the state-variable core: over any input sequence (a unit
/// impulse in particular), any parameters in range and either solver, every
/// output of the run is bounded — the response can never grow without
/// bound.
pub proof fn lemma_svf_run_stable(
    p: FilterParams,
    st: SvfState,
    xs: Seq<int>,
    solver: SolverKind,
    i: int,
)
    requires
        p.wf(),
        st.wf(),
        0 <= i < xs.len(),
    ensures
        svf_outputs_spec(p, st, xs, solver).len() == xs.len(),
        abs_int(svf_outputs_spec(p, st, xs, solver)[i]) <= FX_MAX,
    decreases xs.len(),
{
    lemma_svf_run_length(p, st, xs, solver);
    lemma_svf_tick_bounded(p, st, xs[0], solver);
    if i > 0 {
        lemma_svf_run_stable(
            p,
            svf_tick_state_spec(p, st, xs[0], solver),
            xs.drop_first(),
            solver,
            i - 1,
        );
    }
}

/// A run produces one output per input.
pub proof fn lemma_svf_run_length(p: FilterParams, st: SvfState, xs: Seq<int>, solver: SolverKind)
    ensures
        svf_outputs_spec(p, st, xs, solver).len() == xs.len(),
    decreases xs.len(),
{
    if xs.len() > 0 {
        lemma_svf_run_length(p, svf_tick_state_spec(p, st, xs[0], solver), xs.drop_first(), solver);
    }
}

/// Stability of the ladder core: over any input sequence, any parameters in
/// range and either solver, every output of the run is bounded.
pub proof fn lemma_ladder_run_stable(
    p: FilterParams,
    st: LadderState,
    xs: Seq<int>,
    solver: SolverKind,
    i: int,
)
    requires
        p.wf(),
        st.wf(),
        0 <= i < xs.len(),
    ensures
        ladder_outputs_spec(p, st, xs, solver).len() == xs.len(),
        abs_int(ladder_outputs_spec(p, st, xs, solver)[i]) <= FX_MAX,
    decreases xs.len(),
{
    lemma_ladder_run_length(p, st, xs, solver);
    lemma_ladder_tick_bounded(p, st, xs[0], solver);
    if i > 0 {
        lemma_ladder_run_stable(
            p,
            ladder_tick_state_spec(p, st, xs[0], solver),
            xs.drop_first(),
            solver,
            i - 1,
        );
    }
}

/// A ladder run produces one output per input.
pub proof fn lemma_ladder_run_length(
    p: FilterParams,
    st: LadderState,
    xs: Seq<int>,
    solver: SolverKind,
)
    ensures
        ladder_outputs_spec(p, st, xs, solver).len() == xs.len(),
    decreases xs.len(),
{
    if xs.len() > 0 {
        lemma_ladder_run_length(
            p,
            ladder_tick_state_spec(p, st, xs[0], solver),
            xs.drop_first(),
            solver,
        );
    }
}

} // verus!
