//! Two-pole state-variable filter core with zero-delay feedback.
//!
//! Each tick solves the implicit system
//! `v0 = g * sat(x - (k - 1) * v0 - sat(v0) - v1) + s0`,
//! `v1 = g * sat(v0) + s1`
//! for the two stage voltages, either by the fixed-pivot linearization
//! (single pass) or by a bounded Newton-Raphson refinement, then taps one of
//! six responses and updates both integrator states trapezoidally.

use vstd::prelude::*;
use crate::coeff::{FilterMode, FilterParams, SolverKind};
use crate::fixed::{
    fx_add_spec, fx_div_spec, fx_mul_spec, fx_sub_spec, fx_valid, fx_add, fx_div, fx_mul, fx_sub,
    FX_MAX, FX_ONE,
};
use crate::sat::{sat, sat_deriv, sat_deriv_spec, sat_gain, sat_gain_spec, sat_spec};
use crate::solver::{
    den_floor, den_floor_spec, det_guard, det_guard_spec, drive_input, drive_input_spec,
    state_update, state_update_spec, tol_ok, tol_ok_spec, NEWTON_CAP,
};

verus! {

/// The two trapezoidal integrator memories of the circuit.
#[derive(Clone, Copy)]
pub struct SvfState {
    pub s0: i64,
    pub s1: i64,
}

impl SvfState {
    /// Both memories are representable.
    pub open spec fn wf(self) -> bool {
        fx_valid(self.s0 as int) && fx_valid(self.s1 as int)
    }

    /// A fresh, silent filter: zero-valued state.
    pub fn new() -> (st: SvfState)
        ensures
            st.wf(),
            st.s0 == 0,
            st.s1 == 0,
    {
        SvfState { s0: 0, s1: 0 }
    }
}

/// The argument of the outer saturator: `x - (k - 1) * v0 - sat(v0) - v1`.
pub open spec fn svf_arg_spec(k: int, x: int, v0: int, v1: int) -> int {
    fx_sub_spec(
        fx_sub_spec(fx_sub_spec(x, fx_mul_spec(k - FX_ONE, v0)), sat_spec(v0)),
        v1,
    )
}

/// Fixed-pivot solution of the implicit system: both saturators are replaced
/// by the linear gains `sat(p)/p` at pivots taken from the current state,
/// and the resulting linear 2x2 system is solved in closed form.
pub open spec fn svf_pivot_spec(g: int, k: int, x: int, s0: int, s1: int) -> (int, int) {
    let a2 = sat_gain_spec(s0);
    let a1 = sat_gain_spec(svf_arg_spec(k, x, s0, s1));
    let ga1 = fx_mul_spec(g, a1);
    let ga2 = fx_mul_spec(g, a2);
    let den = fx_add_spec(
        fx_add_spec(fx_add_spec(FX_ONE as int, fx_mul_spec(ga1, k - FX_ONE)), fx_mul_spec(ga1, a2)),
        fx_mul_spec(ga1, ga2),
    );
    let v0 = fx_div_spec(
        fx_add_spec(fx_mul_spec(ga1, fx_sub_spec(x, s1)), s0),
        den_floor_spec(den),
    );
    let v1 = fx_add_spec(fx_mul_spec(ga2, v0), s1);
    (v0, v1)
}

/// Residual of the implicit system at a candidate solution.
pub open spec fn svf_residual_spec(g: int, k: int, x: int, s0: int, s1: int, v0: int, v1: int) -> (int, int) {
    let u = svf_arg_spec(k, x, v0, v1);
    let f0 = fx_sub_spec(fx_add_spec(fx_mul_spec(g, sat_spec(u)), s0), v0);
    let f1 = fx_sub_spec(fx_add_spec(fx_mul_spec(g, sat_spec(v0)), s1), v1);
    (f0, f1)
}

/// Whether both residual components are inside the tolerance.
pub open spec fn svf_converged_spec(g: int, k: int, x: int, s0: int, s1: int, v0: int, v1: int) -> bool {
    let r = svf_residual_spec(g, k, x, s0, s1, v0, v1);
    tol_ok_spec(r.0) && tol_ok_spec(r.1)
}

/// One Newton step: the closed-form 2x2 Jacobian of the system is inverted
/// (with a guarded determinant) and the candidate moves by the Newton delta.
pub open spec fn svf_newton_step_spec(g: int, k: int, x: int, s0: int, s1: int, v0: int, v1: int) -> (int, int) {
    let u = svf_arg_spec(k, x, v0, v1);
    let r = svf_residual_spec(g, k, x, s0, s1, v0, v1);
    let gsp = fx_mul_spec(g, sat_deriv_spec(u));
    let j00 = fx_sub_spec(
        0,
        fx_add_spec(fx_mul_spec(gsp, fx_add_spec(k - FX_ONE, sat_deriv_spec(v0))), FX_ONE as int),
    );
    let j01 = fx_sub_spec(0, gsp);
    let j10 = fx_mul_spec(g, sat_deriv_spec(v0));
    let det = det_guard_spec(fx_sub_spec(fx_mul_spec(j00, -FX_ONE as int), fx_mul_spec(j01, j10)));
    let d0 = fx_div_spec(fx_sub_spec(fx_mul_spec(j01, r.1), fx_mul_spec(-FX_ONE as int, r.0)), det);
    let d1 = fx_div_spec(fx_sub_spec(fx_mul_spec(j10, r.0), fx_mul_spec(j00, r.1)), det);
    (fx_add_spec(v0, d0), fx_add_spec(v1, d1))
}

/// Newton iteration from a candidate: stop when both residuals are inside
/// the tolerance or the fuel runs out, and keep the best estimate either way.
pub open spec fn svf_newton_iters_spec(
    g: int,
    k: int,
    x: int,
    s0: int,
    s1: int,
    v0: int,
    v1: int,
    fuel: nat,
) -> (int, int)
    decreases fuel,
{
    if fuel == 0 {
        (v0, v1)
    } else if svf_converged_spec(g, k, x, s0, s1, v0, v1) {
        (v0, v1)
    } else {
        let n = svf_newton_step_spec(g, k, x, s0, s1, v0, v1);
        svf_newton_iters_spec(g, k, x, s0, s1, n.0, n.1, (fuel - 1) as nat)
    }
}

/// The Newton solution: the fixed-pivot estimate refined for at most
/// `NEWTON_CAP` steps.
pub open spec fn svf_newton_solution_spec(g: int, k: int, x: int, s0: int, s1: int) -> (int, int) {
    let p = svf_pivot_spec(g, k, x, s0, s1);
    svf_newton_iters_spec(g, k, x, s0, s1, p.0, p.1, NEWTON_CAP as nat)
}

/// Response selection: a linear combination of the stage voltages and the
/// (drive-scaled) input, by mode.
pub open spec fn mode_output_spec(mode: FilterMode, k: int, x: int, v0: int, v1: int) -> int {
    match mode {
        FilterMode::Lowpass => v1,
        FilterMode::Highpass => fx_sub_spec(fx_sub_spec(x, fx_mul_spec(k, v0)), v1),
        FilterMode::Bandpass => v0,
        FilterMode::Notch => fx_sub_spec(x, fx_mul_spec(k, v0)),
        FilterMode::Peak => fx_sub_spec(fx_sub_spec(x, fx_add_spec(v1, v1)), fx_mul_spec(k, v0)),
        FilterMode::NormalizedBandpass => fx_mul_spec(k, v0),
    }
}

/// The solved stage voltages of one tick, by solver strategy.
pub open spec fn svf_solution_spec(p: FilterParams, st: SvfState, x: int, solver: SolverKind) -> (int, int) {
    let xd = drive_input_spec(x, p.drive as int);
    match solver {
        SolverKind::FixedPivot => svf_pivot_spec(p.g as int, p.k_svf as int, xd, st.s0 as int, st.s1 as int),
        SolverKind::Newton => svf_newton_solution_spec(p.g as int, p.k_svf as int, xd, st.s0 as int, st.s1 as int),
    }
}

/// The output sample of one tick.
pub open spec fn svf_tick_out_spec(p: FilterParams, st: SvfState, x: int, solver: SolverKind) -> int {
    let v = svf_solution_spec(p, st, x, solver);
    mode_output_spec(p.mode, p.k_svf as int, drive_input_spec(x, p.drive as int), v.0, v.1)
}

/// The integrator state after one tick.
pub open spec fn svf_tick_state_spec(p: FilterParams, st: SvfState, x: int, solver: SolverKind) -> SvfState {
    let v = svf_solution_spec(p, st, x, solver);
    SvfState {
        s0: state_update_spec(v.0, st.s0 as int) as i64,
        s1: state_update_spec(v.1, st.s1 as int) as i64,
    }
}

/// Fixed-pivot solver, executable.
pub fn svf_solve_pivot(g: i64, k: i64, x: i64, s0: i64, s1: i64) -> (v: (i64, i64))
    requires
        0 <= g <= FX_MAX,
        0 <= k <= 2 * FX_ONE,
        fx_valid(x as int),
        fx_valid(s0 as int),
        fx_valid(s1 as int),
    ensures
        (v.0 as int, v.1 as int) == svf_pivot_spec(g as int, k as int, x as int, s0 as int, s1 as int),
        fx_valid(v.0 as int),
        fx_valid(v.1 as int),
{
    let km1: i64 = k - FX_ONE;
    let a2 = sat_gain(s0);
    let arg = fx_sub(fx_sub(fx_sub(x, fx_mul(km1, s0)), sat(s0)), s1);
    let a1 = sat_gain(arg);
    let ga1 = fx_mul(g, a1);
    let ga2 = fx_mul(g, a2);
    let den = fx_add(fx_add(fx_add(FX_ONE, fx_mul(ga1, km1)), fx_mul(ga1, a2)), fx_mul(ga1, ga2));
    let v0 = fx_div(fx_add(fx_mul(ga1, fx_sub(x, s1)), s0), den_floor(den));
    let v1 = fx_add(fx_mul(ga2, v0), s1);
    (v0, v1)
}

/// Residual, executable.
pub fn svf_residual(g: i64, k: i64, x: i64, s0: i64, s1: i64, v0: i64, v1: i64) -> (r: (i64, i64))
    requires
        0 <= g <= FX_MAX,
        0 <= k <= 2 * FX_ONE,
        fx_valid(x as int),
        fx_valid(s0 as int),
        fx_valid(s1 as int),
        fx_valid(v0 as int),
        fx_valid(v1 as int),
    ensures
        (r.0 as int, r.1 as int) == svf_residual_spec(
            g as int, k as int, x as int, s0 as int, s1 as int, v0 as int, v1 as int,
        ),
        fx_valid(r.0 as int),
        fx_valid(r.1 as int),
{
    let km1: i64 = k - FX_ONE;
    let u = fx_sub(fx_sub(fx_sub(x, fx_mul(km1, v0)), sat(v0)), v1);
    let f0 = fx_sub(fx_add(fx_mul(g, sat(u)), s0), v0);
    let f1 = fx_sub(fx_add(fx_mul(g, sat(v0)), s1), v1);
    (f0, f1)
}

/// Convergence test, executable.
pub fn svf_check_converged(g: i64, k: i64, x: i64, s0: i64, s1: i64, v0: i64, v1: i64) -> (b: bool)
    requires
        0 <= g <= FX_MAX,
        0 <= k <= 2 * FX_ONE,
        fx_valid(x as int),
        fx_valid(s0 as int),
        fx_valid(s1 as int),
        fx_valid(v0 as int),
        fx_valid(v1 as int),
    ensures
        b == svf_converged_spec(
            g as int, k as int, x as int, s0 as int, s1 as int, v0 as int, v1 as int,
        ),
{
    let r = svf_residual(g, k, x, s0, s1, v0, v1);
    let b0 = tol_ok(r.0);
    let b1 = tol_ok(r.1);
    b0 && b1
}

/// One Newton step, executable.
pub fn svf_newton_step(g: i64, k: i64, x: i64, s0: i64, s1: i64, v0: i64, v1: i64) -> (n: (i64, i64))
    requires
        0 <= g <= FX_MAX,
        0 <= k <= 2 * FX_ONE,
        fx_valid(x as int),
        fx_valid(s0 as int),
        fx_valid(s1 as int),
        fx_valid(v0 as int),
        fx_valid(v1 as int),
    ensures
        (n.0 as int, n.1 as int) == svf_newton_step_spec(
            g as int, k as int, x as int, s0 as int, s1 as int, v0 as int, v1 as int,
        ),
        fx_valid(n.0 as int),
        fx_valid(n.1 as int),
{
    let km1: i64 = k - FX_ONE;
    let u = fx_sub(fx_sub(fx_sub(x, fx_mul(km1, v0)), sat(v0)), v1);
    let r = svf_residual(g, k, x, s0, s1, v0, v1);
    let spv = sat_deriv(v0);
    let gsp = fx_mul(g, sat_deriv(u));
    let j00 = fx_sub(0, fx_add(fx_mul(gsp, fx_add(km1, spv)), FX_ONE));
    let j01 = fx_sub(0, gsp);
    let j10 = fx_mul(g, spv);
    let det = det_guard(fx_sub(fx_mul(j00, -FX_ONE), fx_mul(j01, j10)));
    let d0 = fx_div(fx_sub(fx_mul(j01, r.1), fx_mul(-FX_ONE, r.0)), det);
    let d1 = fx_div(fx_sub(fx_mul(j10, r.0), fx_mul(j00, r.1)), det);
    (fx_add(v0, d0), fx_add(v1, d1))
}

/// Newton solver, executable: refine the fixed-pivot estimate until both
/// residuals are inside the tolerance or the iteration cap is hit.  The last
/// component reports convergence; exhaustion is a soft failure and the best
/// estimate is still returned.
pub fn svf_solve_newton(g: i64, k: i64, x: i64, s0: i64, s1: i64) -> (r: (i64, i64, bool))
    requires
        0 <= g <= FX_MAX,
        0 <= k <= 2 * FX_ONE,
        fx_valid(x as int),
        fx_valid(s0 as int),
        fx_valid(s1 as int),
    ensures
        (r.0 as int, r.1 as int) == svf_newton_solution_spec(
            g as int, k as int, x as int, s0 as int, s1 as int,
        ),
        r.2 == svf_converged_spec(
            g as int, k as int, x as int, s0 as int, s1 as int, r.0 as int, r.1 as int,
        ),
        fx_valid(r.0 as int),
        fx_valid(r.1 as int),
{
    let piv = svf_solve_pivot(g, k, x, s0, s1);
    let ghost gi = g as int;
    let ghost ki = k as int;
    let ghost xi = x as int;
    let ghost s0i = s0 as int;
    let ghost s1i = s1 as int;
    let mut v0 = piv.0;
    let mut v1 = piv.1;
    let mut fuel: u32 = NEWTON_CAP;
    let mut conv = svf_check_converged(g, k, x, s0, s1, v0, v1);
    while fuel > 0 && !conv
        invariant
            0 <= g <= FX_MAX,
            0 <= k <= 2 * FX_ONE,
            fx_valid(x as int),
            fx_valid(s0 as int),
            fx_valid(s1 as int),
            fx_valid(v0 as int),
            fx_valid(v1 as int),
            gi == g as int,
            ki == k as int,
            xi == x as int,
            s0i == s0 as int,
            s1i == s1 as int,
            conv == svf_converged_spec(gi, ki, xi, s0i, s1i, v0 as int, v1 as int),
            svf_newton_iters_spec(gi, ki, xi, s0i, s1i, v0 as int, v1 as int, fuel as nat)
                == svf_newton_iters_spec(
                gi, ki, xi, s0i, s1i, piv.0 as int, piv.1 as int, NEWTON_CAP as nat,
            ),
        decreases fuel,
    {
        let n = svf_newton_step(g, k, x, s0, s1, v0, v1);
        v0 = n.0;
        v1 = n.1;
        fuel = fuel - 1;
        conv = svf_check_converged(g, k, x, s0, s1, v0, v1);
    }
    (v0, v1, conv)
}

/// Response selection, executable.
pub fn mode_output(mode: FilterMode, k: i64, x: i64, v0: i64, v1: i64) -> (out: i64)
    requires
        0 <= k <= 2 * FX_ONE,
        fx_valid(x as int),
        fx_valid(v0 as int),
        fx_valid(v1 as int),
    ensures
        out == mode_output_spec(mode, k as int, x as int, v0 as int, v1 as int),
        fx_valid(out as int),
{
    match mode {
        FilterMode::Lowpass => v1,
        FilterMode::Highpass => fx_sub(fx_sub(x, fx_mul(k, v0)), v1),
        FilterMode::Bandpass => v0,
        FilterMode::Notch => fx_sub(x, fx_mul(k, v0)),
        FilterMode::Peak => fx_sub(fx_sub(x, fx_add(v1, v1)), fx_mul(k, v0)),
        FilterMode::NormalizedBandpass => fx_mul(k, v0),
    }
}

impl SvfState {
    /// One sample through the state-variable circuit: pre-scale by drive,
    /// solve the implicit system with the chosen strategy, tap the selected
    /// response, and update both integrator memories trapezoidally.
    pub fn tick(&mut self, p: &FilterParams, solver: SolverKind, input: i64) -> (out: i64)
        requires
            old(self).wf(),
            p.wf(),
            fx_valid(input as int),
        ensures
            final(self).wf(),
            fx_valid(out as int),
            out == svf_tick_out_spec(*p, *old(self), input as int, solver),
            (*final(self)) == svf_tick_state_spec(*p, *old(self), input as int, solver),
    {
        let x = drive_input(input, p.drive);
        let (v0, v1) = match solver {
            SolverKind::FixedPivot => svf_solve_pivot(p.g, p.k_svf, x, self.s0, self.s1),
            SolverKind::Newton => {
                let r = svf_solve_newton(p.g, p.k_svf, x, self.s0, self.s1);
                (r.0, r.1)
            },
        };
        let out = mode_output(p.mode, p.k_svf, x, v0, v1);
        self.s0 = state_update(v0, self.s0);
        self.s1 = state_update(v1, self.s1);
        out
    }
}

} // verus!
