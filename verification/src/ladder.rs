//! Four-pole ladder filter core with zero-delay feedback.
//!
//! Four one-pole nonlinear integrators in cascade with one global feedback
//! path: `v[i] = g * (sat(u[i]) - sat(v[i])) + s[i]`, where `u[0] = x - k *
//! v[3]` and `u[i] = v[i-1]` for the later stages.  The same two solver
//! strategies as the state-variable core apply; the Newton step solves the
//! 4x4 local linearization by substitution, exploiting its near-triangular
//! shape.  All four stages are always integrated; the slope only selects
//! which stage output is tapped.

use vstd::prelude::*;
use crate::coeff::{FilterParams, SolverKind};
use crate::fixed::{
    fx_add, fx_add_spec, fx_div, fx_div_spec, fx_mul, fx_mul_spec, fx_sub, fx_sub_spec, fx_valid,
    FX_MAX, FX_ONE,
};
use crate::sat::{
    lemma_fx_mul_unit, lemma_sat_deriv_bounds, lemma_sat_gain_bounds, sat, sat_deriv,
    sat_deriv_spec, sat_gain, sat_gain_spec, sat_spec,
};
use crate::solver::{
    den_floor, den_floor_spec, det_guard, det_guard_spec, drive_input, drive_input_spec,
    state_update, state_update_spec, tol_ok, tol_ok_spec, NEWTON_CAP,
};

verus! {

/// The four trapezoidal integrator memories of the ladder.
#[derive(Clone, Copy)]
pub struct LadderState {
    pub s0: i64,
    pub s1: i64,
    pub s2: i64,
    pub s3: i64,
}

impl LadderState {
    /// All four memories are representable.
    pub open spec fn wf(self) -> bool {
        fx_valid(self.s0 as int) && fx_valid(self.s1 as int) && fx_valid(self.s2 as int)
            && fx_valid(self.s3 as int)
    }

    /// A fresh, silent ladder: zero-valued state.
    pub fn new() -> (st: LadderState)
        ensures
            st.wf(),
            st.s0 == 0,
            st.s1 == 0,
            st.s2 == 0,
            st.s3 == 0,
    {
        LadderState { s0: 0, s1: 0, s2: 0, s3: 0 }
    }
}

/// One-pole denominator `1 + g * sat_gain(pivot)` of the linearized stage.
pub open spec fn ladder_den_spec(g: int, pivot: int) -> int {
    fx_add_spec(FX_ONE as int, fx_mul_spec(g, sat_gain_spec(pivot)))
}

/// Diagonal Jacobian entry `-(g * sat'(v) + 1)` of a ladder stage.
pub open spec fn ladder_cdiag_spec(g: int, v: int) -> int {
    fx_sub_spec(0, fx_add_spec(fx_mul_spec(g, sat_deriv_spec(v)), FX_ONE as int))
}

/// Fixed-pivot solution of the ladder system: each stage becomes the linear
/// map `v = A * u + B` with gains pivoted on the current state, the global
/// feedback is resolved in closed form for the last stage, and the earlier
/// stages follow by forward substitution.
pub open spec fn ladder_pivot_spec(g: int, k: int, x: int, s0: int, s1: int, s2: int, s3: int) -> (
    int,
    int,
    int,
    int,
) {
    let d0 = ladder_den_spec(g, s0);
    let d1 = ladder_den_spec(g, s1);
    let d2 = ladder_den_spec(g, s2);
    let d3 = ladder_den_spec(g, s3);
    let a0 = fx_div_spec(fx_mul_spec(g, sat_gain_spec(fx_sub_spec(x, fx_mul_spec(k, s3)))), d0);
    let a1 = fx_div_spec(fx_mul_spec(g, sat_gain_spec(s0)), d1);
    let a2 = fx_div_spec(fx_mul_spec(g, sat_gain_spec(s1)), d2);
    let a3 = fx_div_spec(fx_mul_spec(g, sat_gain_spec(s2)), d3);
    let b0 = fx_div_spec(s0, d0);
    let b1 = fx_div_spec(s1, d1);
    let b2 = fx_div_spec(s2, d2);
    let b3 = fx_div_spec(s3, d3);
    let c = fx_mul_spec(a3, fx_mul_spec(a2, fx_mul_spec(a1, a0)));
    let e1 = fx_add_spec(fx_mul_spec(a1, b0), b1);
    let e2 = fx_add_spec(fx_mul_spec(a2, e1), b2);
    let e3 = fx_add_spec(fx_mul_spec(a3, e2), b3);
    let den = den_floor_spec(fx_add_spec(FX_ONE as int, fx_mul_spec(k, c)));
    let v3 = fx_div_spec(fx_add_spec(fx_mul_spec(c, x), e3), den);
    let u0 = fx_sub_spec(x, fx_mul_spec(k, v3));
    let v0 = fx_add_spec(fx_mul_spec(a0, u0), b0);
    let v1 = fx_add_spec(fx_mul_spec(a1, v0), b1);
    let v2 = fx_add_spec(fx_mul_spec(a2, v1), b2);
    (v0, v1, v2, v3)
}

/// Residual of the ladder system at a candidate solution.
pub open spec fn ladder_residual_spec(
    g: int,
    k: int,
    x: int,
    s0: int,
    s1: int,
    s2: int,
    s3: int,
    v0: int,
    v1: int,
    v2: int,
    v3: int,
) -> (int, int, int, int) {
    let u0 = fx_sub_spec(x, fx_mul_spec(k, v3));
    let f0 = fx_sub_spec(fx_add_spec(fx_mul_spec(g, fx_sub_spec(sat_spec(u0), sat_spec(v0))), s0), v0);
    let f1 = fx_sub_spec(fx_add_spec(fx_mul_spec(g, fx_sub_spec(sat_spec(v0), sat_spec(v1))), s1), v1);
    let f2 = fx_sub_spec(fx_add_spec(fx_mul_spec(g, fx_sub_spec(sat_spec(v1), sat_spec(v2))), s2), v2);
    let f3 = fx_sub_spec(fx_add_spec(fx_mul_spec(g, fx_sub_spec(sat_spec(v2), sat_spec(v3))), s3), v3);
    (f0, f1, f2, f3)
}

/// Whether all four residual components are inside the tolerance.
pub open spec fn ladder_converged_spec(
    g: int,
    k: int,
    x: int,
    s0: int,
    s1: int,
    s2: int,
    s3: int,
    v0: int,
    v1: int,
    v2: int,
    v3: int,
) -> bool {
    let r = ladder_residual_spec(g, k, x, s0, s1, s2, s3, v0, v1, v2, v3);
    tol_ok_spec(r.0) && tol_ok_spec(r.1) && tol_ok_spec(r.2) && tol_ok_spec(r.3)
}

/// One Newton step on the ladder: the 4x4 Jacobian has a bidiagonal body and
/// one feedback corner, so the linear solve is done by expressing each later
/// delta as an affine function of the first and closing the feedback row.
pub open spec fn ladder_newton_step_spec(
    g: int,
    k: int,
    x: int,
    s0: int,
    s1: int,
    s2: int,
    s3: int,
    v0: int,
    v1: int,
    v2: int,
    v3: int,
) -> (int, int, int, int) {
    let r = ladder_residual_spec(g, k, x, s0, s1, s2, s3, v0, v1, v2, v3);
    let u0 = fx_sub_spec(x, fx_mul_spec(k, v3));
    let c0 = ladder_cdiag_spec(g, v0);
    let c1 = ladder_cdiag_spec(g, v1);
    let c2 = ladder_cdiag_spec(g, v2);
    let c3 = ladder_cdiag_spec(g, v3);
    let fb = fx_sub_spec(0, fx_mul_spec(fx_mul_spec(g, sat_deriv_spec(u0)), k));
    let e1 = fx_mul_spec(g, sat_deriv_spec(v0));
    let e2 = fx_mul_spec(g, sat_deriv_spec(v1));
    let e3 = fx_mul_spec(g, sat_deriv_spec(v2));
    let p1 = fx_div_spec(fx_sub_spec(0, r.1), c1);
    let q1 = fx_div_spec(fx_sub_spec(0, e1), c1);
    let p2 = fx_div_spec(fx_sub_spec(fx_sub_spec(0, r.2), fx_mul_spec(e2, p1)), c2);
    let q2 = fx_div_spec(fx_sub_spec(0, fx_mul_spec(e2, q1)), c2);
    let p3 = fx_div_spec(fx_sub_spec(fx_sub_spec(0, r.3), fx_mul_spec(e3, p2)), c3);
    let q3 = fx_div_spec(fx_sub_spec(0, fx_mul_spec(e3, q2)), c3);
    let den = det_guard_spec(fx_add_spec(c0, fx_mul_spec(fb, q3)));
    let dl0 = fx_div_spec(fx_sub_spec(fx_sub_spec(0, r.0), fx_mul_spec(fb, p3)), den);
    let dl1 = fx_add_spec(p1, fx_mul_spec(q1, dl0));
    let dl2 = fx_add_spec(p2, fx_mul_spec(q2, dl0));
    let dl3 = fx_add_spec(p3, fx_mul_spec(q3, dl0));
    (fx_add_spec(v0, dl0), fx_add_spec(v1, dl1), fx_add_spec(v2, dl2), fx_add_spec(v3, dl3))
}

/// Newton iteration on the ladder: stop inside the tolerance or when the
/// fuel runs out, keeping the best estimate either way.
pub open spec fn ladder_newton_iters_spec(
    g: int,
    k: int,
    x: int,
    s0: int,
    s1: int,
    s2: int,
    s3: int,
    v0: int,
    v1: int,
    v2: int,
    v3: int,
    fuel: nat,
) -> (int, int, int, int)
    decreases fuel,
{
    if fuel == 0 {
        (v0, v1, v2, v3)
    } else if ladder_converged_spec(g, k, x, s0, s1, s2, s3, v0, v1, v2, v3) {
        (v0, v1, v2, v3)
    } else {
        let n = ladder_newton_step_spec(g, k, x, s0, s1, s2, s3, v0, v1, v2, v3);
        ladder_newton_iters_spec(g, k, x, s0, s1, s2, s3, n.0, n.1, n.2, n.3, (fuel - 1) as nat)
    }
}

/// The Newton solution of the ladder: the fixed-pivot estimate refined for
/// at most `NEWTON_CAP` steps.
pub open spec fn ladder_newton_solution_spec(
    g: int,
    k: int,
    x: int,
    s0: int,
    s1: int,
    s2: int,
    s3: int,
) -> (int, int, int, int) {
    let p = ladder_pivot_spec(g, k, x, s0, s1, s2, s3);
    ladder_newton_iters_spec(g, k, x, s0, s1, s2, s3, p.0, p.1, p.2, p.3, NEWTON_CAP as nat)
}

/// The stage output the slope taps: stage 1 gives 6 dB/oct, stage 4 gives
/// 24 dB/oct.
pub open spec fn ladder_tap_spec(slope: int, v0: int, v1: int, v2: int, v3: int) -> int {
    if slope <= 1 {
        v0
    } else if slope == 2 {
        v1
    } else if slope == 3 {
        v2
    } else {
        v3
    }
}

/// The solved stage voltages of one ladder tick, by solver strategy.
pub open spec fn ladder_solution_spec(p: FilterParams, st: LadderState, x: int, solver: SolverKind) -> (
    int,
    int,
    int,
    int,
) {
    let xd = drive_input_spec(x, p.drive as int);
    match solver {
        SolverKind::FixedPivot => ladder_pivot_spec(
            p.g as int,
            p.k_ladder as int,
            xd,
            st.s0 as int,
            st.s1 as int,
            st.s2 as int,
            st.s3 as int,
        ),
        SolverKind::Newton => ladder_newton_solution_spec(
            p.g as int,
            p.k_ladder as int,
            xd,
            st.s0 as int,
            st.s1 as int,
            st.s2 as int,
            st.s3 as int,
        ),
    }
}

/// The output sample of one ladder tick.
pub open spec fn ladder_tick_out_spec(p: FilterParams, st: LadderState, x: int, solver: SolverKind) -> int {
    let v = ladder_solution_spec(p, st, x, solver);
    ladder_tap_spec(p.slope as int, v.0, v.1, v.2, v.3)
}

/// The integrator state after one ladder tick.
pub open spec fn ladder_tick_state_spec(
    p: FilterParams,
    st: LadderState,
    x: int,
    solver: SolverKind,
) -> LadderState {
    let v = ladder_solution_spec(p, st, x, solver);
    LadderState {
        s0: state_update_spec(v.0, st.s0 as int) as i64,
        s1: state_update_spec(v.1, st.s1 as int) as i64,
        s2: state_update_spec(v.2, st.s2 as int) as i64,
        s3: state_update_spec(v.3, st.s3 as int) as i64,
    }
}

/// One-pole denominator, executable; positive by construction.
fn stage_den(g: i64, pivot: i64) -> (d: i64)
    requires
        0 <= g <= FX_MAX,
        fx_valid(pivot as int),
    ensures
        d == ladder_den_spec(g as int, pivot as int),
        FX_ONE <= d <= FX_MAX,
{
    proof {
        lemma_sat_gain_bounds(pivot as int);
        lemma_fx_mul_unit(sat_gain_spec(pivot as int), g as int);
        assert(sat_gain_spec(pivot as int) * g as int == g as int * sat_gain_spec(pivot as int))
            by (nonlinear_arith);
    }
    fx_add(FX_ONE, fx_mul(g, sat_gain(pivot)))
}

/// Diagonal Jacobian entry, executable; at most minus one by construction.
fn stage_cdiag(g: i64, v: i64) -> (c: i64)
    requires
        0 <= g <= FX_MAX,
        fx_valid(v as int),
    ensures
        c == ladder_cdiag_spec(g as int, v as int),
        -FX_MAX <= c <= -FX_ONE,
{
    proof {
        lemma_sat_deriv_bounds(v as int);
        lemma_fx_mul_unit(sat_deriv_spec(v as int), g as int);
        assert(sat_deriv_spec(v as int) * g as int == g as int * sat_deriv_spec(v as int))
            by (nonlinear_arith);
    }
    fx_sub(0, fx_add(fx_mul(g, sat_deriv(v)), FX_ONE))
}

/// Fixed-pivot ladder solver, executable.
pub fn ladder_solve_pivot(g: i64, k: i64, x: i64, s0: i64, s1: i64, s2: i64, s3: i64) -> (v: (
    i64,
    i64,
    i64,
    i64,
))
    requires
        0 <= g <= FX_MAX,
        0 <= k <= 4 * FX_ONE,
        fx_valid(x as int),
        fx_valid(s0 as int),
        fx_valid(s1 as int),
        fx_valid(s2 as int),
        fx_valid(s3 as int),
    ensures
        (v.0 as int, v.1 as int, v.2 as int, v.3 as int) == ladder_pivot_spec(
            g as int, k as int, x as int, s0 as int, s1 as int, s2 as int, s3 as int,
        ),
        fx_valid(v.0 as int),
        fx_valid(v.1 as int),
        fx_valid(v.2 as int),
        fx_valid(v.3 as int),
{
    let d0 = stage_den(g, s0);
    let d1 = stage_den(g, s1);
    let d2 = stage_den(g, s2);
    let d3 = stage_den(g, s3);
    let a0 = fx_div(fx_mul(g, sat_gain(fx_sub(x, fx_mul(k, s3)))), d0);
    let a1 = fx_div(fx_mul(g, sat_gain(s0)), d1);
    let a2 = fx_div(fx_mul(g, sat_gain(s1)), d2);
    let a3 = fx_div(fx_mul(g, sat_gain(s2)), d3);
    let b0 = fx_div(s0, d0);
    let b1 = fx_div(s1, d1);
    let b2 = fx_div(s2, d2);
    let b3 = fx_div(s3, d3);
    let c = fx_mul(a3, fx_mul(a2, fx_mul(a1, a0)));
    let e1 = fx_add(fx_mul(a1, b0), b1);
    let e2 = fx_add(fx_mul(a2, e1), b2);
    let e3 = fx_add(fx_mul(a3, e2), b3);
    let den = den_floor(fx_add(FX_ONE, fx_mul(k, c)));
    let v3 = fx_div(fx_add(fx_mul(c, x), e3), den);
    let u0 = fx_sub(x, fx_mul(k, v3));
    let v0 = fx_add(fx_mul(a0, u0), b0);
    let v1 = fx_add(fx_mul(a1, v0), b1);
    let v2 = fx_add(fx_mul(a2, v1), b2);
    (v0, v1, v2, v3)
}

/// Ladder residual, executable.
pub fn ladder_residual(
    g: i64,
    k: i64,
    x: i64,
    s0: i64,
    s1: i64,
    s2: i64,
    s3: i64,
    v0: i64,
    v1: i64,
    v2: i64,
    v3: i64,
) -> (r: (i64, i64, i64, i64))
    requires
        0 <= g <= FX_MAX,
        0 <= k <= 4 * FX_ONE,
        fx_valid(x as int),
        fx_valid(s0 as int),
        fx_valid(s1 as int),
        fx_valid(s2 as int),
        fx_valid(s3 as int),
        fx_valid(v0 as int),
        fx_valid(v1 as int),
        fx_valid(v2 as int),
        fx_valid(v3 as int),
    ensures
        (r.0 as int, r.1 as int, r.2 as int, r.3 as int) == ladder_residual_spec(
            g as int,
            k as int,
            x as int,
            s0 as int,
            s1 as int,
            s2 as int,
            s3 as int,
            v0 as int,
            v1 as int,
            v2 as int,
            v3 as int,
        ),
        fx_valid(r.0 as int),
        fx_valid(r.1 as int),
        fx_valid(r.2 as int),
        fx_valid(r.3 as int),
{
    let u0 = fx_sub(x, fx_mul(k, v3));
    let f0 = fx_sub(fx_add(fx_mul(g, fx_sub(sat(u0), sat(v0))), s0), v0);
    let f1 = fx_sub(fx_add(fx_mul(g, fx_sub(sat(v0), sat(v1))), s1), v1);
    let f2 = fx_sub(fx_add(fx_mul(g, fx_sub(sat(v1), sat(v2))), s2), v2);
    let f3 = fx_sub(fx_add(fx_mul(g, fx_sub(sat(v2), sat(v3))), s3), v3);
    (f0, f1, f2, f3)
}

/// Ladder convergence test, executable.
pub fn ladder_check_converged(
    g: i64,
    k: i64,
    x: i64,
    s0: i64,
    s1: i64,
    s2: i64,
    s3: i64,
    v0: i64,
    v1: i64,
    v2: i64,
    v3: i64,
) -> (b: bool)
    requires
        0 <= g <= FX_MAX,
        0 <= k <= 4 * FX_ONE,
        fx_valid(x as int),
        fx_valid(s0 as int),
        fx_valid(s1 as int),
        fx_valid(s2 as int),
        fx_valid(s3 as int),
        fx_valid(v0 as int),
        fx_valid(v1 as int),
        fx_valid(v2 as int),
        fx_valid(v3 as int),
    ensures
        b == ladder_converged_spec(
            g as int,
            k as int,
            x as int,
            s0 as int,
            s1 as int,
            s2 as int,
            s3 as int,
            v0 as int,
            v1 as int,
            v2 as int,
            v3 as int,
        ),
{
    let r = ladder_residual(g, k, x, s0, s1, s2, s3, v0, v1, v2, v3);
    let b0 = tol_ok(r.0);
    let b1 = tol_ok(r.1);
    let b2 = tol_ok(r.2);
    let b3 = tol_ok(r.3);
    b0 && b1 && b2 && b3
}

/// One ladder Newton step, executable.
pub fn ladder_newton_step(
    g: i64,
    k: i64,
    x: i64,
    s0: i64,
    s1: i64,
    s2: i64,
    s3: i64,
    v0: i64,
    v1: i64,
    v2: i64,
    v3: i64,
) -> (n: (i64, i64, i64, i64))
    requires
        0 <= g <= FX_MAX,
        0 <= k <= 4 * FX_ONE,
        fx_valid(x as int),
        fx_valid(s0 as int),
        fx_valid(s1 as int),
        fx_valid(s2 as int),
        fx_valid(s3 as int),
        fx_valid(v0 as int),
        fx_valid(v1 as int),
        fx_valid(v2 as int),
        fx_valid(v3 as int),
    ensures
        (n.0 as int, n.1 as int, n.2 as int, n.3 as int) == ladder_newton_step_spec(
            g as int,
            k as int,
            x as int,
            s0 as int,
            s1 as int,
            s2 as int,
            s3 as int,
            v0 as int,
            v1 as int,
            v2 as int,
            v3 as int,
        ),
        fx_valid(n.0 as int),
        fx_valid(n.1 as int),
        fx_valid(n.2 as int),
        fx_valid(n.3 as int),
{
    let r = ladder_residual(g, k, x, s0, s1, s2, s3, v0, v1, v2, v3);
    let u0 = fx_sub(x, fx_mul(k, v3));
    let c0 = stage_cdiag(g, v0);
    let c1 = stage_cdiag(g, v1);
    let c2 = stage_cdiag(g, v2);
    let c3 = stage_cdiag(g, v3);
    let fb = fx_sub(0, fx_mul(fx_mul(g, sat_deriv(u0)), k));
    let e1 = fx_mul(g, sat_deriv(v0));
    let e2 = fx_mul(g, sat_deriv(v1));
    let e3 = fx_mul(g, sat_deriv(v2));
    let p1 = fx_div(fx_sub(0, r.1), c1);
    let q1 = fx_div(fx_sub(0, e1), c1);
    let p2 = fx_div(fx_sub(fx_sub(0, r.2), fx_mul(e2, p1)), c2);
    let q2 = fx_div(fx_sub(0, fx_mul(e2, q1)), c2);
    let p3 = fx_div(fx_sub(fx_sub(0, r.3), fx_mul(e3, p2)), c3);
    let q3 = fx_div(fx_sub(0, fx_mul(e3, q2)), c3);
    let den = det_guard(fx_add(c0, fx_mul(fb, q3)));
    let dl0 = fx_div(fx_sub(fx_sub(0, r.0), fx_mul(fb, p3)), den);
    let dl1 = fx_add(p1, fx_mul(q1, dl0));
    let dl2 = fx_add(p2, fx_mul(q2, dl0));
    let dl3 = fx_add(p3, fx_mul(q3, dl0));
    (fx_add(v0, dl0), fx_add(v1, dl1), fx_add(v2, dl2), fx_add(v3, dl3))
}

/// Newton ladder solver, executable; the last component reports convergence,
/// and exhaustion still returns the best estimate (soft failure).
pub fn ladder_solve_newton(g: i64, k: i64, x: i64, s0: i64, s1: i64, s2: i64, s3: i64) -> (r: (
    i64,
    i64,
    i64,
    i64,
    bool,
))
    requires
        0 <= g <= FX_MAX,
        0 <= k <= 4 * FX_ONE,
        fx_valid(x as int),
        fx_valid(s0 as int),
        fx_valid(s1 as int),
        fx_valid(s2 as int),
        fx_valid(s3 as int),
    ensures
        (r.0 as int, r.1 as int, r.2 as int, r.3 as int) == ladder_newton_solution_spec(
            g as int, k as int, x as int, s0 as int, s1 as int, s2 as int, s3 as int,
        ),
        r.4 == ladder_converged_spec(
            g as int,
            k as int,
            x as int,
            s0 as int,
            s1 as int,
            s2 as int,
            s3 as int,
            r.0 as int,
            r.1 as int,
            r.2 as int,
            r.3 as int,
        ),
        fx_valid(r.0 as int),
        fx_valid(r.1 as int),
        fx_valid(r.2 as int),
        fx_valid(r.3 as int),
{
    let piv = ladder_solve_pivot(g, k, x, s0, s1, s2, s3);
    let ghost gi = g as int;
    let ghost ki = k as int;
    let ghost xi = x as int;
    let ghost t0 = s0 as int;
    let ghost t1 = s1 as int;
    let ghost t2 = s2 as int;
    let ghost t3 = s3 as int;
    let mut v0 = piv.0;
    let mut v1 = piv.1;
    let mut v2 = piv.2;
    let mut v3 = piv.3;
    let mut fuel: u32 = NEWTON_CAP;
    let mut conv = ladder_check_converged(g, k, x, s0, s1, s2, s3, v0, v1, v2, v3);
    while fuel > 0 && !conv
        invariant
            0 <= g <= FX_MAX,
            0 <= k <= 4 * FX_ONE,
            fx_valid(x as int),
            fx_valid(s0 as int),
            fx_valid(s1 as int),
            fx_valid(s2 as int),
            fx_valid(s3 as int),
            fx_valid(v0 as int),
            fx_valid(v1 as int),
            fx_valid(v2 as int),
            fx_valid(v3 as int),
            gi == g as int,
            ki == k as int,
            xi == x as int,
            t0 == s0 as int,
            t1 == s1 as int,
            t2 == s2 as int,
            t3 == s3 as int,
            conv == ladder_converged_spec(
                gi, ki, xi, t0, t1, t2, t3, v0 as int, v1 as int, v2 as int, v3 as int,
            ),
            ladder_newton_iters_spec(
                gi, ki, xi, t0, t1, t2, t3, v0 as int, v1 as int, v2 as int, v3 as int, fuel as nat,
            ) == ladder_newton_iters_spec(
                gi,
                ki,
                xi,
                t0,
                t1,
                t2,
                t3,
                piv.0 as int,
                piv.1 as int,
                piv.2 as int,
                piv.3 as int,
                NEWTON_CAP as nat,
            ),
        decreases fuel,
    {
        let n = ladder_newton_step(g, k, x, s0, s1, s2, s3, v0, v1, v2, v3);
        v0 = n.0;
        v1 = n.1;
        v2 = n.2;
        v3 = n.3;
        fuel = fuel - 1;
        conv = ladder_check_converged(g, k, x, s0, s1, s2, s3, v0, v1, v2, v3);
    }
    (v0, v1, v2, v3, conv)
}

/// Slope tap, executable.
pub fn ladder_tap(slope: u8, v0: i64, v1: i64, v2: i64, v3: i64) -> (out: i64)
    requires
        fx_valid(v0 as int),
        fx_valid(v1 as int),
        fx_valid(v2 as int),
        fx_valid(v3 as int),
    ensures
        out == ladder_tap_spec(slope as int, v0 as int, v1 as int, v2 as int, v3 as int),
        fx_valid(out as int),
{
    if slope <= 1 {
        v0
    } else if slope == 2 {
        v1
    } else if slope == 3 {
        v2
    } else {
        v3
    }
}

impl LadderState {
    /// One sample through the ladder circuit: pre-scale by drive, solve the
    /// coupled system with the chosen strategy, tap the slope's stage, and
    /// update all four integrator memories trapezoidally.
    pub fn tick(&mut self, p: &FilterParams, solver: SolverKind, input: i64) -> (out: i64)
        requires
            old(self).wf(),
            p.wf(),
            fx_valid(input as int),
        ensures
            final(self).wf(),
            fx_valid(out as int),
            out == ladder_tick_out_spec(*p, *old(self), input as int, solver),
            (*final(self)) == ladder_tick_state_spec(*p, *old(self), input as int, solver),
    {
        let x = drive_input(input, p.drive);
        let (v0, v1, v2, v3) = match solver {
            SolverKind::FixedPivot => ladder_solve_pivot(
                p.g, p.k_ladder, x, self.s0, self.s1, self.s2, self.s3,
            ),
            SolverKind::Newton => {
                let r = ladder_solve_newton(p.g, p.k_ladder, x, self.s0, self.s1, self.s2, self.s3);
                (r.0, r.1, r.2, r.3)
            },
        };
        let out = ladder_tap(p.slope, v0, v1, v2, v3);
        self.s0 = state_update(v0, self.s0);
        self.s1 = state_update(v1, self.s1);
        self.s2 = state_update(v2, self.s2);
        self.s3 = state_update(v3, self.s3);
        out
    }
}

} // verus!
