//! Pieces shared by both filter cores and both solver strategies: input
//! drive, the trapezoidal state update, residual tolerance, and the
//! defensive guards that keep every divisor away from zero.

use vstd::prelude::*;
use crate::fixed::{
    abs_int, fx_add_spec, fx_mul_spec, fx_sub_spec, fx_valid, FX_MAX, FX_ONE,
};

verus! {

/// Newton residual tolerance in Q24 (about 1e-5).
pub const TOL_FX: i64 = 168;

/// Smallest magnitude a solver divisor is allowed (about 1e-3 in Q24).
pub const DEN_MIN: i64 = 16777;

/// Iteration cap of the Newton refinement.
pub const NEWTON_CAP: u32 = 100;

/// Input pre-scaled by `1 + drive`.
pub open spec fn drive_input_spec(x: int, drive: int) -> int {
    fx_add_spec(x, fx_mul_spec(drive, x))
}

/// Trapezoidal integrator memory update: `s' = 2 * v - s`, saturated.
pub open spec fn state_update_spec(v: int, s: int) -> int {
    fx_sub_spec(fx_add_spec(v, v), s)
}

/// Keep a linear-system denominator at or above the positive floor.
pub open spec fn den_floor_spec(d: int) -> int {
    if d < DEN_MIN {
        DEN_MIN as int
    } else {
        d
    }
}

/// Keep a Jacobian determinant away from zero without changing its sign.
pub open spec fn det_guard_spec(d: int) -> int {
    if abs_int(d) >= DEN_MIN {
        d
    } else if d < 0 {
        -DEN_MIN as int
    } else {
        DEN_MIN as int
    }
}

/// Whether a residual component is inside the tolerance.
pub open spec fn tol_ok_spec(f: int) -> bool {
    abs_int(f) < TOL_FX
}

/// Input pre-scaled by `1 + drive`, executable.
pub fn drive_input(x: i64, drive: i64) -> (r: i64)
    requires
        fx_valid(x as int),
        0 <= drive <= FX_ONE,
    ensures
        r == drive_input_spec(x as int, drive as int),
        fx_valid(r as int),
{
    crate::fixed::fx_add(x, crate::fixed::fx_mul(drive, x))
}

/// Trapezoidal integrator memory update, executable.
pub fn state_update(v: i64, s: i64) -> (r: i64)
    requires
        fx_valid(v as int),
        fx_valid(s as int),
    ensures
        r == state_update_spec(v as int, s as int),
        fx_valid(r as int),
{
    crate::fixed::fx_sub(crate::fixed::fx_add(v, v), s)
}

/// Denominator floor, executable.
pub fn den_floor(d: i64) -> (r: i64)
    requires
        fx_valid(d as int),
    ensures
        r == den_floor_spec(d as int),
        DEN_MIN <= r <= FX_MAX,
{
    if d < DEN_MIN {
        DEN_MIN
    } else {
        d
    }
}

/// Determinant guard, executable.
pub fn det_guard(d: i64) -> (r: i64)
    requires
        fx_valid(d as int),
    ensures
        r == det_guard_spec(d as int),
        fx_valid(r as int),
        r != 0,
        DEN_MIN <= abs_int(r as int),
{
    if d >= DEN_MIN || d <= -DEN_MIN {
        d
    } else if d < 0 {
        -DEN_MIN
    } else {
        DEN_MIN
    }
}

/// Tolerance check, executable.
pub fn tol_ok(f: i64) -> (b: bool)
    requires
        fx_valid(f as int),
    ensures
        b == tol_ok_spec(f as int),
{
    -TOL_FX < f && f < TOL_FX
}

} // verus!
