//! The saturating nonlinearity of the circuit and its fixed-pivot gain.
//!
//! The saturator is the algebraic sigmoid `x / (1 + |x|)`, a member of the
//! tanh family: odd, bounded by one, with unit slope at the origin.  The
//! fixed-pivot method replaces `sat(x)` by the linear gain `sat(p)/p`
//! evaluated at a pivot `p`; for this saturator that gain is `1 / (1 + |p|)`
//! and the derivative is its square, both in closed form.

use vstd::prelude::*;
use vstd::arithmetic::div_mod::{lemma_div_is_ordered_by_denominator, lemma_div_pos_is_pos};
use crate::fixed::{
    abs_int, fx_mul_spec, fx_valid, lemma_tdiv_bounds, lemma_tdiv_upper, tdiv, FX_MAX, FX_ONE,
};

verus! {

/// The saturator in Q24: `x / (1 + |x|)` scaled by `FX_ONE`.
pub open spec fn sat_spec(x: int) -> int {
    tdiv(x * (FX_ONE as int), FX_ONE + abs_int(x))
}

/// The fixed-pivot gain `sat(x) / x == 1 / (1 + |x|)` in Q24.
pub open spec fn sat_gain_spec(x: int) -> int {
    tdiv((FX_ONE as int) * (FX_ONE as int), FX_ONE + abs_int(x))
}

/// The saturator's derivative `1 / (1 + |x|)^2` in Q24.
pub open spec fn sat_deriv_spec(x: int) -> int {
    fx_mul_spec(sat_gain_spec(x), sat_gain_spec(x))
}

/// The saturator stays within one and keeps the argument's sign.
pub proof fn lemma_sat_bounds(x: int)
    requires
        fx_valid(x),
    ensures
        -FX_ONE <= sat_spec(x) <= FX_ONE,
        x >= 0 ==> sat_spec(x) >= 0,
        x <= 0 ==> sat_spec(x) <= 0,
        x == 0 ==> sat_spec(x) == 0,
{
    let f = FX_ONE as int;
    if x >= 0 {
        assert(0 <= x * f <= (f + x) * f) by (nonlinear_arith)
            requires
                0 <= x,
                0 < f;
        lemma_div_pos_is_pos(x * f, f + x);
        lemma_tdiv_upper(x * f, f + x, f);
    } else {
        assert(0 <= (-x) * f <= (f + (-x)) * f) by (nonlinear_arith)
            requires
                x < 0,
                0 < f;
        assert(x * f == -((-x) * f)) by (nonlinear_arith);
        lemma_div_pos_is_pos((-x) * f, f + (-x));
        lemma_tdiv_upper((-x) * f, f + (-x), f);
    }
}

/// The fixed-pivot gain lies strictly between zero and one.
pub proof fn lemma_sat_gain_bounds(x: int)
    requires
        fx_valid(x),
    ensures
        1 <= sat_gain_spec(x) <= FX_ONE,
{
    let f = FX_ONE as int;
    let d = f + abs_int(x);
    assert(f <= d <= f + FX_MAX);
    lemma_div_is_ordered_by_denominator(f * f, d, f + FX_MAX as int);
    assert(f * f == 281474976710656int);
    assert(281474976710656int / 2164260864int >= 1);
    assert(f * f <= d * f) by (nonlinear_arith)
        requires
            f <= d,
            0 < f;
    lemma_tdiv_upper(f * f, d, f);
}

/// A product with a gain in `[0, 1]` keeps sign and never grows the other factor.
pub proof fn lemma_fx_mul_unit(a: int, b: int)
    requires
        0 <= a <= FX_ONE,
        0 <= b,
    ensures
        0 <= fx_mul_spec(a, b) <= b,
{
    let f = FX_ONE as int;
    assert(0 <= a * b <= f * b) by (nonlinear_arith)
        requires
            0 <= a <= f,
            0 <= b;
    lemma_div_pos_is_pos(a * b, f);
    assert(f * b == b * f) by (nonlinear_arith);
    lemma_tdiv_upper(a * b, f, b);
}

/// The derivative estimate lies in `[0, 1]`.
pub proof fn lemma_sat_deriv_bounds(x: int)
    requires
        fx_valid(x),
    ensures
        0 <= sat_deriv_spec(x) <= FX_ONE,
{
    lemma_sat_gain_bounds(x);
    lemma_fx_mul_unit(sat_gain_spec(x), sat_gain_spec(x));
}

/// The saturator, executable.
pub fn sat(x: i64) -> (r: i64)
    requires
        fx_valid(x as int),
    ensures
        r == sat_spec(x as int),
        -FX_ONE <= r <= FX_ONE,
{
    proof {
        lemma_sat_bounds(x as int);
        lemma_tdiv_bounds(x as int * FX_ONE as int, FX_ONE + abs_int(x as int));
    }
    let n: i64 = x * FX_ONE;
    let d: i64 = FX_ONE + if x >= 0 {
        x
    } else {
        -x
    };
    n / d
}

/// The fixed-pivot gain, executable.
pub fn sat_gain(x: i64) -> (r: i64)
    requires
        fx_valid(x as int),
    ensures
        r == sat_gain_spec(x as int),
        1 <= r <= FX_ONE,
{
    proof {
        lemma_sat_gain_bounds(x as int);
    }
    let d: i64 = FX_ONE + if x >= 0 {
        x
    } else {
        -x
    };
    (FX_ONE * FX_ONE) / d
}

/// The saturator's derivative at a pivot, executable.
pub fn sat_deriv(x: i64) -> (r: i64)
    requires
        fx_valid(x as int),
    ensures
        r == sat_deriv_spec(x as int),
        0 <= r <= FX_ONE,
{
    proof {
        lemma_sat_deriv_bounds(x as int);
    }
    let gn = sat_gain(x);
    crate::fixed::fx_mul(gn, gn)
}

} // verus!
