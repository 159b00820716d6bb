//! Saturating signed fixed-point arithmetic (Q24) for the filter core.
//!
//! Every audio value, coefficient and solver intermediate is an `i64` holding
//! a real number scaled by `FX_ONE` (2^24).  All operations clamp their
//! result into `[-FX_MAX, FX_MAX]`, so no tick can overflow or grow without
//! bound; division truncates toward zero, as the hardware does.

use vstd::prelude::*;
use vstd::arithmetic::div_mod::{
    lemma_div_nonincreasing, lemma_div_pos_is_pos, lemma_multiply_divide_le,
};

verus! {

/// One in Q24: 2^24.
pub const FX_ONE: i64 = 16777216;

/// Largest representable magnitude: 2^31 (128.0 in Q24).
pub const FX_MAX: i64 = 2147483648;

/// Magnitude of a mathematical integer.
pub open spec fn abs_int(x: int) -> int {
    if x >= 0 {
        x
    } else {
        -x
    }
}

/// Division truncating toward zero, for a positive divisor.
pub open spec fn tdiv(a: int, b: int) -> int {
    if a >= 0 {
        a / b
    } else {
        -((-a) / b)
    }
}

/// Division truncating toward zero, for any nonzero divisor.
pub open spec fn sdiv(a: int, b: int) -> int {
    if b >= 0 {
        tdiv(a, b)
    } else {
        -tdiv(a, -b)
    }
}

/// Whether a value lies in the representable fixed-point range.
pub open spec fn fx_valid(x: int) -> bool {
    -FX_MAX <= x <= FX_MAX
}

/// Saturate into the representable range.
pub open spec fn fx_clamp_spec(x: int) -> int {
    if x > FX_MAX {
        FX_MAX as int
    } else if x < -FX_MAX {
        -FX_MAX as int
    } else {
        x
    }
}

/// Saturating fixed-point sum.
pub open spec fn fx_add_spec(a: int, b: int) -> int {
    fx_clamp_spec(a + b)
}

/// Saturating fixed-point difference.
pub open spec fn fx_sub_spec(a: int, b: int) -> int {
    fx_clamp_spec(a - b)
}

/// Saturating fixed-point product: (a * b) / 2^24, truncated toward zero.
pub open spec fn fx_mul_spec(a: int, b: int) -> int {
    fx_clamp_spec(tdiv(a * b, FX_ONE as int))
}

/// Saturating fixed-point quotient: (a * 2^24) / b, truncated toward zero.
pub open spec fn fx_div_spec(a: int, b: int) -> int {
    fx_clamp_spec(sdiv(a * (FX_ONE as int), b))
}

/// Truncating division by a positive divisor keeps sign and never grows magnitude.
pub proof fn lemma_tdiv_bounds(a: int, b: int)
    requires
        b >= 1,
    ensures
        a >= 0 ==> 0 <= tdiv(a, b) <= a,
        a <= 0 ==> a <= tdiv(a, b) <= 0,
{
    if a >= 0 {
        lemma_div_pos_is_pos(a, b);
        lemma_div_nonincreasing(a, b);
    } else {
        lemma_div_pos_is_pos(-a, b);
        lemma_div_nonincreasing(-a, b);
    }
}

/// An upper bound on a nonnegative truncating quotient from a product bound.
pub proof fn lemma_tdiv_upper(a: int, b: int, c: int)
    requires
        b >= 1,
        0 <= a,
        a <= b * c,
    ensures
        tdiv(a, b) <= c,
{
    lemma_multiply_divide_le(a, b, c);
}

/// Saturate into the representable range.
pub fn fx_clamp(x: i64) -> (r: i64)
    ensures
        r == fx_clamp_spec(x as int),
        fx_valid(r as int),
{
    if x > FX_MAX {
        FX_MAX
    } else if x < -FX_MAX {
        -FX_MAX
    } else {
        x
    }
}

/// Saturating sum.
pub fn fx_add(a: i64, b: i64) -> (r: i64)
    requires
        fx_valid(a as int),
        fx_valid(b as int),
    ensures
        r == fx_add_spec(a as int, b as int),
        fx_valid(r as int),
{
    fx_clamp(a + b)
}

/// Saturating difference.
pub fn fx_sub(a: i64, b: i64) -> (r: i64)
    requires
        fx_valid(a as int),
        fx_valid(b as int),
    ensures
        r == fx_sub_spec(a as int, b as int),
        fx_valid(r as int),
{
    fx_clamp(a - b)
}

/// Saturating product.
pub fn fx_mul(a: i64, b: i64) -> (r: i64)
    requires
        fx_valid(a as int),
        fx_valid(b as int),
    ensures
        r == fx_mul_spec(a as int, b as int),
        fx_valid(r as int),
{
    proof {
        assert((-0x4000000000000000) <= a * b <= 0x4000000000000000) by (nonlinear_arith)
            requires
                -0x80000000 <= a <= 0x80000000,
                -0x80000000 <= b <= 0x80000000;
        lemma_tdiv_bounds(a as int * b as int, FX_ONE as int);
    }
    let p: i64 = a * b;
    let q: i64 = p / FX_ONE;
    fx_clamp(q)
}

/// Saturating quotient.
pub fn fx_div(a: i64, b: i64) -> (r: i64)
    requires
        fx_valid(a as int),
        fx_valid(b as int),
        b != 0,
    ensures
        r == fx_div_spec(a as int, b as int),
        fx_valid(r as int),
{
    proof {
        if b >= 0 {
            lemma_tdiv_bounds(a as int * FX_ONE as int, b as int);
        } else {
            lemma_tdiv_bounds(a as int * FX_ONE as int, -(b as int));
        }
    }
    let n: i64 = a * FX_ONE;
    let q: i64 = if b > 0 {
        n / b
    } else {
        -(n / (-b))
    };
    fx_clamp(q)
}

} // verus!
