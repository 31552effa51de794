//! Widened integer arithmetic shared by the accounting engine.
//!
//! All conversions between asset amounts and share units are of the form
//! `a * b / d`, computed over a 128-bit intermediate so the product cannot
//! overflow, with the quotient floored.  The lemmas here bound such
//! quotients; the executable helpers perform the computation and either
//! demand or report that the quotient fits back into 64 bits.

use vstd::arithmetic::div_mod::{
    lemma_div_is_ordered, lemma_div_multiples_vanish, lemma_fundamental_div_mod,
    lemma_mod_division_less_than_divisor, lemma_multiply_divide_le,
};
use vstd::arithmetic::mul::{lemma_mul_inequality, lemma_mul_is_commutative};
use vstd::prelude::*;

verus! {

/// Subtraction clipped at zero, the ghost counterpart of `u64::saturating_sub`.
pub open spec fn sat_sub(a: int, b: int) -> int {
    if a >= b {
        a - b
    } else {
        0
    }
}

/// The smaller of two mathematical integers.
pub open spec fn min_int(a: int, b: int) -> int {
    if a <= b {
        a
    } else {
        b
    }
}

/// A quotient shrinks when the factor beside `a` is at most the divisor:
/// `a * b / c <= a` whenever `b <= c`.
pub proof fn lemma_mul_div_le_total(a: int, b: int, c: int)
    requires
        0 <= a,
        0 <= b,
        0 < c,
        b <= c,
    ensures
        (a * b) / c <= a,
{
    lemma_mul_inequality(b, c, a);
    lemma_mul_is_commutative(b, a);
    lemma_mul_is_commutative(c, a);
    lemma_multiply_divide_le(a * b, c, a);
}

/// A quotient shrinks when the factor beside `b` is at most the divisor:
/// `a * b / c <= b` whenever `a <= c`.
pub proof fn lemma_mul_div_le_factor(a: int, b: int, c: int)
    requires
        0 <= a,
        0 <= b,
        0 < c,
        a <= c,
    ensures
        (a * b) / c <= b,
{
    lemma_mul_inequality(a, c, b);
    lemma_multiply_divide_le(a * b, c, b);
}

/// Multiplying a floored quotient back by the divisor cannot exceed the
/// dividend: `(x / d) * d <= x`.
pub proof fn lemma_div_mul_le(x: int, d: int)
    requires
        0 <= x,
        0 < d,
    ensures
        (x / d) * d <= x,
{
    lemma_fundamental_div_mod(x, d);
    lemma_mod_division_less_than_divisor(x, d);
    lemma_mul_is_commutative(d, x / d);
}

/// Converting an amount to shares and those shares back to an amount, both
/// at rate `a / b` floored, never yields more than the original amount.
pub proof fn lemma_round_trip_le(x: int, a: int, b: int)
    requires
        0 <= x,
        0 < a,
        0 < b,
    ensures
        ((x * a) / b) * b / a <= x,
{
    let s = (x * a) / b;
    lemma_div_mul_le(x * a, b);
    lemma_div_is_ordered(s * b, x * a, a);
    lemma_mul_is_commutative(x, a);
    lemma_div_multiples_vanish(x, a);
}

/// Back-converting a payout bounded by `r * nav / scale` at the same rate
/// releases at most `r` shares.
pub proof fn lemma_inverse_conversion_le(p: int, r: int, nav: int, scale: int)
    requires
        0 <= p,
        0 <= r,
        0 < nav,
        0 < scale,
        p <= (r * nav) / scale,
    ensures
        (p * scale) / nav <= r,
{
    lemma_mul_inequality(p, (r * nav) / scale, scale);
    lemma_div_mul_le(r * nav, scale);
    lemma_mul_is_commutative(nav, r);
    lemma_multiply_divide_le(p * scale, nav, r);
}

/// `floor(a * b / d)` for 64-bit operands, computed over a 128-bit
/// intermediate.  The caller must know that the quotient fits.
pub fn mul_div(a: u64, b: u64, d: u64) -> (r: u64)
    requires
        0 < d,
        (a as int * b as int) / (d as int) <= u64::MAX,
    ensures
        r == (a as int * b as int) / (d as int),
{
    proof {
        lemma_u64_mul_fits_u128(a, b);
    }
    let q: u128 = (a as u128) * (b as u128) / (d as u128);
    q as u64
}

/// `floor(a * b / d)` for 64-bit operands, reporting a quotient that does
/// not fit back into 64 bits instead of truncating it.
pub fn checked_mul_div(a: u64, b: u64, d: u64) -> (r: Option<u64>)
    requires
        0 < d,
    ensures
        (match r {
            Some(q) => q == (a as int * b as int) / (d as int),
            None => (a as int * b as int) / (d as int) > u64::MAX,
        }),
{
    proof {
        lemma_u64_mul_fits_u128(a, b);
    }
    let q: u128 = (a as u128) * (b as u128) / (d as u128);
    if q > u64::MAX as u128 {
        None
    } else {
        Some(q as u64)
    }
}

/// The product of two 64-bit values fits in 128 bits.
pub proof fn lemma_u64_mul_fits_u128(a: u64, b: u64)
    ensures
        a as int * b as int <= u128::MAX,
{
    lemma_mul_inequality(a as int, u64::MAX as int, b as int);
    lemma_mul_inequality(b as int, u64::MAX as int, u64::MAX as int);
    lemma_mul_is_commutative(a as int, b as int);
    lemma_mul_is_commutative(b as int, u64::MAX as int);
}

} // verus!
