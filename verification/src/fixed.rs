//! Fixed-point arithmetic for the integration core.
//!
//! A quantity is stored as an `i64` scaled by `SCALE`: the stored value `v`
//! stands for the real number `v / SCALE`. Every operation truncates toward
//! zero and reports `None` when its exact result would leave the `i64`
//! range; the tick machine treats such a result as it would a non-finite
//! float, by discarding the update that produced it.

use vstd::prelude::*;

verus! {

/// Number of integer steps per model unit.
pub const SCALE: i64 = 1_000_000_000_000;

/// Truncating (round-toward-zero) division, the rounding used by every
/// operation in this module. `int` division in specifications rounds toward
/// negative infinity, so the negative case is spelled out.
pub open spec fn tdiv(a: int, b: int) -> int
    recommends
        b > 0,
{
    if a >= 0 {
        a / b
    } else {
        -((-a) / b)
    }
}

/// The values an `i64` can carry; leaving this range is the model's
/// analogue of an operation turning non-finite.
pub open spec fn in_range(v: int) -> bool {
    i64::MIN <= v <= i64::MAX
}

/// Exact value of `a * b / m` over stored integers, before the range check:
/// the product of two fixed-point values carries a factor `SCALE` too many,
/// and `m` is a small extra divisor used by the integrator (`h/2`, `h/6`).
pub open spec fn mul_div_val(a: int, b: int, m: int) -> int {
    tdiv(a * b, m * (SCALE as int))
}

/// `a * b / m` in fixed point; `None` when out of range.
pub open spec fn fix_mul_div_spec(a: i64, b: i64, m: i64) -> Option<i64> {
    if in_range(mul_div_val(a as int, b as int, m as int)) {
        Some(mul_div_val(a as int, b as int, m as int) as i64)
    } else {
        None
    }
}

/// Fixed-point product.
pub open spec fn fix_mul_spec(a: i64, b: i64) -> Option<i64> {
    fix_mul_div_spec(a, b, 1)
}

/// Fixed-point sum; `None` when out of range.
pub open spec fn fix_add_spec(a: i64, b: i64) -> Option<i64> {
    if in_range(a + b) {
        Some((a + b) as i64)
    } else {
        None
    }
}

/// Fixed-point difference; `None` when out of range.
pub open spec fn fix_sub_spec(a: i64, b: i64) -> Option<i64> {
    if in_range(a - b) {
        Some((a - b) as i64)
    } else {
        None
    }
}

/// Exact value of the fixed-point quotient `a / b` over stored integers:
/// the ratio of the real quantities keeps the factor `SCALE` of `a`.
pub open spec fn div_val(a: int, b: int) -> int {
    tdiv(a * (SCALE as int), b)
}

/// Fixed-point quotient; `None` when out of range.
pub open spec fn fix_div_spec(a: i64, b: i64) -> Option<i64> {
    if in_range(div_val(a as int, b as int)) {
        Some(div_val(a as int, b as int) as i64)
    } else {
        None
    }
}

/// Multiplying by `-1` negates: spelled out because symbolic products are
/// opaque to the default solver.
proof fn lemma_times_neg_one(t: int)
    ensures
        t * -1 == -t,
{
    assert(t * -1 == -t) by (nonlinear_arith);
}

/// `0 <= x / d <= x` for nonnegative `x` and positive `d`.
proof fn lemma_div_pos_le(x: int, d: int)
    requires
        x >= 0,
        d >= 1,
    ensures
        0 <= x / d <= x,
{
    assert(0 <= x / d <= x) by (nonlinear_arith)
        requires
            x >= 0,
            d >= 1,
    ;
}

/// Truncating division never grows the magnitude.
pub proof fn lemma_tdiv_magnitude(a: int, b: int)
    requires
        b >= 1,
    ensures
        a >= 0 ==> 0 <= tdiv(a, b) <= a,
        a < 0 ==> a <= tdiv(a, b) <= 0,
{
    if a >= 0 {
        lemma_div_pos_le(a, b);
    } else {
        lemma_div_pos_le(-a, b);
    }
}

pub fn fix_add(a: i64, b: i64) -> (r: Option<i64>)
    ensures
        r == fix_add_spec(a, b),
{
    a.checked_add(b)
}

pub fn fix_sub(a: i64, b: i64) -> (r: Option<i64>)
    ensures
        r == fix_sub_spec(a, b),
{
    a.checked_sub(b)
}

pub fn fix_mul_div(a: i64, b: i64, m: i64) -> (r: Option<i64>)
    requires
        1 <= m <= 6,
    ensures
        r == fix_mul_div_spec(a, b, m),
{
    proof {
        assert(i128::MIN < (a as int) * (b as int) < i128::MAX) by (nonlinear_arith)
            requires
                i64::MIN <= a <= i64::MAX,
                i64::MIN <= b <= i64::MAX,
        ;
    }
    let p: i128 = (a as i128) * (b as i128);
    let d: i128 = (m as i128) * (SCALE as i128);
    proof {
        let x = p as int;
        let dd = d as int;
        lemma_tdiv_magnitude(x, dd);
        vstd::arithmetic::div_mod::lemma_div_of0(dd);
        if x < 0 {
            lemma_times_neg_one(x);
            lemma_times_neg_one((x * -1) / dd);
        }
    }
    match p.checked_div(d) {
        Some(v) => {
            proof {
                assert(v as int == mul_div_val(a as int, b as int, m as int));
            }
            if v > (i64::MAX as i128) || v < (i64::MIN as i128) {
                None
            } else {
                Some(v as i64)
            }
        },
        None => None,
    }
}

pub fn fix_mul(a: i64, b: i64) -> (r: Option<i64>)
    ensures
        r == fix_mul_spec(a, b),
{
    fix_mul_div(a, b, 1)
}

pub fn fix_div(a: i64, b: i64) -> (r: Option<i64>)
    requires
        b > 0,
    ensures
        r == fix_div_spec(a, b),
{
    proof {
        assert(i128::MIN < (a as int) * (SCALE as int) < i128::MAX) by (nonlinear_arith)
            requires
                i64::MIN <= a <= i64::MAX,
                SCALE == 1_000_000_000_000,
        ;
    }
    let p: i128 = (a as i128) * (SCALE as i128);
    proof {
        let x = p as int;
        lemma_tdiv_magnitude(x, b as int);
        vstd::arithmetic::div_mod::lemma_div_of0(b as int);
        if x < 0 {
            lemma_times_neg_one(x);
            lemma_times_neg_one((x * -1) / (b as int));
        }
    }
    match p.checked_div(b as i128) {
        Some(v) => {
            proof {
                assert(v as int == div_val(a as int, b as int));
            }
            if v > (i64::MAX as i128) || v < (i64::MIN as i128) {
                None
            } else {
                Some(v as i64)
            }
        },
        None => None,
    }
}

/// Division of a stored value by a plain positive integer (not itself
/// scaled); total, since the magnitude can only shrink.
pub fn int_div(a: i64, k: i64) -> (r: i64)
    requires
        k > 0,
    ensures
        r as int == tdiv(a as int, k as int),
{
    proof {
        lemma_tdiv_magnitude(a as int, k as int);
        vstd::arithmetic::div_mod::lemma_div_of0(k as int);
        if a < 0 {
            lemma_times_neg_one(a as int);
            lemma_times_neg_one(((a as int) * -1) / (k as int));
        }
    }
    match a.checked_div(k) {
        Some(v) => v,
        None => 0,
    }
}

} // verus!
