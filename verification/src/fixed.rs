//! Fixed-point arithmetic for the signal path.
//!
//! A value of 1.0 is represented by `FX_ONE` millionths. Multiplication of
//! two fixed-point values rescales the product by `FX_ONE`, truncating toward
//! zero the way hardware integer division does.

use vstd::prelude::*;

verus! {

/// Fixed-point representation of 1.0.
pub const FX_ONE: i64 = 1_000_000;

/// Clamping a mathematical integer to an inclusive interval.
pub open spec fn spec_clamp(x: int, lo: int, hi: int) -> int
    recommends
        lo <= hi,
{
    if x < lo {
        lo
    } else if x > hi {
        hi
    } else {
        x
    }
}

/// Division by a positive divisor, truncating toward zero (the semantics of
/// hardware integer division on signed values).
pub open spec fn spec_div_trunc(a: int, d: int) -> int
    recommends
        d > 0,
{
    if a >= 0 {
        a / d
    } else {
        -((-a) / d)
    }
}

/// The product of two fixed-point values, scaled back down by `FX_ONE` with
/// truncation toward zero.
pub open spec fn spec_mul_fx(a: int, b: int) -> int {
    spec_div_trunc(a * b, FX_ONE as int)
}

/// Clamps `x` into `[lo, hi]`.
pub fn clamp_i64(x: i64, lo: i64, hi: i64) -> (r: i64)
    requires
        lo <= hi,
    ensures
        r == spec_clamp(x as int, lo as int, hi as int),
        lo <= r <= hi,
{
    if x < lo {
        lo
    } else if x > hi {
        hi
    } else {
        x
    }
}

/// Divides `a` by the positive divisor `d`, truncating toward zero.
pub fn div_trunc_i64(a: i64, d: i64) -> (r: i64)
    requires
        d > 0,
        a > i64::MIN,
    ensures
        r == spec_div_trunc(a as int, d as int),
{
    if a >= 0 {
        let q: u64 = (a as u64) / (d as u64);
        q as i64
    } else {
        let q: u64 = ((-a) as u64) / (d as u64);
        -(q as i64)
    }
}

/// Multiplies two fixed-point values and rescales by `FX_ONE`.
pub fn mul_fx(a: i64, b: i64) -> (r: i64)
    requires
        a * b < i64::MAX,
        -i64::MAX < a * b,
    ensures
        r == spec_mul_fx(a as int, b as int),
{
    let p: i64 = a * b;
    div_trunc_i64(p, FX_ONE)
}

/// Truncating division never grows a magnitude bound: if `|a| <= b` then
/// `|a / d| <= b / d`.
pub proof fn lemma_div_trunc_bound(a: int, d: int, b: int)
    requires
        d > 0,
        b >= 0,
        -b <= a <= b,
    ensures
        -(b / d) <= spec_div_trunc(a, d) <= b / d,
{
    if a >= 0 {
        vstd::arithmetic::div_mod::lemma_div_is_ordered(a, b, d);
        vstd::arithmetic::div_mod::lemma_div_pos_is_pos(a, d);
    } else {
        vstd::arithmetic::div_mod::lemma_div_is_ordered(-a, b, d);
        vstd::arithmetic::div_mod::lemma_div_pos_is_pos(-a, d);
    }
}

/// Bounds for a fixed-point product from bounds on its factors: with
/// `|a| <= ba` and `0 <= b <= bb`, the raw product stays within `ba * bb` and
/// the rescaled product within `ba * bb / FX_ONE`.
pub proof fn lemma_mul_fx_bound(a: int, b: int, ba: int, bb: int)
    requires
        ba >= 0,
        -ba <= a <= ba,
        0 <= b <= bb,
    ensures
        -(ba * bb) <= a * b <= ba * bb,
        -((ba * bb) / (FX_ONE as int)) <= spec_mul_fx(a, b) <= (ba * bb) / (FX_ONE as int),
{
    assert(-(ba * bb) <= a * b <= ba * bb) by (nonlinear_arith)
        requires
            ba >= 0,
            -ba <= a <= ba,
            0 <= b <= bb,
    ;
    assert(ba * bb >= 0) by (nonlinear_arith)
        requires
            ba >= 0,
            0 <= bb,
    ;
    lemma_div_trunc_bound(a * b, FX_ONE as int, ba * bb);
}

/// Multiplying a fixed-point value by `FX_ONE` (1.0) is exact.
pub proof fn lemma_mul_fx_one(x: int)
    ensures
        spec_mul_fx(x, FX_ONE as int) == x,
{
    if x >= 0 {
        assert((x * (FX_ONE as int)) / (FX_ONE as int) == x) by (nonlinear_arith);
    } else {
        assert(((-x) * (FX_ONE as int)) / (FX_ONE as int) == -x) by (nonlinear_arith);
        assert(-(x * (FX_ONE as int)) == (-x) * (FX_ONE as int)) by (nonlinear_arith);
    }
}

/// A fixed-point product of non-negative factors is non-negative.
pub proof fn lemma_mul_fx_nonneg(a: int, b: int)
    requires
        a >= 0,
        b >= 0,
    ensures
        spec_mul_fx(a, b) >= 0,
{
    assert(a * b >= 0) by (nonlinear_arith)
        requires
            a >= 0,
            b >= 0,
    ;
    vstd::arithmetic::div_mod::lemma_div_pos_is_pos(a * b, FX_ONE as int);
}

/// Scaling by a fixed-point ratio of at least 1.0 never shrinks a
/// non-negative value, and scaling by a ratio of at most 1.0 never grows it.
pub proof fn lemma_mul_fx_ratio_direction(a: int, r: int)
    requires
        a >= 0,
        r >= 0,
    ensures
        r >= FX_ONE ==> spec_mul_fx(a, r) >= a,
        r <= FX_ONE ==> spec_mul_fx(a, r) <= a,
{
    if r >= FX_ONE {
        vstd::arithmetic::mul::lemma_mul_inequality(FX_ONE as int, r, a);
        vstd::arithmetic::div_mod::lemma_div_is_ordered(
            (FX_ONE as int) * a,
            r * a,
            FX_ONE as int,
        );
    } else {
        vstd::arithmetic::mul::lemma_mul_inequality(r, FX_ONE as int, a);
        vstd::arithmetic::div_mod::lemma_div_is_ordered(
            r * a,
            (FX_ONE as int) * a,
            FX_ONE as int,
        );
    }
    vstd::arithmetic::div_mod::lemma_div_multiples_vanish(a, FX_ONE as int);
    assert(r * a == a * r) by (nonlinear_arith);
    lemma_mul_fx_nonneg(a, r);
}

/// The truncated quotient `delta * d / t` lies between 0 and `delta`
/// whenever `0 <= d <= t`: a partial linear step never leaves the segment
/// from 0 to the full step.
pub proof fn lemma_scale_within(delta: int, d: int, t: int)
    requires
        t >= 1,
        0 <= d <= t,
    ensures
        delta >= 0 ==> 0 <= spec_div_trunc(delta * d, t) <= delta,
        delta < 0 ==> delta <= spec_div_trunc(delta * d, t) <= 0,
{
    if delta >= 0 {
        assert(0 <= delta * d <= delta * t) by (nonlinear_arith)
            requires
                delta >= 0,
                0 <= d <= t,
        ;
        vstd::arithmetic::div_mod::lemma_div_pos_is_pos(delta * d, t);
        vstd::arithmetic::div_mod::lemma_div_is_ordered(delta * d, delta * t, t);
        vstd::arithmetic::div_mod::lemma_div_multiples_vanish(delta, t);
        assert(delta * t == t * delta) by (nonlinear_arith);
    } else {
        assert(0 <= (-delta) * d <= (-delta) * t) by (nonlinear_arith)
            requires
                delta < 0,
                0 <= d <= t,
        ;
        assert(-(delta * d) == (-delta) * d) by (nonlinear_arith);
        vstd::arithmetic::div_mod::lemma_div_pos_is_pos((-delta) * d, t);
        vstd::arithmetic::div_mod::lemma_div_is_ordered((-delta) * d, (-delta) * t, t);
        vstd::arithmetic::div_mod::lemma_div_multiples_vanish(-delta, t);
        assert((-delta) * t == t * (-delta)) by (nonlinear_arith);
    }
}

} // verus!
