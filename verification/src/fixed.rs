//! Fixed-point scalars.
//!
//! Every scalar of the simulation (lengths, speeds, angles in degrees, time
//! steps, colour channels) is an `i64` counting millionths, so `UNIT` stands
//! for `1.0`. All operations are total: a result that does not fit is pinned
//! to the nearest representable value, and quotients round toward zero so
//! that negating the operands negates the result.

use vstd::prelude::*;

verus! {

/// The fixed-point representation of `1.0`.
pub const UNIT: i64 = 1_000_000;

/// The nearest `i64` to `x`.
pub open spec fn sat(x: int) -> i64 {
    if x > i64::MAX {
        i64::MAX
    } else if x < i64::MIN {
        i64::MIN
    } else {
        x as i64
    }
}

/// The quotient `x / d` rounded toward zero, for a positive divisor.
pub open spec fn trunc_div(x: int, d: int) -> int
    recommends
        d > 0,
{
    if x >= 0 {
        x / d
    } else {
        -((-x) / d)
    }
}

/// `a + b`, pinned to the `i64` range.
pub open spec fn spec_plus(a: i64, b: i64) -> i64 {
    sat(a + b)
}

/// `a - b`, pinned to the `i64` range.
pub open spec fn spec_minus(a: i64, b: i64) -> i64 {
    sat(a - b)
}

/// The fixed-point product `a * b`: the integer product divided by `UNIT`,
/// rounded toward zero and pinned to the `i64` range.
pub open spec fn spec_scaled(a: i64, b: i64) -> i64 {
    sat(trunc_div(a * b, UNIT as int))
}

/// A tenth of `a`, rounded toward zero.
pub open spec fn spec_tenth(a: i64) -> i64 {
    trunc_div(a as int, 10) as i64
}

/// `x` raised by `step`, but never past `limit`; a value already at or
/// above `limit` is left alone.
pub open spec fn spec_raised(x: i64, step: i64, limit: i64) -> i64 {
    if x < limit {
        let y = spec_plus(x, step);
        if y < limit {
            y
        } else {
            limit
        }
    } else {
        x
    }
}

/// `x` lowered by `step`, but never past `limit`; a value already at or
/// below `limit` is left alone.
pub open spec fn spec_lowered(x: i64, step: i64, limit: i64) -> i64 {
    if x > limit {
        let y = spec_minus(x, step);
        if y > limit {
            y
        } else {
            limit
        }
    } else {
        x
    }
}

/// `x` moved toward zero by `step`, stopping at zero.
pub open spec fn spec_toward_zero(x: i64, step: i64) -> i64 {
    if x > 0 {
        spec_lowered(x, step, 0)
    } else {
        spec_raised(x, step, 0)
    }
}

/// `x` confined to the interval from `lo` to `hi`.
pub open spec fn spec_clamped(x: i64, lo: i64, hi: i64) -> i64 {
    if x < lo {
        lo
    } else if x > hi {
        hi
    } else {
        x
    }
}

/// Pins a wide intermediate result to the `i64` range.
pub fn saturate(x: i128) -> (r: i64)
    ensures
        r == sat(x as int),
{
    if x > i64::MAX as i128 {
        i64::MAX
    } else if x < i64::MIN as i128 {
        i64::MIN
    } else {
        x as i64
    }
}

/// Adds, pinning the sum to the `i64` range.
#[verifier::when_used_as_spec(spec_plus)]
pub fn plus(a: i64, b: i64) -> (r: i64)
    ensures
        r == spec_plus(a, b),
{
    saturate(a as i128 + b as i128)
}

/// Subtracts, pinning the difference to the `i64` range.
#[verifier::when_used_as_spec(spec_minus)]
pub fn minus(a: i64, b: i64) -> (r: i64)
    ensures
        r == spec_minus(a, b),
{
    saturate(a as i128 - b as i128)
}

/// Multiplies in fixed point, rounding toward zero and pinning the product
/// to the `i64` range.
#[verifier::when_used_as_spec(spec_scaled)]
pub fn scaled(a: i64, b: i64) -> (r: i64)
    ensures
        r == spec_scaled(a, b),
{
    assert(-0x4000_0000_0000_0000_0000_0000_0000_0000 <= a * b
        <= 0x4000_0000_0000_0000_0000_0000_0000_0000) by (nonlinear_arith)
        requires
            -0x8000_0000_0000_0000 <= a < 0x8000_0000_0000_0000,
            -0x8000_0000_0000_0000 <= b < 0x8000_0000_0000_0000,
    ;
    let wide: i128 = (a as i128) * (b as i128);
    saturate(wide / (UNIT as i128))
}

/// Takes a tenth, rounding toward zero.
#[verifier::when_used_as_spec(spec_tenth)]
pub fn tenth(a: i64) -> (r: i64)
    ensures
        r == spec_tenth(a),
{
    a / 10
}

/// Raises `x` by `step` without passing `limit`.
#[verifier::when_used_as_spec(spec_raised)]
pub fn raised(x: i64, step: i64, limit: i64) -> (r: i64)
    ensures
        r == spec_raised(x, step, limit),
{
    if x < limit {
        let y = plus(x, step);
        if y < limit {
            y
        } else {
            limit
        }
    } else {
        x
    }
}

/// Lowers `x` by `step` without passing `limit`.
#[verifier::when_used_as_spec(spec_lowered)]
pub fn lowered(x: i64, step: i64, limit: i64) -> (r: i64)
    ensures
        r == spec_lowered(x, step, limit),
{
    if x > limit {
        let y = minus(x, step);
        if y > limit {
            y
        } else {
            limit
        }
    } else {
        x
    }
}

/// Moves `x` toward zero by `step` without passing zero.
#[verifier::when_used_as_spec(spec_toward_zero)]
pub fn toward_zero(x: i64, step: i64) -> (r: i64)
    ensures
        r == spec_toward_zero(x, step),
{
    if x > 0 {
        lowered(x, step, 0)
    } else {
        raised(x, step, 0)
    }
}

/// Confines `x` to the interval from `lo` to `hi`.
#[verifier::when_used_as_spec(spec_clamped)]
pub fn clamped(x: i64, lo: i64, hi: i64) -> (r: i64)
    ensures
        r == spec_clamped(x, lo, hi),
{
    if x < lo {
        lo
    } else if x > hi {
        hi
    } else {
        x
    }
}

/// A fixed-point product has the sign that its factors give it.
pub proof fn lemma_scaled_sign(a: i64, b: i64)
    ensures
        a >= 0 && b >= 0 ==> scaled(a, b) >= 0,
        a <= 0 && b >= 0 ==> scaled(a, b) <= 0,
        a == 0 || b == 0 ==> scaled(a, b) == 0,
{
    let p = a * b;
    assert(a >= 0 && b >= 0 ==> p >= 0) by (nonlinear_arith)
        requires
            p == a * b,
    ;
    assert(a <= 0 && b >= 0 ==> p <= 0) by (nonlinear_arith)
        requires
            p == a * b,
    ;
    assert(a == 0 || b == 0 ==> p == 0) by (nonlinear_arith)
        requires
            p == a * b,
    ;
}

/// Multiplying by `1.0` changes nothing.
pub proof fn lemma_scaled_by_unit(a: i64)
    ensures
        scaled(a, UNIT) == a,
        scaled(UNIT, a) == a,
{
    assert(a * UNIT == UNIT * a) by (nonlinear_arith);
}

/// A factor between `0.0` and `1.0` does not enlarge the other factor.
pub proof fn lemma_scaled_shrinks(a: i64, b: i64)
    requires
        -UNIT <= b <= UNIT,
    ensures
        a >= 0 ==> -a <= scaled(a, b) <= a,
        a <= 0 ==> a <= scaled(a, b) <= -a,
{
    let p = a * b;
    assert(a >= 0 ==> -a * UNIT <= p <= a * UNIT) by (nonlinear_arith)
        requires
            p == a * b,
            -UNIT <= b <= UNIT,
    ;
    assert(a <= 0 ==> a * UNIT <= p <= -a * UNIT) by (nonlinear_arith)
        requires
            p == a * b,
            -UNIT <= b <= UNIT,
    ;
}

} // verus!
