//! Sine and cosine of fixed-point angles.
//!
//! Angles are in degrees. An angle is first brought into the first turn and
//! from there, by the symmetries of the circle, into the first eighth of a
//! turn. There the sine and the cosine are the Taylor polynomials of degree
//! eleven and ten, evaluated by Horner's rule with eighteen decimal places
//! and rounded to the nearest millionth.
//!
//! What is proved of them: the range, the exact values at the quarter
//! turns, the symmetries under a full turn, half a turn and a change of
//! sign, the values at the angles of `lemma_notable_angles`, and that one
//! term more of either series would change its sum by less than a
//! thousandth of a millionth (`lemma_series_settled`).

use vstd::prelude::*;
use vstd::arithmetic::div_mod::{
    lemma_fundamental_div_mod, lemma_mod_add_multiples_vanish, lemma_mod_multiples_vanish,
    lemma_mod_sub_multiples_vanish,
};
use crate::fixed::UNIT;

verus! {

/// An eighth of a turn, `45` degrees.
pub const EIGHTH_TURN: i64 = 45_000_000;

/// A quarter turn, `90` degrees.
pub const QUARTER_TURN: i64 = 90_000_000;

/// Half a turn, `180` degrees.
pub const HALF_TURN: i64 = 180_000_000;

/// A full turn, `360` degrees.
pub const FULL_TURN: i64 = 360_000_000;

/// The representation of `1.0` in the working precision of the
/// polynomials, eighteen decimal places.
pub const FINE: i128 = 1_000_000_000_000_000_000;

/// A millionth in the working precision.
pub const COARSE: i128 = 1_000_000_000_000;

/// A millionth of a degree in radians, in the working precision.
pub const RADIAN_STEP: i128 = 17_453_292_520;

/// The angle `a` brought into the first turn, `0 <= a < 360`.
pub open spec fn spec_within_turn(a: i64) -> i64 {
    ((a as int) % (FULL_TURN as int)) as i64
}

/// One step of Horner's rule for an alternating series in `z`: the value
/// `1 - z * t / n` in the working precision.
pub open spec fn damped(z: int, t: int, n: int) -> int {
    FINE - (z * t / (FINE as int)) / n
}

/// The square of `r` in the working precision.
pub open spec fn squared(r: int) -> int {
    r * r / (FINE as int)
}

/// The value `v` of the working precision to the nearest millionth.
pub open spec fn rounded(v: int) -> int {
    (v + COARSE / 2) / (COARSE as int)
}

/// The series of the sine in the working precision, for `x` millionths of
/// a degree in the first eighth of a turn: the sum
/// `r (1 - z/6 (1 - z/20 (1 - z/42 (1 - z/72 (1 - z/110)))))` for the
/// angle `r` in radians and its square `z`.
pub open spec fn sine_series(x: int) -> int
    recommends
        0 <= x <= EIGHTH_TURN,
{
    let r = x * RADIAN_STEP;
    let z = squared(r);
    r * damped(z, damped(z, damped(z, damped(z, damped(z, FINE as int, 110), 72), 42), 20), 6) / (
    FINE as int)
}

/// The series of the cosine in the working precision, for `x` millionths
/// of a degree in the first eighth of a turn: the sum
/// `1 - z/2 (1 - z/12 (1 - z/30 (1 - z/56 (1 - z/90))))` for the square
/// `z` of the angle in radians.
pub open spec fn cosine_series(x: int) -> int
    recommends
        0 <= x <= EIGHTH_TURN,
{
    let r = x * RADIAN_STEP;
    let z = squared(r);
    damped(z, damped(z, damped(z, damped(z, damped(z, FINE as int, 90), 56), 30), 12), 2)
}

/// The series of the sine with one term more.
pub open spec fn sine_series_extended(x: int) -> int
    recommends
        0 <= x <= EIGHTH_TURN,
{
    let r = x * RADIAN_STEP;
    let z = squared(r);
    r * damped(
        z,
        damped(z, damped(z, damped(z, damped(z, damped(z, FINE as int, 156), 110), 72), 42), 20),
        6,
    ) / (FINE as int)
}

/// The series of the cosine with one term more.
pub open spec fn cosine_series_extended(x: int) -> int
    recommends
        0 <= x <= EIGHTH_TURN,
{
    let r = x * RADIAN_STEP;
    let z = squared(r);
    damped(
        z,
        damped(z, damped(z, damped(z, damped(z, damped(z, FINE as int, 132), 90), 56), 30), 12),
        2,
    )
}

/// The sine of `x` millionths of a degree, for `x` in the first eighth of a
/// turn: its series to the nearest millionth.
#[verifier::opaque]
pub open spec fn octant_sine(x: int) -> int
    recommends
        0 <= x <= EIGHTH_TURN,
{
    rounded(sine_series(x))
}

/// The cosine of `x` millionths of a degree, for `x` in the first eighth
/// of a turn: its series to the nearest millionth.
#[verifier::opaque]
pub open spec fn octant_cosine(x: int) -> int
    recommends
        0 <= x <= EIGHTH_TURN,
{
    rounded(cosine_series(x))
}

/// The sine of `x` millionths of a degree for `x` in the first quarter
/// turn: beyond an eighth of a turn it is the cosine of what is left to
/// the quarter turn.
pub open spec fn quarter(x: int) -> int
    recommends
        0 <= x <= QUARTER_TURN,
{
    if x <= EIGHTH_TURN {
        octant_sine(x)
    } else {
        octant_cosine(QUARTER_TURN - x)
    }
}

/// The sine of `x` millionths of a degree for `x` in the first half turn:
/// beyond a quarter turn it is the sine of what is left to the half turn.
pub open spec fn arch(x: int) -> int
    recommends
        0 <= x <= HALF_TURN,
{
    if x <= QUARTER_TURN {
        quarter(x)
    } else {
        quarter(HALF_TURN - x)
    }
}

/// The sine of `a` degrees: that of the first half turn, negated in the
/// second.
pub open spec fn spec_sine(a: i64) -> i64 {
    let x = spec_within_turn(a);
    if x <= HALF_TURN {
        arch(x as int) as i64
    } else {
        (-arch(x - HALF_TURN)) as i64
    }
}

/// The cosine of `a` degrees: the sine a quarter turn further on.
pub open spec fn spec_cosine(a: i64) -> i64 {
    spec_sine((spec_within_turn(a) + QUARTER_TURN) as i64)
}

/// A step of Horner's rule keeps a value between `0.0` and `1.0` there.
pub proof fn lemma_damped_range(z: int, t: int, n: int)
    requires
        0 <= z <= FINE,
        0 <= t <= FINE,
        1 <= n,
    ensures
        0 <= z * t <= FINE * FINE,
        0 <= damped(z, t, n) <= FINE,
{
    let f = FINE as int;
    let p = z * t;
    assert(0 <= p <= f * f) by (nonlinear_arith)
        requires
            p == z * t,
            0 <= z <= f,
            0 <= t <= f,
    ;
    let q = p / f;
    assert(0 <= q <= f) by (nonlinear_arith)
        requires
            q == p / f,
            0 <= p <= f * f,
            f > 0,
    ;
    assert(0 <= q / n <= f) by (nonlinear_arith)
        requires
            0 <= q <= f,
            1 <= n,
    ;
}

/// In the first eighth of a turn the angle in radians and its square lie
/// between `0.0` and `1.0`.
pub proof fn lemma_octant_angle(x: int)
    requires
        0 <= x <= EIGHTH_TURN,
    ensures
        0 <= x * RADIAN_STEP <= FINE,
        0 <= (x * RADIAN_STEP) * (x * RADIAN_STEP) <= FINE * FINE,
        0 <= squared(x * RADIAN_STEP) <= FINE,
{
    let f = FINE as int;
    let r = x * RADIAN_STEP;
    let p = r * r;
    assert(0 <= p <= f * f) by (nonlinear_arith)
        requires
            p == r * r,
            0 <= r <= f,
    ;
    assert(0 <= p / f <= f) by (nonlinear_arith)
        requires
            0 <= p <= f * f,
            f > 0,
    ;
}

/// In the first eighth of a turn sine and cosine lie between `0.0` and
/// `1.0`.
pub proof fn lemma_octant_range(x: int)
    requires
        0 <= x <= EIGHTH_TURN,
    ensures
        0 <= octant_sine(x) <= UNIT,
        0 <= octant_cosine(x) <= UNIT,
{
    reveal(octant_sine);
    reveal(octant_cosine);
    let f = FINE as int;
    let r = x * RADIAN_STEP;
    let z = squared(r);
    lemma_octant_angle(x);
    let s5 = damped(z, f, 110);
    lemma_damped_range(z, f, 110);
    let s4 = damped(z, s5, 72);
    lemma_damped_range(z, s5, 72);
    let s3 = damped(z, s4, 42);
    lemma_damped_range(z, s4, 42);
    let s2 = damped(z, s3, 20);
    lemma_damped_range(z, s3, 20);
    let s1 = damped(z, s2, 6);
    lemma_damped_range(z, s2, 6);
    let p = r * s1;
    assert(0 <= p / f <= f) by (nonlinear_arith)
        requires
            p == r * s1,
            0 <= r <= f,
            0 <= s1 <= f,
            f > 0,
    ;
    let c5 = damped(z, f, 90);
    lemma_damped_range(z, f, 90);
    let c4 = damped(z, c5, 56);
    lemma_damped_range(z, c5, 56);
    let c3 = damped(z, c4, 30);
    lemma_damped_range(z, c4, 30);
    let c2 = damped(z, c3, 12);
    lemma_damped_range(z, c3, 12);
    lemma_damped_range(z, c2, 2);
}

/// On the first half turn the sine lies between `0.0` and `1.0`.
pub proof fn lemma_arch_range(x: int)
    requires
        0 <= x <= HALF_TURN,
    ensures
        0 <= arch(x) <= UNIT,
{
    let y = if x <= QUARTER_TURN {
        x
    } else {
        HALF_TURN - x
    };
    if y <= EIGHTH_TURN {
        lemma_octant_range(y);
    } else {
        lemma_octant_range(QUARTER_TURN - y);
    }
}

/// In the first eighth of a turn the square of the angle in radians stays
/// below `0.617`.
proof fn lemma_octant_square(x: int)
    requires
        0 <= x <= EIGHTH_TURN,
    ensures
        0 <= squared(x * RADIAN_STEP) <= 617_000_000_000_000_000,
{
    let r = x * RADIAN_STEP;
    let top: int = 785_398_163_400_000_000;
    let p = r * r;
    assert(0 <= p <= top * top) by (nonlinear_arith)
        requires
            p == r * r,
            0 <= r <= top,
    ;
    assert(top * top == 616_850_275_072_093_099_560_000_000_000_000_000);
    let f = FINE as int;
    assert(p / f <= 617_000_000_000_000_000) by (nonlinear_arith)
        requires
            0 <= p <= 616_850_275_072_093_099_560_000_000_000_000_000,
            f == 1_000_000_000_000_000_000,
    ;
    assert(0 <= p / f) by (nonlinear_arith)
        requires
            0 <= p,
            f > 0,
    ;
}

/// A step of Horner's rule turns a gap between two values around and
/// narrows it: by the factor `0.617 / n`, but for what the rounding adds.
proof fn lemma_damped_gap(z: int, t: int, u: int, n: int, gap: int)
    requires
        0 <= z <= 617_000_000_000_000_000,
        0 <= t <= u <= FINE,
        u - t <= gap,
        1 <= n,
    ensures
        0 <= damped(z, t, n) - damped(z, u, n) <= (617 * gap / 1000 + 1) / n + 1,
{
    let f = FINE as int;
    let a = z * u / f;
    let b = z * t / f;
    let d = u - t;
    assert(z * u == z * t + z * d) by (nonlinear_arith)
        requires
            d == u - t,
    ;
    assert(z * d <= 617_000_000_000_000_000 * gap) by (nonlinear_arith)
        requires
            0 <= z <= 617_000_000_000_000_000,
            0 <= d <= gap,
    ;
    assert(0 <= z * d && 0 <= z * t) by (nonlinear_arith)
        requires
            0 <= z,
            0 <= d,
            0 <= t,
    ;
    let pt = z * t;
    let pd = z * d;
    let cap = 617 * gap / 1000 + 1;
    assert(b <= (pt + pd) / f <= b + cap) by (nonlinear_arith)
        requires
            b == pt / f,
            0 <= pt,
            0 <= pd <= 617_000_000_000_000_000 * gap,
            cap == 617 * gap / 1000 + 1,
            f == 1_000_000_000_000_000_000,
    ;
    assert(b / n <= a / n <= b / n + cap / n + 1) by (nonlinear_arith)
        requires
            0 <= b <= a <= b + cap,
            0 <= cap,
            1 <= n,
    ;
}

/// Both series have settled: one term more would raise the sine by
/// `0.000_000_000_01` at most, and the cosine by `0.000_000_000_2`. The
/// terms of each series alternate and shrink, so that the value it tends
/// to lies between the two sums.
pub proof fn lemma_series_settled(x: int)
    requires
        0 <= x <= EIGHTH_TURN,
    ensures
        sine_series(x) <= sine_series_extended(x) <= sine_series(x) + 10_000_000,
        cosine_series(x) <= cosine_series_extended(x) <= cosine_series(x) + 200_000_000,
{
    let f = FINE as int;
    let r = x * RADIAN_STEP;
    let z = squared(r);
    lemma_octant_angle(x);
    lemma_octant_square(x);
    // the sine
    let s6 = damped(z, f, 156);
    lemma_damped_range(z, f, 156);
    assert(f - s6 <= 3_960_000_000_000_000);
    let s5 = damped(z, f, 110);
    let e5 = damped(z, s6, 110);
    lemma_damped_range(z, f, 110);
    lemma_damped_range(z, s6, 110);
    lemma_damped_gap(z, s6, f, 110, 3_960_000_000_000_000);
    let s4 = damped(z, s5, 72);
    let e4 = damped(z, e5, 72);
    lemma_damped_range(z, s5, 72);
    lemma_damped_range(z, e5, 72);
    lemma_damped_gap(z, s5, e5, 72, 22_300_000_000_000);
    let s3 = damped(z, s4, 42);
    let e3 = damped(z, e4, 42);
    lemma_damped_range(z, s4, 42);
    lemma_damped_range(z, e4, 42);
    lemma_damped_gap(z, e4, s4, 42, 192_000_000_000);
    let s2 = damped(z, s3, 20);
    let e2 = damped(z, e3, 20);
    lemma_damped_range(z, s3, 20);
    lemma_damped_range(z, e3, 20);
    lemma_damped_gap(z, s3, e3, 20, 2_830_000_000);
    let s1 = damped(z, s2, 6);
    let e1 = damped(z, e2, 6);
    lemma_damped_range(z, s2, 6);
    lemma_damped_range(z, e2, 6);
    lemma_damped_gap(z, e2, s2, 6, 87_400_000);
    assert(0 <= e1 - s1 <= 8_990_000);
    let ps = r * s1;
    let pe = r * e1;
    assert(ps / f <= pe / f <= ps / f + 8_990_001) by (nonlinear_arith)
        requires
            ps == r * s1,
            pe == r * e1,
            0 <= r <= f,
            0 <= s1 <= e1 <= s1 + 8_990_000,
            f == 1_000_000_000_000_000_000,
    ;
    // the cosine
    let c6 = damped(z, f, 132);
    lemma_damped_range(z, f, 132);
    assert(f - c6 <= 4_680_000_000_000_000);
    let c5 = damped(z, f, 90);
    let d5 = damped(z, c6, 90);
    lemma_damped_range(z, f, 90);
    lemma_damped_range(z, c6, 90);
    lemma_damped_gap(z, c6, f, 90, 4_680_000_000_000_000);
    let c4 = damped(z, c5, 56);
    let d4 = damped(z, d5, 56);
    lemma_damped_range(z, c5, 56);
    lemma_damped_range(z, d5, 56);
    lemma_damped_gap(z, c5, d5, 56, 32_100_000_000_000);
    let c3 = damped(z, c4, 30);
    let d3 = damped(z, d4, 30);
    lemma_damped_range(z, c4, 30);
    lemma_damped_range(z, d4, 30);
    lemma_damped_gap(z, d4, c4, 30, 354_000_000_000);
    let c2 = damped(z, c3, 12);
    let d2 = damped(z, d3, 12);
    lemma_damped_range(z, c3, 12);
    lemma_damped_range(z, d3, 12);
    lemma_damped_gap(z, c3, d3, 12, 7_290_000_000);
    lemma_damped_range(z, c2, 2);
    lemma_damped_range(z, d2, 2);
    lemma_damped_gap(z, d2, c2, 2, 375_000_000);
}

/// Brings an angle into the first turn.
#[verifier::when_used_as_spec(spec_within_turn)]
pub fn within_turn(a: i64) -> (x: i64)
    ensures
        x == spec_within_turn(a),
        0 <= x < FULL_TURN,
{
    let r = a % FULL_TURN;
    if r < 0 {
        r + FULL_TURN
    } else {
        r
    }
}

fn damp(z: i128, t: i128, n: i128) -> (d: i128)
    requires
        0 <= z <= FINE,
        0 <= t <= FINE,
        1 <= n,
    ensures
        d == damped(z as int, t as int, n as int),
        0 <= d <= FINE,
{
    proof {
        lemma_damped_range(z as int, t as int, n as int);
    }
    FINE - (z * t / FINE) / n
}

fn octant_sine_of(x: i64) -> (s: i64)
    requires
        0 <= x <= EIGHTH_TURN,
    ensures
        s == octant_sine(x as int),
        0 <= s <= UNIT,
{
    proof {
        reveal(octant_sine);
        lemma_octant_angle(x as int);
        lemma_octant_range(x as int);
    }
    let r: i128 = (x as i128) * RADIAN_STEP;
    let z: i128 = r * r / FINE;
    let t = damp(z, damp(z, damp(z, damp(z, damp(z, FINE, 110), 72), 42), 20), 6);
    proof {
        lemma_damped_range(r as int, t as int, 1);
    }
    ((r * t / FINE + COARSE / 2) / COARSE) as i64
}

fn octant_cosine_of(x: i64) -> (c: i64)
    requires
        0 <= x <= EIGHTH_TURN,
    ensures
        c == octant_cosine(x as int),
        0 <= c <= UNIT,
{
    proof {
        reveal(octant_cosine);
        lemma_octant_angle(x as int);
        lemma_octant_range(x as int);
    }
    let r: i128 = (x as i128) * RADIAN_STEP;
    let z: i128 = r * r / FINE;
    let t = damp(z, damp(z, damp(z, damp(z, damp(z, FINE, 90), 56), 30), 12), 2);
    ((t + COARSE / 2) / COARSE) as i64
}

fn arch_of(x: i64) -> (r: i64)
    requires
        0 <= x <= HALF_TURN,
    ensures
        r == arch(x as int),
        0 <= r <= UNIT,
{
    let y = if x <= QUARTER_TURN {
        x
    } else {
        HALF_TURN - x
    };
    if y <= EIGHTH_TURN {
        octant_sine_of(y)
    } else {
        octant_cosine_of(QUARTER_TURN - y)
    }
}

/// The sine of `a` degrees.
#[verifier::when_used_as_spec(spec_sine)]
pub fn sine(a: i64) -> (r: i64)
    ensures
        r == spec_sine(a),
        -UNIT <= r <= UNIT,
{
    let x = within_turn(a);
    if x <= HALF_TURN {
        arch_of(x)
    } else {
        -arch_of(x - HALF_TURN)
    }
}

/// The cosine of `a` degrees.
#[verifier::when_used_as_spec(spec_cosine)]
pub fn cosine(a: i64) -> (r: i64)
    ensures
        r == spec_cosine(a),
        -UNIT <= r <= UNIT,
{
    sine(within_turn(a) + QUARTER_TURN)
}

/// Sine and cosine never leave the interval from `-1.0` to `1.0`.
pub proof fn lemma_unit_range(a: i64)
    ensures
        -UNIT <= sine(a) <= UNIT,
        -UNIT <= cosine(a) <= UNIT,
{
    let x = within_turn(a);
    if x <= HALF_TURN {
        lemma_arch_range(x as int);
    } else {
        lemma_arch_range(x - HALF_TURN);
    }
    let c = (x + QUARTER_TURN) as i64;
    let y = within_turn(c);
    if y <= HALF_TURN {
        lemma_arch_range(y as int);
    } else {
        lemma_arch_range(y - HALF_TURN);
    }
}

/// Adding or removing a full turn changes neither sine nor cosine.
pub proof fn lemma_full_turn(a: i64, b: i64)
    requires
        b == a + FULL_TURN || b == a - FULL_TURN,
    ensures
        sine(b) == sine(a),
        cosine(b) == cosine(a),
{
    assert(within_turn(b) == within_turn(a)) by {
        lemma_mod_add_multiples_vanish(a as int, FULL_TURN as int);
        lemma_mod_sub_multiples_vanish(a as int, FULL_TURN as int);
    }
}

/// At the ends of the first eighth of a turn: the sine of nothing is
/// nothing, and its cosine is `1.0`.
pub proof fn lemma_octant_start()
    ensures
        octant_sine(0) == 0,
        octant_cosine(0) == UNIT,
        arch(0) == 0,
        arch(QUARTER_TURN as int) == UNIT,
        arch(HALF_TURN as int) == 0,
{
    reveal(octant_sine);
    reveal(octant_cosine);
    let f = FINE as int;
    assert(squared(0) == 0);
    assert(damped(0, f, 110) == f);
    assert(damped(0, f, 72) == f);
    assert(damped(0, f, 42) == f);
    assert(damped(0, f, 20) == f);
    assert(damped(0, f, 6) == f);
    assert(damped(0, f, 90) == f);
    assert(damped(0, f, 56) == f);
    assert(damped(0, f, 30) == f);
    assert(damped(0, f, 12) == f);
    assert(damped(0, f, 2) == f);
    assert(rounded(0) == 0);
    assert(rounded(f) == UNIT);
}

/// Half a turn more or less reverses both sine and cosine.
pub proof fn lemma_half_turn(a: i64, b: i64)
    requires
        b == a + HALF_TURN || b == a - HALF_TURN,
    ensures
        sine(b) == -sine(a),
        cosine(b) == -cosine(a),
{
    let x = within_turn(a);
    let y = within_turn(b);
    assert(y == if x < HALF_TURN {
        x + HALF_TURN
    } else {
        x - HALF_TURN
    }) by {
        lemma_mod_add_multiples_vanish(a - HALF_TURN, FULL_TURN as int);
    }
    lemma_octant_start();
    let u = within_turn((x + QUARTER_TURN) as i64);
    let v = within_turn((y + QUARTER_TURN) as i64);
    assert(v == if u < HALF_TURN {
        u + HALF_TURN
    } else {
        u - HALF_TURN
    });
    if x <= HALF_TURN {
        lemma_arch_range(x as int);
    } else {
        lemma_arch_range(x - HALF_TURN);
    }
    if u <= HALF_TURN {
        lemma_arch_range(u as int);
    } else {
        lemma_arch_range(u - HALF_TURN);
    }
}

/// The values at the four quarter turns are exact.
pub proof fn lemma_quarter_turns()
    ensures
        sine(0) == 0,
        sine(QUARTER_TURN) == UNIT,
        sine(HALF_TURN) == 0,
        sine(270_000_000) == -UNIT,
        cosine(0) == UNIT,
        cosine(QUARTER_TURN) == 0,
        cosine(HALF_TURN) == -UNIT,
        cosine(270_000_000) == 0,
{
    lemma_octant_start();
}

// The polynomials at twenty, thirty and forty-five degrees, step by step.

proof fn lemma_sine_of_twenty()
    ensures
        octant_sine(20_000_000) == 342_020,
{
    reveal(octant_sine);
    let f = FINE as int;
    let r: int = 349_065_850_400_000_000;
    let z: int = 121_846_967_915_475_180;
    assert(20_000_000 * RADIAN_STEP == r);
    assert(squared(r) == z);
    let t0: int = 998_892_300_291_677_499;
    assert(damped(z, f, 110) == t0);
    let t1: int = 998_309_555_582_435_345;
    assert(damped(z, t0, 72) == t1);
    let t2: int = 997_103_785_895_505_589;
    assert(damped(z, t1, 42) == t2);
    let t3: int = 993_925_296_349_579_575;
    assert(damped(z, t2, 20) == t3);
    let t4: int = 979_815_536_050_885_603;
    assert(damped(z, t3, 6) == t4);
    let s: int = 342_020_143_326_734_240;
    assert(r * t4 / f == s);
    assert(rounded(s) == 342_020);
}

proof fn lemma_cosine_of_twenty()
    ensures
        octant_cosine(20_000_000) == 939_693,
{
    reveal(octant_cosine);
    let f = FINE as int;
    let r: int = 349_065_850_400_000_000;
    let z: int = 121_846_967_915_475_180;
    assert(20_000_000 * RADIAN_STEP == r);
    assert(squared(r) == z);
    let t0: int = 998_646_144_800_939_165;
    assert(damped(z, f, 90) == t0);
    let t1: int = 997_827_107_057_777_268;
    assert(damped(z, t0, 56) == t1);
    let t2: int = 995_947_259_750_037_987;
    assert(damped(z, t1, 30) == t2);
    let t3: int = 989_887_237_182_977_642;
    assert(damped(z, t2, 12) == t3);
    let t4: int = 939_692_620_785_513_677;
    assert(damped(z, t3, 2) == t4);
    assert(rounded(t4) == 939_693);
}

proof fn lemma_sine_of_thirty()
    ensures
        octant_sine(30_000_000) == 500_000,
{
    reveal(octant_sine);
    let f = FINE as int;
    let r: int = 523_598_775_600_000_000;
    let z: int = 274_155_677_809_819_155;
    assert(30_000_000 * RADIAN_STEP == r);
    assert(squared(r) == z);
    let t0: int = 997_507_675_656_274_372;
    assert(damped(z, f, 110) == t0);
    let t1: int = 996_201_772_320_277_179;
    assert(damped(z, t0, 72) == t1);
    let t2: int = 993_497_276_854_147_412;
    assert(damped(z, t1, 42) == t2);
    let t3: int = 986_381_354_033_092_084;
    assert(damped(z, t2, 20) == t3);
    let t4: int = 954_929_658_551_015_075;
    assert(damped(z, t3, 6) == t4);
    let s: int = 500_000_000_001_437_563;
    assert(r * t4 / f == s);
    assert(rounded(s) == 500_000);
}

proof fn lemma_cosine_of_thirty()
    ensures
        octant_cosine(30_000_000) == 866_025,
{
    reveal(octant_cosine);
    let f = FINE as int;
    let r: int = 523_598_775_600_000_000;
    let z: int = 274_155_677_809_819_155;
    assert(30_000_000 * RADIAN_STEP == r);
    assert(squared(r) == z);
    let t0: int = 996_953_825_802_113_121;
    assert(damped(z, f, 90) == t0);
    let t1: int = 995_119_275_859_680_881;
    assert(damped(z, t0, 56) == t1);
    let t2: int = 990_906_080_014_169_093;
    assert(damped(z, t1, 30) == t2);
    let t3: int = 977_361_455_998_987_049;
    assert(damped(z, t2, 12) == t3);
    let t4: int = 866_025_403_782_702_983;
    assert(damped(z, t3, 2) == t4);
    assert(rounded(t4) == 866_025);
}

proof fn lemma_sine_of_forty_five()
    ensures
        octant_sine(45_000_000) == 707_107,
{
    reveal(octant_sine);
    let f = FINE as int;
    let r: int = 785_398_163_400_000_000;
    let z: int = 616_850_275_072_093_099;
    assert(45_000_000 * RADIAN_STEP == r);
    assert(squared(r) == z);
    let t0: int = 994_392_270_226_617_336;
    assert(damped(z, f, 110) == t0);
    let t1: int = 991_480_678_535_849_278;
    assert(damped(z, t0, 72) == t1);
    let t2: int = 985_438_211_207_535_616;
    assert(damped(z, t1, 42) == t2);
    let t3: int = 969_606_608_417_504_014;
    assert(damped(z, t2, 20) == t3);
    let t4: int = 900_316_316_147_657_232;
    assert(damped(z, t3, 6) == t4);
    let s: int = 707_106_781_181_423_753;
    assert(r * t4 / f == s);
    assert(rounded(s) == 707_107);
}

/// The sine is odd and the cosine even.
pub proof fn lemma_opposite_angle(a: i64)
    requires
        i64::MIN < a,
    ensures
        sine((-a) as i64) == -sine(a),
        cosine((-a) as i64) == cosine(a),
{
    let x = within_turn(a);
    let y = within_turn((-a) as i64);
    assert(y == if x == 0 {
        0
    } else {
        FULL_TURN - x
    }) by {
        let turns = (a as int) / (FULL_TURN as int);
        lemma_fundamental_div_mod(a as int, FULL_TURN as int);
        lemma_mod_multiples_vanish(-turns, -x, FULL_TURN as int);
        lemma_mod_add_multiples_vanish(-x, FULL_TURN as int);
    }
    lemma_octant_start();
    if x <= HALF_TURN {
        lemma_arch_range(x as int);
    } else {
        lemma_arch_range(x - HALF_TURN);
    }
    let u = within_turn((x + QUARTER_TURN) as i64);
    if u <= HALF_TURN {
        lemma_arch_range(u as int);
    } else {
        lemma_arch_range(u - HALF_TURN);
    }
}

/// The values at the angles that the corners of a body and of its wheels
/// lie at. To seven places the sines of 20, 30 and 45 degrees are
/// 0.3420201, 0.5 and 0.7071068, and the cosines of 20 and 30 degrees
/// 0.9396926 and 0.8660254: each value here is the nearest millionth.
pub proof fn lemma_notable_angles()
    ensures
        sine(20_000_000) == 342_020,
        cosine(20_000_000) == 939_693,
        sine(30_000_000) == 500_000,
        cosine(30_000_000) == 866_025,
        sine(45_000_000) == 707_107,
        cosine(45_000_000) == 707_107,
        sine(60_000_000) == 866_025,
        cosine(60_000_000) == 500_000,
        sine(135_000_000) == 707_107,
        cosine(135_000_000) == -707_107,
        sine(160_000_000) == 342_020,
        cosine(160_000_000) == -939_693,
{
    lemma_sine_of_twenty();
    lemma_cosine_of_twenty();
    lemma_sine_of_thirty();
    lemma_cosine_of_thirty();
    lemma_sine_of_forty_five();
}

} // verus!
