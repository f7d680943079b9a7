//! Points and displacements of the plane in fixed-point coordinates.

use vstd::prelude::*;
use crate::fixed::{lemma_scaled_by_unit, lemma_scaled_shrinks, plus, scaled};
use crate::trig::{
    cosine, lemma_half_turn, lemma_quarter_turns, lemma_unit_range, sine, HALF_TURN,
    QUARTER_TURN,
};

verus! {

/// A point of the plane, or the displacement from the origin to it.
#[derive(Clone, Copy, PartialEq, Eq, Debug, Structural)]
pub struct Vec2 {
    pub x: i64,
    pub y: i64,
}

impl Vec2 {
    pub open spec fn spec_new(x: i64, y: i64) -> Vec2 {
        Vec2 { x, y }
    }

    #[verifier::when_used_as_spec(spec_new)]
    pub fn new(x: i64, y: i64) -> (v: Vec2)
        ensures
            v == Vec2::spec_new(x, y),
    {
        Vec2 { x, y }
    }

    pub open spec fn spec_polar(angle: i64, length: i64) -> Vec2 {
        Vec2 { x: scaled(cosine(angle), length), y: scaled(sine(angle), length) }
    }

    /// The displacement of the given length in the direction `angle`,
    /// measured in degrees from the positive x axis.
    #[verifier::when_used_as_spec(spec_polar)]
    pub fn polar(angle: i64, length: i64) -> (v: Vec2)
        ensures
            v == Vec2::spec_polar(angle, length),
    {
        Vec2 { x: scaled(cosine(angle), length), y: scaled(sine(angle), length) }
    }

    pub open spec fn spec_translated(self, by: Vec2) -> Vec2 {
        Vec2 { x: plus(self.x, by.x), y: plus(self.y, by.y) }
    }

    /// This point moved by the displacement `by`.
    #[verifier::when_used_as_spec(spec_translated)]
    pub fn translated(self, by: Vec2) -> (v: Vec2)
        ensures
            v == self.spec_translated(by),
    {
        Vec2 { x: plus(self.x, by.x), y: plus(self.y, by.y) }
    }

    pub open spec fn spec_scaled_by(self, factor: i64) -> Vec2 {
        Vec2 { x: scaled(self.x, factor), y: scaled(self.y, factor) }
    }

    /// This displacement with both components multiplied by `factor`.
    #[verifier::when_used_as_spec(spec_scaled_by)]
    pub fn scaled_by(self, factor: i64) -> (v: Vec2)
        ensures
            v == self.spec_scaled_by(factor),
    {
        Vec2 { x: scaled(self.x, factor), y: scaled(self.y, factor) }
    }

    pub open spec fn spec_offset(self, by: i64) -> Vec2 {
        Vec2 { x: plus(self.x, by), y: plus(self.y, by) }
    }

    /// This point with `by` added to both coordinates.
    #[verifier::when_used_as_spec(spec_offset)]
    pub fn offset(self, by: i64) -> (v: Vec2)
        ensures
            v == self.spec_offset(by),
    {
        Vec2 { x: plus(self.x, by), y: plus(self.y, by) }
    }
}

/// Neither coordinate of a polar displacement is longer than the
/// displacement itself.
pub proof fn lemma_polar_bounded(angle: i64, length: i64)
    ensures
        length >= 0 ==> -length <= Vec2::polar(angle, length).x <= length,
        length >= 0 ==> -length <= Vec2::polar(angle, length).y <= length,
        length <= 0 ==> length <= Vec2::polar(angle, length).x <= -length,
        length <= 0 ==> length <= Vec2::polar(angle, length).y <= -length,
{
    lemma_unit_range(angle);
    let c = cosine(angle);
    let s = sine(angle);
    lemma_scaled_shrinks(length, c);
    lemma_scaled_shrinks(length, s);
    assert(c * length == length * c) by (nonlinear_arith);
    assert(s * length == length * s) by (nonlinear_arith);
}

/// Going backward by a length is going forward by it in the opposite
/// direction.
pub proof fn lemma_polar_reciprocal(angle: i64, length: i64)
    requires
        i64::MIN <= angle - HALF_TURN,
        i64::MIN < length,
    ensures
        Vec2::polar((angle - HALF_TURN) as i64, (-length) as i64) == Vec2::polar(angle, length),
{
    let back = (angle - HALF_TURN) as i64;
    lemma_half_turn(angle, back);
    let c = cosine(angle);
    let s = sine(angle);
    assert((-c) * (-length) == c * length) by (nonlinear_arith);
    assert((-s) * (-length) == s * length) by (nonlinear_arith);
}

/// Along the axes a polar displacement is exact: the angle `0` points
/// along the positive x axis, a quarter turn along the positive y axis.
pub proof fn lemma_polar_axes(length: i64)
    ensures
        Vec2::polar(0, length) == Vec2::new(length, 0),
        Vec2::polar(QUARTER_TURN, length) == Vec2::new(0, length),
        length > i64::MIN ==> Vec2::polar(HALF_TURN, length) == Vec2::new((-length) as i64, 0),
{
    lemma_quarter_turns();
    lemma_scaled_by_unit(length);
    assert(0 * length == 0);
    assert(-1_000_000 * length == -(1_000_000 * length)) by (nonlinear_arith);
}

} // verus!
