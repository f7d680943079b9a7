//! Draw requests handed to whatever rasterises a frame.

use vstd::prelude::*;
use crate::geometry::Vec2;

verus! {

/// A colour with red, green, blue and alpha channels, each from `0.0` to
/// `1.0` in fixed point.
#[derive(Clone, Copy, PartialEq, Eq, Debug, Structural)]
pub struct Color {
    pub r: i64,
    pub g: i64,
    pub b: i64,
    pub a: i64,
}

impl Color {
    pub open spec fn spec_new(r: i64, g: i64, b: i64, a: i64) -> Color {
        Color { r, g, b, a }
    }

    #[verifier::when_used_as_spec(spec_new)]
    pub fn new(r: i64, g: i64, b: i64, a: i64) -> (c: Color)
        ensures
            c == Color::spec_new(r, g, b, a),
    {
        Color { r, g, b, a }
    }

    pub open spec fn spec_black() -> Color {
        Color { r: 0, g: 0, b: 0, a: 1_000_000 }
    }

    /// Opaque black.
    #[verifier::when_used_as_spec(spec_black)]
    pub fn black() -> (c: Color)
        ensures
            c == Color::spec_black(),
    {
        Color { r: 0, g: 0, b: 0, a: 1_000_000 }
    }

    pub open spec fn spec_gray() -> Color {
        Color { r: 510_000, g: 510_000, b: 510_000, a: 1_000_000 }
    }

    /// Opaque mid grey.
    #[verifier::when_used_as_spec(spec_gray)]
    pub fn gray() -> (c: Color)
        ensures
            c == Color::spec_gray(),
    {
        Color { r: 510_000, g: 510_000, b: 510_000, a: 1_000_000 }
    }

    pub open spec fn spec_red() -> Color {
        Color { r: 1_000_000, g: 0, b: 0, a: 1_000_000 }
    }

    /// Opaque red.
    #[verifier::when_used_as_spec(spec_red)]
    pub fn red() -> (c: Color)
        ensures
            c == Color::spec_red(),
    {
        Color { r: 1_000_000, g: 0, b: 0, a: 1_000_000 }
    }
}

/// One filled primitive to put on the screen.
#[derive(Clone, Copy, PartialEq, Eq, Debug, Structural)]
pub enum DrawCommand {
    /// A disc around `center`.
    Circle { center: Vec2, radius: i64, color: Color },
    /// An axis-aligned rectangle whose top left corner is `corner`.
    Rectangle { corner: Vec2, width: i64, height: i64, color: Color },
    /// A regular hexagon around `center` with circumradius `size`.
    Hexagon { center: Vec2, size: i64, color: Color },
    /// The triangle with the three given corners.
    Triangle { v1: Vec2, v2: Vec2, v3: Vec2, color: Color },
}

} // verus!
