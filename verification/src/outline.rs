//! The look of the vehicle: a body with four wheels and their shadows, as
//! triangles around the position of the vehicle.

use vstd::prelude::*;
use crate::fixed::{minus, plus};
use crate::geometry::Vec2;
use crate::render::{Color, DrawCommand};
use crate::trig::{cosine, lemma_notable_angles, lemma_opposite_angle, sine};

verus! {

/// The distance from the middle of the body to each of its corners.
pub const BODY_RADIUS: i64 = 30_000_000;

/// How far the front corners of the body lie off the heading, in degrees.
pub const BODY_FRONT: i64 = 30_000_000;

/// How far the rear corners of the body lie off the heading, in degrees.
pub const BODY_BACK: i64 = 135_000_000;

/// How far the front corners of a wheel lie off its direction, in degrees.
pub const WHEEL_FRONT: i64 = 30_000_000;

/// How far the rear corners of a wheel lie off its direction, in degrees.
pub const WHEEL_BACK: i64 = 160_000_000;

/// The distance from the hub of a wheel to each of its corners.
pub const WHEEL_RADIUS: i64 = 8_000_000;

/// How far a shadow lies to the right of and below what casts it.
pub const SHADOW_SHIFT: i64 = 3_000_000;

/// How far the wheels lie to the right of and below their hubs.
pub const WHEEL_SHIFT: i64 = 2_000_000;

/// The point at the given distance from `center` in the direction `angle`.
pub open spec fn spec_spoke(center: Vec2, angle: i64, radius: i64) -> Vec2 {
    center.translated(Vec2::polar(angle, radius))
}

/// The quadrilateral with the corners `a`, `b`, `d` and `c` in turn, as the
/// two triangles on either side of the diagonal from `b` to `c`.
pub open spec fn quad(a: Vec2, b: Vec2, c: Vec2, d: Vec2, color: Color) -> Seq<DrawCommand> {
    seq![
        DrawCommand::Triangle { v1: a, v2: b, v3: c, color },
        DrawCommand::Triangle { v1: d, v2: b, v3: c, color },
    ]
}

/// The wheel around `hub` that points in the direction `facing`: its
/// shadow in black, and on top of it the wheel in grey.
pub open spec fn wheel(hub: Vec2, facing: i64) -> Seq<DrawCommand> {
    let a = spec_spoke(hub, plus(facing, WHEEL_FRONT), WHEEL_RADIUS).offset(WHEEL_SHIFT);
    let b = spec_spoke(hub, minus(facing, WHEEL_FRONT), WHEEL_RADIUS).offset(WHEEL_SHIFT);
    let c = spec_spoke(hub, plus(facing, WHEEL_BACK), WHEEL_RADIUS).offset(WHEEL_SHIFT);
    let d = spec_spoke(hub, minus(facing, WHEEL_BACK), WHEEL_RADIUS).offset(WHEEL_SHIFT);
    quad(
        a.offset(SHADOW_SHIFT),
        b.offset(SHADOW_SHIFT),
        c.offset(SHADOW_SHIFT),
        d.offset(SHADOW_SHIFT),
        Color::black(),
    ) + quad(a, b, c, d, Color::gray())
}

/// The draw requests for a vehicle at `pos` with the heading `angle` and
/// the steering `direction`, from the bottom up: the shadow of the body,
/// the two front wheels along the steering, the two rear wheels along the
/// heading, and the body in red. The corners of the body lie around its
/// position, those of each wheel around one corner of the body.
/// `lemma_outline_layers` tells the layers apart, and
/// `lemma_corners_heading_east` gives the corners of a body that heads
/// along the positive x axis.
pub open spec fn outline(pos: Vec2, angle: i64, direction: i64) -> Seq<DrawCommand> {
    let a = spec_spoke(pos, plus(angle, BODY_FRONT), BODY_RADIUS);
    let b = spec_spoke(pos, minus(angle, BODY_FRONT), BODY_RADIUS);
    let c = spec_spoke(pos, plus(angle, BODY_BACK), BODY_RADIUS);
    let d = spec_spoke(pos, minus(angle, BODY_BACK), BODY_RADIUS);
    quad(
        a.offset(SHADOW_SHIFT),
        b.offset(SHADOW_SHIFT),
        c.offset(SHADOW_SHIFT),
        d.offset(SHADOW_SHIFT),
        Color::black(),
    ) + wheel(a, direction) + wheel(b, direction) + wheel(c, angle) + wheel(d, angle) + quad(
        a,
        b,
        c,
        d,
        Color::red(),
    )
}

/// A wheel is four triangles, a quadrilateral two.
proof fn lemma_pieces(hub: Vec2, facing: i64, a: Vec2, b: Vec2, c: Vec2, d: Vec2, color: Color)
    ensures
        wheel(hub, facing).len() == 4,
        quad(a, b, c, d, color).len() == 2,
{
}

/// The ends of a sequence that is put together from six.
proof fn lemma_ends(
    first: Seq<DrawCommand>,
    one: Seq<DrawCommand>,
    two: Seq<DrawCommand>,
    three: Seq<DrawCommand>,
    four: Seq<DrawCommand>,
    last: Seq<DrawCommand>,
)
    requires
        first.len() == 2,
        one.len() == 4,
        two.len() == 4,
        three.len() == 4,
        four.len() == 4,
        last.len() == 2,
    ensures
        (first + one + two + three + four + last).len() == 20,
        (first + one + two + three + four + last).subrange(0, 2) == first,
        (first + one + two + three + four + last).subrange(18, 20) == last,
{
    let all = first + one + two + three + four + last;
    assert(all.subrange(0, 2) =~= first);
    assert(all.subrange(18, 20) =~= last);
}

/// The layers of an outline: twenty triangles, the two of the shadow
/// undermost and the two of the body on top, each pair over the four
/// corners of the body.
pub proof fn lemma_outline_layers(pos: Vec2, angle: i64, direction: i64)
    ensures
        outline(pos, angle, direction).len() == 20,
        ({
            let a = spec_spoke(pos, plus(angle, BODY_FRONT), BODY_RADIUS);
            let b = spec_spoke(pos, minus(angle, BODY_FRONT), BODY_RADIUS);
            let c = spec_spoke(pos, plus(angle, BODY_BACK), BODY_RADIUS);
            let d = spec_spoke(pos, minus(angle, BODY_BACK), BODY_RADIUS);
            let drawn = outline(pos, angle, direction);
            &&& drawn.subrange(0, 2) == quad(
                a.offset(SHADOW_SHIFT),
                b.offset(SHADOW_SHIFT),
                c.offset(SHADOW_SHIFT),
                d.offset(SHADOW_SHIFT),
                Color::black(),
            )
            &&& drawn.subrange(18, 20) == quad(a, b, c, d, Color::red())
        }),
{
    let a = spec_spoke(pos, plus(angle, BODY_FRONT), BODY_RADIUS);
    let b = spec_spoke(pos, minus(angle, BODY_FRONT), BODY_RADIUS);
    let c = spec_spoke(pos, plus(angle, BODY_BACK), BODY_RADIUS);
    let d = spec_spoke(pos, minus(angle, BODY_BACK), BODY_RADIUS);
    let shadow = quad(
        a.offset(SHADOW_SHIFT),
        b.offset(SHADOW_SHIFT),
        c.offset(SHADOW_SHIFT),
        d.offset(SHADOW_SHIFT),
        Color::black(),
    );
    let body = quad(a, b, c, d, Color::red());
    lemma_pieces(
        a,
        direction,
        a.offset(SHADOW_SHIFT),
        b.offset(SHADOW_SHIFT),
        c.offset(SHADOW_SHIFT),
        d.offset(SHADOW_SHIFT),
        Color::black(),
    );
    lemma_pieces(b, direction, a, b, c, d, Color::red());
    lemma_pieces(c, angle, a, b, c, d, Color::red());
    lemma_pieces(d, angle, a, b, c, d, Color::red());
    lemma_ends(
        shadow,
        wheel(a, direction),
        wheel(b, direction),
        wheel(c, angle),
        wheel(d, angle),
        body,
    );
}

/// The corners of a body that heads along the positive x axis, with room
/// around it: the front corners lie `25.98` ahead and `15` to either
/// side, the rear corners `21.21` behind and as far to either side.
pub proof fn lemma_corners_heading_east(pos: Vec2)
    requires
        i64::MIN + BODY_RADIUS <= pos.x <= i64::MAX - BODY_RADIUS,
        i64::MIN + BODY_RADIUS <= pos.y <= i64::MAX - BODY_RADIUS,
    ensures
        spec_spoke(pos, plus(0, BODY_FRONT), BODY_RADIUS) == (Vec2 {
            x: (pos.x + 25_980_750) as i64,
            y: (pos.y + 15_000_000) as i64,
        }),
        spec_spoke(pos, minus(0, BODY_FRONT), BODY_RADIUS) == (Vec2 {
            x: (pos.x + 25_980_750) as i64,
            y: (pos.y - 15_000_000) as i64,
        }),
        spec_spoke(pos, plus(0, BODY_BACK), BODY_RADIUS) == (Vec2 {
            x: (pos.x - 21_213_210) as i64,
            y: (pos.y + 21_213_210) as i64,
        }),
        spec_spoke(pos, minus(0, BODY_BACK), BODY_RADIUS) == (Vec2 {
            x: (pos.x - 21_213_210) as i64,
            y: (pos.y - 21_213_210) as i64,
        }),
{
    lemma_notable_angles();
    lemma_opposite_angle(BODY_FRONT);
    lemma_opposite_angle(BODY_BACK);
    assert(cosine(BODY_FRONT) == 866_025 && sine(BODY_FRONT) == 500_000);
    assert(cosine(BODY_BACK) == -707_107 && sine(BODY_BACK) == 707_107);
    assert(866_025 * BODY_RADIUS == 25_980_750_000_000);
    assert(500_000 * BODY_RADIUS == 15_000_000_000_000);
    assert(707_107 * BODY_RADIUS == 21_213_210_000_000);
    assert(-500_000 * BODY_RADIUS == -15_000_000_000_000);
    assert(-707_107 * BODY_RADIUS == -21_213_210_000_000);
}

#[verifier::when_used_as_spec(spec_spoke)]
fn spoke(center: Vec2, angle: i64, radius: i64) -> (p: Vec2)
    ensures
        p == spec_spoke(center, angle, radius),
{
    center.translated(Vec2::polar(angle, radius))
}

fn push_quad(frame: &mut Vec<DrawCommand>, a: Vec2, b: Vec2, c: Vec2, d: Vec2, color: Color)
    ensures
        final(frame)@ == old(frame)@ + quad(a, b, c, d, color),
{
    frame.push(DrawCommand::Triangle { v1: a, v2: b, v3: c, color });
    frame.push(DrawCommand::Triangle { v1: d, v2: b, v3: c, color });
    assert(frame@ =~= old(frame)@ + quad(a, b, c, d, color));
}

fn push_wheel(frame: &mut Vec<DrawCommand>, hub: Vec2, facing: i64)
    ensures
        final(frame)@ == old(frame)@ + wheel(hub, facing),
{
    let a = spoke(hub, plus(facing, WHEEL_FRONT), WHEEL_RADIUS).offset(WHEEL_SHIFT);
    let b = spoke(hub, minus(facing, WHEEL_FRONT), WHEEL_RADIUS).offset(WHEEL_SHIFT);
    let c = spoke(hub, plus(facing, WHEEL_BACK), WHEEL_RADIUS).offset(WHEEL_SHIFT);
    let d = spoke(hub, minus(facing, WHEEL_BACK), WHEEL_RADIUS).offset(WHEEL_SHIFT);
    push_quad(
        frame,
        a.offset(SHADOW_SHIFT),
        b.offset(SHADOW_SHIFT),
        c.offset(SHADOW_SHIFT),
        d.offset(SHADOW_SHIFT),
        Color::black(),
    );
    push_quad(frame, a, b, c, d, Color::gray());
    assert(frame@ =~= old(frame)@ + wheel(hub, facing));
}

/// Appending two sequences one after the other appends their
/// concatenation.
proof fn lemma_append_twice(s: Seq<DrawCommand>, a: Seq<DrawCommand>, b: Seq<DrawCommand>)
    ensures
        (s + a) + b == s + (a + b),
{
    assert((s + a) + b =~= s + (a + b));
}

pub(crate) fn push_outline(frame: &mut Vec<DrawCommand>, pos: Vec2, angle: i64, direction: i64)
    ensures
        final(frame)@ == old(frame)@ + outline(pos, angle, direction),
{
    let a = spoke(pos, plus(angle, BODY_FRONT), BODY_RADIUS);
    let b = spoke(pos, minus(angle, BODY_FRONT), BODY_RADIUS);
    let c = spoke(pos, plus(angle, BODY_BACK), BODY_RADIUS);
    let d = spoke(pos, minus(angle, BODY_BACK), BODY_RADIUS);
    let ghost shadow = quad(
        a.offset(SHADOW_SHIFT),
        b.offset(SHADOW_SHIFT),
        c.offset(SHADOW_SHIFT),
        d.offset(SHADOW_SHIFT),
        Color::black(),
    );
    let ghost body = quad(a, b, c, d, Color::red());
    push_quad(
        frame,
        a.offset(SHADOW_SHIFT),
        b.offset(SHADOW_SHIFT),
        c.offset(SHADOW_SHIFT),
        d.offset(SHADOW_SHIFT),
        Color::black(),
    );
    push_wheel(frame, a, direction);
    push_wheel(frame, b, direction);
    push_wheel(frame, c, angle);
    push_wheel(frame, d, angle);
    push_quad(frame, a, b, c, d, Color::red());
    proof {
        let s = old(frame)@;
        let one = shadow + wheel(a, direction);
        let two = one + wheel(b, direction);
        let three = two + wheel(c, angle);
        let four = three + wheel(d, angle);
        lemma_append_twice(s, shadow, wheel(a, direction));
        lemma_append_twice(s, one, wheel(b, direction));
        lemma_append_twice(s, two, wheel(c, angle));
        lemma_append_twice(s, three, wheel(d, angle));
        lemma_append_twice(s, four, body);
    }
}

} // verus!
