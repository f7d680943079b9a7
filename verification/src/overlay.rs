//! The debug overlay: what a vehicle shows of itself, and where the lines
//! of text go on the screen.

use vstd::prelude::*;
use crate::entities::Car;
use crate::fixed::{minus, plus, sat};
use crate::geometry::Vec2;

verus! {

/// The distance between the baselines of two lines.
pub const LINE_STEP: i64 = 12_000_000;

/// The distance from the top of the screen to the line above the first.
pub const TOP_MARGIN: i64 = 2_000_000;

/// The distance from the left edge of the screen to the first column.
pub const LEFT_MARGIN: i64 = 5_000_000;

/// The height at the bottom of the screen that stays free of text.
pub const BOTTOM_MARGIN: i64 = 24_000_000;

/// The width that a column of text is given by the right edge of the
/// screen.
pub const COLUMN_WIDTH: i64 = 200_000_000;

/// The scalars of a vehicle that the overlay shows.
#[derive(Clone, Copy, PartialEq, Eq, Debug, Structural)]
pub struct Telemetry {
    pub angle: i64,
    pub direction: i64,
    pub vel: i64,
    /// How many particles are alive.
    pub particles: usize,
}

/// What the overlay shows of `car`.
pub fn telemetry(car: &Car) -> (shown: Telemetry)
    ensures
        shown == (Telemetry {
            angle: car.angle,
            direction: car.direction,
            vel: car.vel,
            particles: car.particles.objects@.len() as usize,
        }),
{
    Telemetry {
        angle: car.angle,
        direction: car.direction,
        vel: car.vel,
        particles: car.particles.objects.len(),
    }
}

/// The baseline of the line after `above` others.
pub open spec fn baseline(above: nat) -> i64 {
    sat((above + 1) * LINE_STEP + TOP_MARGIN)
}

/// The left edge of the line after `above` others on a screen of the given
/// size. The first line starts at the left margin; every line whose
/// baseline lies in the bottom margin moves the column, for itself and all
/// that follow, to one column width before the right edge.
pub open spec fn column(above: nat, screen_width: i64, screen_height: i64) -> i64
    decreases above,
{
    let before = if above == 0 {
        LEFT_MARGIN
    } else {
        column((above - 1) as nat, screen_width, screen_height)
    };
    if baseline(above) > minus(screen_height, BOTTOM_MARGIN) {
        plus(before, minus(screen_width, COLUMN_WIDTH))
    } else {
        before
    }
}

/// Where the given number of lines start on a screen of the given size,
/// from the first line to the last.
pub fn layout(lines: usize, screen_width: i64, screen_height: i64) -> (origins: Vec<Vec2>)
    ensures
        origins@.len() == lines,
        forall|i: int|
            0 <= i < lines ==> #[trigger] origins@[i] == (Vec2 {
                x: column(i as nat, screen_width, screen_height),
                y: baseline(i as nat),
            }),
{
    let floor = minus(screen_height, BOTTOM_MARGIN);
    let shift = minus(screen_width, COLUMN_WIDTH);
    let mut origins: Vec<Vec2> = Vec::new();
    let mut x = LEFT_MARGIN;
    let mut y = TOP_MARGIN;
    let mut i: usize = 0;
    while i < lines
        invariant
            i <= lines,
            floor == minus(screen_height, BOTTOM_MARGIN),
            shift == minus(screen_width, COLUMN_WIDTH),
            origins@.len() == i,
            y == sat(i * LINE_STEP + TOP_MARGIN),
            x == if i == 0 {
                LEFT_MARGIN
            } else {
                column((i - 1) as nat, screen_width, screen_height)
            },
            forall|k: int|
                0 <= k < i ==> #[trigger] origins@[k] == (Vec2 {
                    x: column(k as nat, screen_width, screen_height),
                    y: baseline(k as nat),
                }),
        decreases lines - i,
    {
        y = plus(y, LINE_STEP);
        if y > floor {
            x = plus(x, shift);
        }
        origins.push(Vec2 { x, y });
        i += 1;
    }
    origins
}

} // verus!
