//! What a vehicle throws up behind it, and the random scatter of it.

use vstd::prelude::*;
use crate::render::Color;

verus! {

/// The kinds of particle that a moving vehicle emits.
#[derive(Clone, Copy, PartialEq, Eq, Debug, Structural)]
pub enum Emission {
    /// The thin dust trail of a rolling vehicle: one particle a tick.
    Trail,
    /// The dark smoke of a skid: five particles a tick.
    Burst,
}

/// The random part of one emitted particle.
#[derive(Clone, Copy, PartialEq, Eq, Debug, Structural)]
pub struct Sample {
    /// The deviation from the rearward direction, in degrees.
    pub angle: i64,
    pub speed: i64,
    pub size: i64,
}

/// The least speed of an emitted particle.
pub const SLOWEST: i32 = 1_000_000;

/// The greatest speed of an emitted particle.
pub const FASTEST: i32 = 3_000_000;

impl Emission {
    pub open spec fn spec_count(self) -> usize {
        match self {
            Emission::Trail => 1,
            Emission::Burst => 5,
        }
    }

    /// How many particles one tick emits.
    #[verifier::when_used_as_spec(spec_count)]
    pub fn count(self) -> (n: usize)
        ensures
            n == self.spec_count(),
    {
        match self {
            Emission::Trail => 1,
            Emission::Burst => 5,
        }
    }

    pub open spec fn spec_spread(self) -> i32 {
        match self {
            Emission::Trail => 15_000_000,
            Emission::Burst => 50_000_000,
        }
    }

    /// The widest deviation from the rearward direction, in degrees.
    #[verifier::when_used_as_spec(spec_spread)]
    pub fn spread(self) -> (s: i32)
        ensures
            s == self.spec_spread(),
    {
        match self {
            Emission::Trail => 15_000_000,
            Emission::Burst => 50_000_000,
        }
    }

    pub open spec fn spec_smallest(self) -> i32 {
        match self {
            Emission::Trail => 8_000_000,
            Emission::Burst => 9_000_000,
        }
    }

    /// The least initial size of a particle.
    #[verifier::when_used_as_spec(spec_smallest)]
    pub fn smallest(self) -> (s: i32)
        ensures
            s == self.spec_smallest(),
    {
        match self {
            Emission::Trail => 8_000_000,
            Emission::Burst => 9_000_000,
        }
    }

    pub open spec fn spec_largest(self) -> i32 {
        match self {
            Emission::Trail => 9_000_000,
            Emission::Burst => 10_000_000,
        }
    }

    /// The greatest initial size of a particle.
    #[verifier::when_used_as_spec(spec_largest)]
    pub fn largest(self) -> (s: i32)
        ensures
            s == self.spec_largest(),
    {
        match self {
            Emission::Trail => 9_000_000,
            Emission::Burst => 10_000_000,
        }
    }

    pub open spec fn spec_decay(self) -> i64 {
        match self {
            Emission::Trail => 500_000,
            Emission::Burst => 200_000,
        }
    }

    /// The rate at which a particle shrinks.
    #[verifier::when_used_as_spec(spec_decay)]
    pub fn decay(self) -> (d: i64)
        ensures
            d == self.spec_decay(),
    {
        match self {
            Emission::Trail => 500_000,
            Emission::Burst => 200_000,
        }
    }

    pub open spec fn spec_color(self) -> Color {
        match self {
            Emission::Trail => Color { r: 700_000, g: 700_000, b: 700_000, a: 300_000 },
            Emission::Burst => Color { r: 200_000, g: 200_000, b: 200_000, a: 600_000 },
        }
    }

    /// The colour of a particle: a light translucent grey for the trail, a
    /// darker and denser one for the smoke.
    #[verifier::when_used_as_spec(spec_color)]
    pub fn color(self) -> (c: Color)
        ensures
            c == self.spec_color(),
    {
        match self {
            Emission::Trail => Color { r: 700_000, g: 700_000, b: 700_000, a: 300_000 },
            Emission::Burst => Color { r: 200_000, g: 200_000, b: 200_000, a: 600_000 },
        }
    }

    /// Whether `sample` lies within the scatter of this kind of emission.
    pub open spec fn admits(self, sample: Sample) -> bool {
        &&& -self.spread() <= sample.angle <= self.spread()
        &&& SLOWEST <= sample.speed <= FASTEST
        &&& self.smallest() <= sample.size <= self.largest()
    }

    /// Draws the random part of one particle of this kind.
    pub fn sample(self) -> (sample: Sample)
        ensures
            self.admits(sample),
    {
        let spread = self.spread();
        let angle = random_between(-spread, spread);
        let speed = random_between(SLOWEST, FASTEST);
        let size = random_between(self.smallest(), self.largest());
        Sample { angle: angle as i64, speed: speed as i64, size: size as i64 }
    }
}

/// Draws one pseudo-random integer with `macroquad::rand::gen_range`.
///
/// The generator scales a 32-bit draw into the interval in double
/// precision, where every `i32` is exact, and rounds toward zero, so the
/// result never leaves the closed interval spanned by the two bounds.
#[verifier::external_body]
fn random_between(low: i32, high: i32) -> (r: i32)
    ensures
        low <= high ==> low <= r <= high,
        high <= low ==> high <= r <= low,
{
    macroquad::rand::gen_range(low, high)
}

} // verus!
