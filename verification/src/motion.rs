//! The motion of the vehicle: what one tick does to it, stage by stage.

use vstd::prelude::*;
use crate::effects::{Particle, PoolView, Shapes};
use crate::entities::{CarState, Controls};
use crate::fixed::{clamped, lowered, minus, plus, raised, scaled, tenth, toward_zero};
use crate::geometry::Vec2;
use crate::noise::{Emission, Sample};
use crate::outline::outline;
use crate::render::DrawCommand;
use crate::trig::{FULL_TURN, HALF_TURN};

verus! {

/// How far the steering may deflect from the heading, in degrees.
pub const STEER_LIMIT: i64 = 30_000_000;

/// How far the steering turns in one unit of time, in degrees.
pub const STEER_RATE: i64 = 5_000_000;

/// How much speed the brake takes away in one unit of time.
pub const BRAKE_RATE: i64 = 100_000;

/// The speed below which a vehicle counts as standing.
pub const CREEP: i64 = 100_000;

/// The speed from which a braking vehicle smokes.
pub const SKID_SPEED: i64 = 4_000_000;

/// What a vehicle holds.
pub struct CarView {
    pub vel: i64,
    pub max_vel: i64,
    pub acceleration: i64,
    pub angle: i64,
    pub direction: i64,
    pub back_direction: i64,
    pub max_direction: i64,
    pub particles: PoolView,
    pub pos: Vec2,
    pub angle_step: i64,
    pub car_state: CarState,
    pub brake_rate: i64,
    pub locked_heading: i64,
}

impl CarView {
    /// A vehicle at rest at `pos`, facing `angle`.
    pub open spec fn initial(max_vel: i64, acceleration: i64, angle: i64, pos: Vec2) -> CarView {
        CarView {
            vel: 0,
            max_vel,
            acceleration,
            angle,
            direction: angle,
            back_direction: minus(angle, HALF_TURN),
            max_direction: STEER_LIMIT,
            particles: PoolView { gravity: 0, shape_type: Shapes::Hexagon, objects: Seq::empty() },
            pos,
            angle_step: STEER_RATE,
            car_state: CarState::Coasting,
            brake_rate: BRAKE_RATE,
            locked_heading: angle,
        }
    }

    /// The direction opposite to the heading.
    pub open spec fn rear(self) -> i64 {
        minus(self.angle, HALF_TURN)
    }

    /// The invariant of a vehicle: the tuning constants are not negative,
    /// the speed is within the top speed either way, and the steering is
    /// within its deflection of the heading.
    pub open spec fn wf(self) -> bool {
        &&& 0 <= self.max_vel
        &&& 0 <= self.acceleration
        &&& 0 <= self.max_direction
        &&& 0 <= self.angle_step
        &&& 0 <= self.brake_rate
        &&& -self.max_vel <= self.vel <= self.max_vel
        &&& self.angle - self.max_direction <= self.direction <= self.angle + self.max_direction
    }

    /// The effect of the throttle and reverse inputs on a coasting vehicle.
    /// A held input moves the speed toward the top speed of its side; with
    /// the input released the speed decays toward zero, and the steering
    /// of the other side returns to neutral.
    pub open spec fn accelerated(self, keys: Controls, dt: i64) -> CarView {
        if self.car_state != CarState::Coasting {
            self
        } else {
            let gain = scaled(self.acceleration, dt);
            let first = if keys.forward {
                CarView { vel: raised(self.vel, gain, self.max_vel), ..self }
            } else if self.vel > 0 {
                CarView { vel: lowered(self.vel, gain, 0), back_direction: self.rear(), ..self }
            } else {
                self
            };
            if keys.backward {
                CarView { vel: lowered(first.vel, gain, minus(0, first.max_vel)), ..first }
            } else if first.vel < 0 {
                CarView { vel: raised(first.vel, gain, 0), direction: first.angle, ..first }
            } else {
                first
            }
        }
    }

    /// The effect of the steering inputs on a coasting vehicle: the
    /// steering turns at its rate, forward and mirrored in reverse, and
    /// stops at the deflection limit.
    pub open spec fn steered(self, keys: Controls, dt: i64) -> CarView {
        if self.car_state != CarState::Coasting {
            self
        } else {
            let turn = scaled(self.angle_step, dt);
            let left = if keys.left {
                CarView {
                    direction: lowered(
                        self.direction,
                        turn,
                        minus(self.angle, self.max_direction),
                    ),
                    back_direction: raised(
                        self.back_direction,
                        turn,
                        plus(self.rear(), self.max_direction),
                    ),
                    ..self
                }
            } else {
                self
            };
            let right = if keys.right {
                CarView {
                    direction: raised(left.direction, turn, plus(left.angle, left.max_direction)),
                    back_direction: lowered(
                        left.back_direction,
                        turn,
                        minus(left.rear(), left.max_direction),
                    ),
                    ..left
                }
            } else {
                left
            };
            right
        }
    }

    /// The heading after it has relaxed toward the steering for the time
    /// `dt`: a tenth of the gap per unit of time, and only while moving.
    pub open spec fn relaxed_angle(self, dt: i64) -> i64 {
        if self.vel > 0 {
            plus(self.angle, tenth(scaled(minus(self.direction, self.angle), dt)))
        } else if self.vel < 0 {
            plus(
                self.angle,
                tenth(scaled(minus(plus(self.back_direction, HALF_TURN), self.angle), dt)),
            )
        } else {
            self.angle
        }
    }

    /// The vehicle with its heading relaxed toward the steering, and the
    /// steering kept within its deflection of the new heading.
    pub open spec fn turned(self, dt: i64) -> CarView {
        let angle = self.relaxed_angle(dt);
        let rear = minus(angle, HALF_TURN);
        CarView {
            angle,
            direction: clamped(
                self.direction,
                minus(angle, self.max_direction),
                plus(angle, self.max_direction),
            ),
            back_direction: clamped(
                self.back_direction,
                minus(rear, self.max_direction),
                plus(rear, self.max_direction),
            ),
            ..self
        }
    }

    /// The vehicle with a creeping speed set to zero.
    pub open spec fn settled(self) -> CarView {
        if -CREEP < self.vel < CREEP {
            CarView { vel: 0, ..self }
        } else {
            self
        }
    }

    /// The effect of the brake input. A held brake takes speed away and,
    /// while speed is left, moves the state machine one stage on; the
    /// heading is locked on arrival at `Braking`. A released brake, or a
    /// speed of zero, returns the state machine to `Coasting`.
    pub open spec fn braked(self, keys: Controls, dt: i64) -> CarView {
        if !keys.brake {
            CarView { car_state: CarState::Coasting, ..self }
        } else {
            let vel = toward_zero(self.vel, scaled(self.brake_rate, dt));
            if vel == 0 {
                CarView { vel, car_state: CarState::Coasting, ..self }
            } else {
                match self.car_state {
                    CarState::Coasting => CarView {
                        vel,
                        car_state: CarState::EnteringBrake,
                        ..self
                    },
                    CarState::EnteringBrake => CarView {
                        vel,
                        car_state: CarState::Braking,
                        locked_heading: self.angle,
                        ..self
                    },
                    CarState::Braking => CarView { vel, ..self },
                }
            }
        }
    }

    /// The direction of travel, in degrees: the locked heading while
    /// braking, else the steering of the side the vehicle moves to.
    pub open spec fn travel_direction(self) -> i64 {
        if self.car_state == CarState::Braking {
            self.locked_heading
        } else if self.vel >= 0 {
            self.direction
        } else {
            self.back_direction
        }
    }

    /// The speed along the direction of travel: the signed speed while
    /// braking, else its magnitude.
    pub open spec fn travel_speed(self) -> i64 {
        if self.car_state == CarState::Braking || self.vel >= 0 {
            self.vel
        } else {
            minus(0, self.vel)
        }
    }

    /// The vehicle after it has travelled for the time `dt`. Outside
    /// `Braking` the locked heading follows the heading.
    pub open spec fn moved(self, dt: i64) -> CarView {
        let pos = self.pos.translated(
            Vec2::polar(self.travel_direction(), self.travel_speed()).scaled_by(dt),
        );
        if self.car_state == CarState::Braking {
            CarView { pos, ..self }
        } else {
            CarView { pos, locked_heading: self.angle, ..self }
        }
    }

    /// The vehicle with a heading beyond a full turn brought back by one
    /// turn, together with both steering directions; likewise the locked
    /// heading.
    pub open spec fn wrapped(self) -> CarView {
        let locked_heading = if self.locked_heading > FULL_TURN {
            minus(self.locked_heading, FULL_TURN)
        } else if self.locked_heading < -FULL_TURN {
            plus(self.locked_heading, FULL_TURN)
        } else {
            self.locked_heading
        };
        if self.angle > FULL_TURN {
            CarView {
                angle: minus(self.angle, FULL_TURN),
                direction: minus(self.direction, FULL_TURN),
                back_direction: minus(self.back_direction, FULL_TURN),
                locked_heading,
                ..self
            }
        } else if self.angle < -FULL_TURN {
            CarView {
                angle: plus(self.angle, FULL_TURN),
                direction: plus(self.direction, FULL_TURN),
                back_direction: plus(self.back_direction, FULL_TURN),
                locked_heading,
                ..self
            }
        } else {
            CarView { locked_heading, ..self }
        }
    }

    /// The vehicle one tick of length `dt` later, before it emits.
    pub open spec fn stepped(self, keys: Controls, dt: i64) -> CarView {
        self.accelerated(keys, dt).steered(keys, dt).turned(dt).settled().braked(keys, dt).moved(
            dt,
        ).wrapped()
    }

    /// What the vehicle emits at the end of a tick: a trail while it
    /// rolls, smoke while it brakes at speed.
    pub open spec fn emission(self) -> Option<Emission> {
        match self.car_state {
            CarState::Coasting => if self.vel != 0 {
                Some(Emission::Trail)
            } else {
                None
            },
            CarState::EnteringBrake => None,
            CarState::Braking => if self.vel >= SKID_SPEED {
                Some(Emission::Burst)
            } else {
                None
            },
        }
    }

    /// The vehicle with one more particle of the given kind in front of
    /// its pool: it starts where the vehicle is and leaves around the
    /// direction opposite to the heading, scattered by `sample`.
    pub open spec fn spraying(self, kind: Emission, sample: Sample) -> CarView {
        CarView {
            particles: PoolView {
                objects: seq![
                    Particle::launched(
                        self.pos,
                        plus(self.rear(), sample.angle),
                        sample.speed,
                        sample.size,
                        kind.decay(),
                        kind.color(),
                    ),
                ] + self.particles.objects,
                ..self.particles
            },
            ..self
        }
    }

    /// The vehicle after it has emitted one particle for each sample of
    /// `noise`, the first sample first.
    pub open spec fn emitting(self, kind: Emission, noise: Seq<Sample>) -> CarView
        decreases noise.len(),
    {
        if noise.len() == 0 {
            self
        } else {
            self.emitting(kind, noise.drop_last()).spraying(kind, noise.last())
        }
    }

    /// Whether `noise` is a scatter that the tick of length `dt` under the
    /// inputs `keys` may draw: one sample for each particle that the tick
    /// emits, each within the scatter of its kind.
    pub open spec fn scattered_by(self, keys: Controls, dt: i64, noise: Seq<Sample>) -> bool {
        match self.stepped(keys, dt).emission() {
            None => noise.len() == 0,
            Some(kind) => {
                &&& noise.len() == kind.count()
                &&& forall|k: int| 0 <= k < noise.len() ==> kind.admits(#[trigger] noise[k])
            },
        }
    }

    /// The vehicle one tick of length `dt` later: stepped, and then
    /// emitting what the step calls for, scattered by the first samples of
    /// `noise`.
    pub open spec fn updated(self, keys: Controls, dt: i64, noise: Seq<Sample>) -> CarView {
        let next = self.stepped(keys, dt);
        match next.emission() {
            None => next,
            Some(kind) => next.emitting(kind, noise.take(kind.count() as int)),
        }
    }

    /// The draw requests for the vehicle itself.
    pub open spec fn silhouette(self) -> Seq<DrawCommand> {
        outline(self.pos, self.angle, self.direction)
    }
}

} // verus!
