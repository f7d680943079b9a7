//! The vehicle: its kinematics, its braking state machine and the particles
//! it leaves behind.

use vstd::prelude::*;
use crate::effects::{
    aged, commands, default_operation, is_pass, lemma_plain_pass, retained, survivors, Particle,
    PoolView, ShapeParticles, Shapes,
};
use crate::fixed::{clamped, lowered, minus, plus, raised, scaled, tenth, toward_zero};
use crate::geometry::Vec2;
use crate::laws::{
    lemma_braking_transitions, lemma_emitting, lemma_step_keeps_invariant,
    lemma_update_keeps_invariant,
};
use crate::motion::{CarView, BRAKE_RATE, CREEP, SKID_SPEED, STEER_LIMIT, STEER_RATE};
use crate::noise::{Emission, Sample};
use crate::outline::push_outline;
use crate::render::DrawCommand;
use crate::trig::{FULL_TURN, HALF_TURN};

verus! {

/// The stages of braking.
#[derive(Clone, Copy, PartialEq, Eq, Debug, Structural)]
pub enum CarState {
    /// The brake is released, or the vehicle stands.
    Coasting,
    /// The brake has been down for one tick.
    EnteringBrake,
    /// The brake has been down for longer: the vehicle slides along the
    /// heading it had when it got here.
    Braking,
}

/// The inputs that are held down during one tick.
#[derive(Clone, Copy, PartialEq, Eq, Debug, Structural)]
pub struct Controls {
    pub forward: bool,
    pub backward: bool,
    pub left: bool,
    pub right: bool,
    pub brake: bool,
}

/// A steerable vehicle.
#[derive(Debug)]
pub struct Car {
    /// The signed speed; positive is forward.
    pub vel: i64,
    pub max_vel: i64,
    pub acceleration: i64,
    /// The heading of the body, in degrees.
    pub angle: i64,
    /// The direction the front wheels point in, in degrees.
    pub direction: i64,
    /// The direction of travel in reverse, in degrees.
    pub back_direction: i64,
    /// How far `direction` may deflect from `angle`.
    pub max_direction: i64,
    pub particles: ShapeParticles,
    pub pos: Vec2,
    pub angle_step: i64,
    pub car_state: CarState,
    pub brake_rate: i64,
    /// The direction of travel while braking, in degrees.
    pub locked_heading: i64,
}

impl View for Car {
    type V = CarView;

    open spec fn view(&self) -> CarView {
        CarView {
            vel: self.vel,
            max_vel: self.max_vel,
            acceleration: self.acceleration,
            angle: self.angle,
            direction: self.direction,
            back_direction: self.back_direction,
            max_direction: self.max_direction,
            particles: self.particles@,
            pos: self.pos,
            angle_step: self.angle_step,
            car_state: self.car_state,
            brake_rate: self.brake_rate,
            locked_heading: self.locked_heading,
        }
    }
}

impl Car {
    /// A vehicle at rest at `pos`, facing `angle`, with an empty pool of
    /// hexagonal particles.
    pub fn new(max_vel: i64, acceleration: i64, angle: i64, pos: Vec2) -> (car: Car)
        ensures
            car@ == CarView::initial(max_vel, acceleration, angle, pos),
            0 <= max_vel && 0 <= acceleration ==> car@.wf(),
    {
        Car {
            vel: 0,
            max_vel,
            acceleration,
            angle,
            pos,
            direction: angle,
            back_direction: minus(angle, HALF_TURN),
            max_direction: STEER_LIMIT,
            particles: ShapeParticles::new(Shapes::Hexagon, 0),
            brake_rate: BRAKE_RATE,
            locked_heading: angle,
            angle_step: STEER_RATE,
            car_state: CarState::Coasting,
        }
    }

    fn accelerate(&mut self, keys: Controls, dt: i64)
        ensures
            final(self)@ == old(self)@.accelerated(keys, dt),
    {
        if self.car_state == CarState::Coasting {
            let gain = scaled(self.acceleration, dt);
            if keys.forward {
                self.vel = raised(self.vel, gain, self.max_vel);
            } else if self.vel > 0 {
                self.vel = lowered(self.vel, gain, 0);
                self.back_direction = minus(self.angle, HALF_TURN);
            }
            if keys.backward {
                self.vel = lowered(self.vel, gain, minus(0, self.max_vel));
            } else if self.vel < 0 {
                self.vel = raised(self.vel, gain, 0);
                self.direction = self.angle;
            }
        }
    }

    fn steer(&mut self, keys: Controls, dt: i64)
        ensures
            final(self)@ == old(self)@.steered(keys, dt),
    {
        if self.car_state == CarState::Coasting {
            let turn = scaled(self.angle_step, dt);
            let rear = minus(self.angle, HALF_TURN);
            if keys.left {
                self.direction = lowered(
                    self.direction,
                    turn,
                    minus(self.angle, self.max_direction),
                );
                self.back_direction = raised(
                    self.back_direction,
                    turn,
                    plus(rear, self.max_direction),
                );
            }
            if keys.right {
                self.direction = raised(
                    self.direction,
                    turn,
                    plus(self.angle, self.max_direction),
                );
                self.back_direction = lowered(
                    self.back_direction,
                    turn,
                    minus(rear, self.max_direction),
                );
            }
        }
    }

    fn turn(&mut self, dt: i64)
        ensures
            final(self)@ == old(self)@.turned(dt),
    {
        if self.vel > 0 {
            self.angle = plus(self.angle, tenth(scaled(minus(self.direction, self.angle), dt)));
        } else if self.vel < 0 {
            let target = plus(self.back_direction, HALF_TURN);
            self.angle = plus(self.angle, tenth(scaled(minus(target, self.angle), dt)));
        }
        let rear = minus(self.angle, HALF_TURN);
        self.direction = clamped(
            self.direction,
            minus(self.angle, self.max_direction),
            plus(self.angle, self.max_direction),
        );
        self.back_direction = clamped(
            self.back_direction,
            minus(rear, self.max_direction),
            plus(rear, self.max_direction),
        );
    }

    fn settle(&mut self)
        ensures
            final(self)@ == old(self)@.settled(),
    {
        if -CREEP < self.vel && self.vel < CREEP {
            self.vel = 0;
        }
    }

    fn brake(&mut self, keys: Controls, dt: i64)
        ensures
            final(self)@ == old(self)@.braked(keys, dt),
    {
        if !keys.brake {
            self.car_state = CarState::Coasting;
        } else {
            self.vel = toward_zero(self.vel, scaled(self.brake_rate, dt));
            if self.vel == 0 {
                self.car_state = CarState::Coasting;
            } else {
                match self.car_state {
                    CarState::Coasting => {
                        self.car_state = CarState::EnteringBrake;
                    },
                    CarState::EnteringBrake => {
                        self.car_state = CarState::Braking;
                        self.locked_heading = self.angle;
                    },
                    CarState::Braking => {},
                }
            }
        }
    }

    fn travel(&mut self, dt: i64)
        ensures
            final(self)@ == old(self)@.moved(dt),
    {
        let braking = self.car_state == CarState::Braking;
        let along = if braking {
            Vec2::polar(self.locked_heading, self.vel)
        } else if self.vel >= 0 {
            Vec2::polar(self.direction, self.vel)
        } else {
            Vec2::polar(self.back_direction, minus(0, self.vel))
        };
        self.pos = self.pos.translated(along.scaled_by(dt));
        if !braking {
            self.locked_heading = self.angle;
        }
    }

    fn wrap(&mut self)
        ensures
            final(self)@ == old(self)@.wrapped(),
    {
        if self.angle > FULL_TURN {
            self.angle = minus(self.angle, FULL_TURN);
            self.direction = minus(self.direction, FULL_TURN);
            self.back_direction = minus(self.back_direction, FULL_TURN);
        } else if self.angle < -FULL_TURN {
            self.angle = plus(self.angle, FULL_TURN);
            self.direction = plus(self.direction, FULL_TURN);
            self.back_direction = plus(self.back_direction, FULL_TURN);
        }
        if self.locked_heading > FULL_TURN {
            self.locked_heading = minus(self.locked_heading, FULL_TURN);
        } else if self.locked_heading < -FULL_TURN {
            self.locked_heading = plus(self.locked_heading, FULL_TURN);
        }
    }

    /// Advances the vehicle by one tick of length `dt` under the inputs
    /// `keys`, without emitting, and returns what the tick is to emit.
    pub fn step(&mut self, keys: Controls, dt: i64) -> (plan: Option<Emission>)
        ensures
            final(self)@ == old(self)@.stepped(keys, dt),
            plan == final(self)@.emission(),
            old(self)@.wf() && dt >= 0 ==> final(self)@.wf(),
            !keys.brake || final(self).vel == 0 ==> final(self).car_state == CarState::Coasting,
    {
        proof {
            if old(self)@.wf() && dt >= 0 {
                lemma_step_keeps_invariant(old(self)@, keys, dt);
            }
            lemma_braking_transitions(old(self)@, keys, dt);
        }
        self.accelerate(keys, dt);
        self.steer(keys, dt);
        self.turn(dt);
        self.settle();
        self.brake(keys, dt);
        self.travel(dt);
        self.wrap();
        match self.car_state {
            CarState::Coasting => if self.vel != 0 {
                Some(Emission::Trail)
            } else {
                None
            },
            CarState::EnteringBrake => None,
            CarState::Braking => if self.vel >= SKID_SPEED {
                Some(Emission::Burst)
            } else {
                None
            },
        }
    }

    /// Lets the particles live through the time `dt` and returns the draw
    /// requests of one frame from the bottom up: one for each particle that
    /// was in the pool, then those of the vehicle itself. Nothing of the
    /// vehicle changes but its pool, which loses the particles whose size
    /// has run out.
    pub fn draw(&mut self, dt: i64) -> (frame: Vec<DrawCommand>)
        ensures
            frame@ == commands(old(self)@.particles.shape_type, aged(old(self)@.particles.objects, dt))
                + old(self)@.silhouette(),
            final(self)@ == (CarView {
                particles: PoolView {
                    objects: retained(old(self)@.particles.objects, dt),
                    ..old(self)@.particles
                },
                ..old(self)@
            }),
    {
        let mut frame = self.particles.draw(dt, default_operation);
        proof {
            let before = old(self)@.particles.objects;
            let drawn = choose|drawn: Seq<Particle>|
                {
                    &&& #[trigger] is_pass(default_operation, before, dt, drawn)
                    &&& frame@ == commands(old(self)@.particles.shape_type, drawn)
                    &&& self.particles.objects@ == survivors(before, drawn, dt)
                };
            lemma_plain_pass(before, dt, drawn);
        }
        push_outline(&mut frame, self.pos, self.angle, self.direction);
        frame
    }

    /// Emits one particle of the given kind, scattered by `sample`.
    pub fn emit(&mut self, kind: Emission, sample: Sample)
        ensures
            final(self)@ == old(self)@.spraying(kind, sample),
    {
        self.particles.add(
            self.pos,
            plus(minus(self.angle, HALF_TURN), sample.angle),
            sample.speed,
            sample.size,
            kind.decay(),
            kind.color(),
        );
    }

    /// Advances the vehicle by one tick of length `dt` under the inputs
    /// `keys`, scattering what it emits by the samples given.
    pub fn update_with(&mut self, keys: Controls, dt: i64, noise: &[Sample; 5])
        ensures
            final(self)@ == old(self)@.updated(keys, dt, noise@),
            old(self)@.wf() && dt >= 0 ==> final(self)@.wf(),
            !keys.brake || final(self).vel == 0 ==> final(self).car_state == CarState::Coasting,
    {
        proof {
            if old(self)@.wf() && dt >= 0 {
                lemma_update_keeps_invariant(old(self)@, keys, dt, noise@);
            }
        }
        let plan = self.step(keys, dt);
        if let Some(kind) = plan {
            let ghost next = self@;
            let n = kind.count();
            let mut i: usize = 0;
            while i < n
                invariant
                    i <= n <= 5,
                    n == kind.count(),
                    self@ == next.emitting(kind, noise@.take(i as int)),
                decreases n - i,
            {
                proof {
                    let longer = noise@.take(i + 1);
                    assert(longer.drop_last() =~= noise@.take(i as int));
                    assert(longer.last() == noise@[i as int]);
                }
                self.emit(kind, noise[i]);
                i += 1;
            }
            proof {
                lemma_emitting(next, kind, noise@.take(n as int));
            }
        }
    }

    /// Advances the vehicle by one tick of length `dt` under the inputs
    /// `keys`, scattering what it emits at random.
    pub fn update(&mut self, keys: Controls, dt: i64)
        ensures
            exists|noise: Seq<Sample>|
                {
                    &&& #[trigger] old(self)@.scattered_by(keys, dt, noise)
                    &&& final(self)@ == old(self)@.updated(keys, dt, noise)
                },
            old(self)@.wf() && dt >= 0 ==> final(self)@.wf(),
            !keys.brake || final(self).vel == 0 ==> final(self).car_state == CarState::Coasting,
    {
        let plan = self.step(keys, dt);
        match plan {
            None => {
                assert(old(self)@.scattered_by(keys, dt, Seq::empty()));
            },
            Some(kind) => {
                let ghost next = self@;
                let n = kind.count();
                let mut noise: Ghost<Seq<Sample>> = Ghost(Seq::empty());
                let mut i: usize = 0;
                while i < n
                    invariant
                        i <= n,
                        n == kind.count(),
                        noise@.len() == i,
                        forall|k: int| 0 <= k < i ==> kind.admits(#[trigger] noise@[k]),
                        self@ == next.emitting(kind, noise@),
                    decreases n - i,
                {
                    let sample = kind.sample();
                    proof {
                        assert(noise@.push(sample).drop_last() =~= noise@);
                        noise@ = noise@.push(sample);
                    }
                    self.emit(kind, sample);
                    i += 1;
                }
                proof {
                    assert(noise@.take(n as int) =~= noise@);
                    assert(old(self)@.scattered_by(keys, dt, noise@));
                    lemma_emitting(next, kind, noise@);
                }
            },
        }
    }
}

} // verus!
