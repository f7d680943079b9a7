//! What holds of every vehicle, however it is driven.

use vstd::prelude::*;
use crate::entities::{CarState, Controls};
use crate::motion::{CarView, CREEP};
use crate::effects::Particle;
use crate::fixed::{lemma_scaled_by_unit, lemma_scaled_sign, plus, UNIT};
use crate::geometry::{lemma_polar_reciprocal, Vec2};
use crate::noise::{Emission, Sample};
use crate::trig::{cosine, lemma_full_turn, sine, FULL_TURN, HALF_TURN};

verus! {

// Each stage of a tick keeps the invariant of the vehicle.

proof fn lemma_accelerated(car: CarView, keys: Controls, dt: i64)
    requires
        car.wf(),
        dt >= 0,
    ensures
        car.accelerated(keys, dt).wf(),
{
    lemma_scaled_sign(car.acceleration, dt);
}

proof fn lemma_steered(car: CarView, keys: Controls, dt: i64)
    requires
        car.wf(),
        dt >= 0,
    ensures
        car.steered(keys, dt).wf(),
{
    lemma_scaled_sign(car.angle_step, dt);
}

proof fn lemma_braked(car: CarView, keys: Controls, dt: i64)
    requires
        car.wf(),
        dt >= 0,
    ensures
        car.braked(keys, dt).wf(),
{
    lemma_scaled_sign(car.brake_rate, dt);
}

proof fn lemma_turned(car: CarView, dt: i64)
    requires
        car.wf(),
    ensures
        car.turned(dt).wf(),
{
}

proof fn lemma_settled(car: CarView)
    requires
        car.wf(),
    ensures
        car.settled().wf(),
{
}

proof fn lemma_moved(car: CarView, dt: i64)
    requires
        car.wf(),
    ensures
        car.moved(dt).wf(),
{
}

proof fn lemma_wrapped(car: CarView)
    requires
        car.wf(),
    ensures
        car.wrapped().wf(),
{
}

/// No stage of a tick touches the tuning constants or the pool.
proof fn lemma_stages_keep_tuning(car: CarView, keys: Controls, dt: i64)
    ensures
        car.stepped(keys, dt).max_vel == car.max_vel,
        car.stepped(keys, dt).acceleration == car.acceleration,
        car.stepped(keys, dt).max_direction == car.max_direction,
        car.stepped(keys, dt).angle_step == car.angle_step,
        car.stepped(keys, dt).brake_rate == car.brake_rate,
        car.stepped(keys, dt).particles == car.particles,
{
}

/// One tick keeps the invariant of the vehicle and leaves its tuning
/// constants alone.
pub proof fn lemma_step_keeps_invariant(car: CarView, keys: Controls, dt: i64)
    requires
        car.wf(),
        dt >= 0,
    ensures
        car.stepped(keys, dt).wf(),
        car.stepped(keys, dt).max_vel == car.max_vel,
        car.stepped(keys, dt).acceleration == car.acceleration,
        car.stepped(keys, dt).max_direction == car.max_direction,
        car.stepped(keys, dt).angle_step == car.angle_step,
        car.stepped(keys, dt).brake_rate == car.brake_rate,
        car.stepped(keys, dt).particles == car.particles,
{
    let a = car.accelerated(keys, dt);
    lemma_accelerated(car, keys, dt);
    let b = a.steered(keys, dt);
    lemma_steered(a, keys, dt);
    let c = b.turned(dt);
    lemma_turned(b, dt);
    let d = c.settled();
    lemma_settled(c);
    let e = d.braked(keys, dt);
    lemma_braked(d, keys, dt);
    let f = e.moved(dt);
    lemma_moved(e, dt);
    lemma_wrapped(f);
    lemma_stages_keep_tuning(car, keys, dt);
}

/// Emitting changes nothing but the pool, which grows by one particle
/// for each sample.
pub proof fn lemma_emitting(car: CarView, kind: Emission, noise: Seq<Sample>)
    ensures
        car.emitting(kind, noise) == (CarView {
            particles: car.emitting(kind, noise).particles,
            ..car
        }),
        car.emitting(kind, noise).particles.objects.len() == car.particles.objects.len()
            + noise.len(),
        car.emitting(kind, noise).particles.gravity == car.particles.gravity,
        car.emitting(kind, noise).particles.shape_type == car.particles.shape_type,
        car.wf() ==> car.emitting(kind, noise).wf(),
    decreases noise.len(),
{
    if noise.len() > 0 {
        lemma_emitting(car, kind, noise.drop_last());
    }
}

/// A full tick, emission included, keeps the invariant of the vehicle:
/// the speed stays within the top speed either way, and the steering
/// within its deflection of the heading.
pub proof fn lemma_update_keeps_invariant(car: CarView, keys: Controls, dt: i64, noise: Seq<Sample>)
    requires
        car.wf(),
        dt >= 0,
    ensures
        car.updated(keys, dt, noise).wf(),
        car.updated(keys, dt, noise).max_vel == car.max_vel,
        car.updated(keys, dt, noise).max_direction == car.max_direction,
        -car.max_vel <= car.updated(keys, dt, noise).vel <= car.max_vel,
        car.updated(keys, dt, noise).angle - car.max_direction <= car.updated(
            keys,
            dt,
            noise,
        ).direction <= car.updated(keys, dt, noise).angle + car.max_direction,
{
    lemma_step_keeps_invariant(car, keys, dt);
    let next = car.stepped(keys, dt);
    match next.emission() {
        None => {},
        Some(kind) => {
            lemma_emitting(next, kind, noise.take(kind.count() as int));
        },
    }
}

/// The inputs, the length and the scatter of one tick.
pub struct Tick {
    pub keys: Controls,
    pub dt: i64,
    pub noise: Seq<Sample>,
}

/// The vehicle after the given ticks, one after the other.
pub open spec fn driven(car: CarView, ticks: Seq<Tick>) -> CarView
    decreases ticks.len(),
{
    if ticks.len() == 0 {
        car
    } else {
        let tick = ticks.last();
        driven(car, ticks.drop_last()).updated(tick.keys, tick.dt, tick.noise)
    }
}

/// Through any sequence of ticks of non-negative length, a vehicle that
/// starts within its bounds stays within them: at the end of every tick
/// its speed is within the top speed either way, and its steering within
/// the deflection limit of its heading.
pub proof fn lemma_bounds_hold_along_any_drive(car: CarView, ticks: Seq<Tick>)
    requires
        car.wf(),
        forall|i: int| 0 <= i < ticks.len() ==> (#[trigger] ticks[i]).dt >= 0,
    ensures
        driven(car, ticks).wf(),
        driven(car, ticks).max_vel == car.max_vel,
        driven(car, ticks).max_direction == car.max_direction,
        -car.max_vel <= driven(car, ticks).vel <= car.max_vel,
        driven(car, ticks).angle - car.max_direction <= driven(car, ticks).direction <= driven(
            car,
            ticks,
        ).angle + car.max_direction,
    decreases ticks.len(),
{
    if ticks.len() > 0 {
        let earlier = ticks.drop_last();
        assert forall|i: int| 0 <= i < earlier.len() implies (#[trigger] earlier[i]).dt >= 0 by {
            assert(earlier[i] == ticks[i]);
        }
        lemma_bounds_hold_along_any_drive(car, earlier);
        let tick = ticks.last();
        lemma_update_keeps_invariant(driven(car, earlier), tick.keys, tick.dt, tick.noise);
    }
}

/// A tick of unit length with only the throttle held adds the
/// acceleration to the speed of a coasting vehicle that does not roll
/// backward, up to the top speed and no further. A speed that is still
/// below the creep threshold after that is set to zero.
pub proof fn lemma_throttle_gain(car: CarView, keys: Controls)
    requires
        car.wf(),
        car.car_state == CarState::Coasting,
        car.vel >= 0,
        keys.forward,
        !keys.backward,
        !keys.brake,
    ensures
        ({
            let sum = car.vel + car.acceleration;
            let gained = if sum < car.max_vel {
                sum
            } else {
                car.max_vel as int
            };
            car.stepped(keys, UNIT).vel == if gained < CREEP {
                0
            } else {
                gained
            }
        }),
{
    lemma_scaled_by_unit(car.acceleration);
}

/// A vehicle that rolls backward with its rear steering in neutral
/// travels along its heading at its signed speed: straight back.
pub proof fn lemma_reverse_travels_backward(car: CarView, dt: i64)
    requires
        car.car_state != CarState::Braking,
        i64::MIN < car.vel < 0,
        car.back_direction == car.angle - HALF_TURN,
    ensures
        car.moved(dt).pos == car.pos.translated(Vec2::polar(car.angle, car.vel).scaled_by(dt)),
{
    lemma_polar_reciprocal(car.angle, car.vel);
}

/// The wrap of the heading. A heading within two turns of zero ends
/// within one turn of zero. The steering directions take the same
/// adjustment as the heading, so their offsets from it are what they
/// were, and the directions they point in are the same.
pub proof fn lemma_wrap_preserves_offsets(car: CarView)
    requires
        i64::MIN + FULL_TURN <= car.direction <= i64::MAX - FULL_TURN,
        i64::MIN + FULL_TURN <= car.back_direction <= i64::MAX - FULL_TURN,
    ensures
        -2 * FULL_TURN <= car.angle <= 2 * FULL_TURN ==> -FULL_TURN <= car.wrapped().angle
            <= FULL_TURN,
        car.wrapped().direction - car.wrapped().angle == car.direction - car.angle,
        car.wrapped().back_direction - car.wrapped().angle == car.back_direction - car.angle,
        sine(car.wrapped().angle) == sine(car.angle),
        cosine(car.wrapped().angle) == cosine(car.angle),
        sine(car.wrapped().direction) == sine(car.direction),
        cosine(car.wrapped().direction) == cosine(car.direction),
        sine(car.wrapped().back_direction) == sine(car.back_direction),
        cosine(car.wrapped().back_direction) == cosine(car.back_direction),
        sine(car.wrapped().locked_heading) == sine(car.locked_heading),
        cosine(car.wrapped().locked_heading) == cosine(car.locked_heading),
{
    let next = car.wrapped();
    if next.angle != car.angle {
        lemma_full_turn(next.angle, car.angle);
        lemma_full_turn(next.direction, car.direction);
        lemma_full_turn(next.back_direction, car.back_direction);
    }
    if next.locked_heading != car.locked_heading {
        lemma_full_turn(next.locked_heading, car.locked_heading);
    }
}

/// The braking state machine, as one tick moves it. With the brake
/// released, or with no speed left at the end of the tick, the state is
/// `Coasting`. With the brake held and speed left, `Coasting` goes to
/// `EnteringBrake` and everything else to `Braking`.
pub proof fn lemma_braking_transitions(car: CarView, keys: Controls, dt: i64)
    ensures
        !keys.brake || car.stepped(keys, dt).vel == 0 ==> car.stepped(keys, dt).car_state
            == CarState::Coasting,
        keys.brake && car.stepped(keys, dt).vel != 0 ==> car.stepped(keys, dt).car_state == (
        if car.car_state == CarState::Coasting {
            CarState::EnteringBrake
        } else {
            CarState::Braking
        }),
{
}

/// Two ticks in a row with the brake held, each of which leaves speed,
/// bring any vehicle to `Braking`.
pub proof fn lemma_held_brake_reaches_braking(
    car: CarView,
    first: Controls,
    first_dt: i64,
    second: Controls,
    second_dt: i64,
)
    requires
        first.brake,
        second.brake,
        car.stepped(first, first_dt).vel != 0,
        car.stepped(first, first_dt).stepped(second, second_dt).vel != 0,
    ensures
        car.stepped(first, first_dt).stepped(second, second_dt).car_state == CarState::Braking,
{
    lemma_braking_transitions(car, first, first_dt);
    lemma_braking_transitions(car.stepped(first, first_dt), second, second_dt);
}

/// A particle leaves the vehicle from where the vehicle is, in a direction
/// that deviates from the one opposite to the heading by no more than the
/// spread of its kind.
pub proof fn lemma_emission_leaves_rearward(car: CarView, kind: Emission, sample: Sample)
    requires
        kind.admits(sample),
    ensures
        ({
            let toward = plus(car.rear(), sample.angle);
            &&& car.spraying(kind, sample).particles.objects[0] == Particle::launched(
                car.pos,
                toward,
                sample.speed,
                sample.size,
                kind.decay(),
                kind.color(),
            )
            &&& car.rear() - kind.spread() <= toward <= car.rear() + kind.spread()
        }),
{
}

/// Emission moves nothing: a full tick leaves the vehicle as the step
/// alone does, but for its pool.
pub proof fn lemma_update_moves_like_step(
    car: CarView,
    keys: Controls,
    dt: i64,
    noise: Seq<Sample>,
)
    ensures
        car.updated(keys, dt, noise) == (CarView {
            particles: car.updated(keys, dt, noise).particles,
            ..car.stepped(keys, dt)
        }),
{
    let next = car.stepped(keys, dt);
    match next.emission() {
        None => {},
        Some(kind) => {
            lemma_emitting(next, kind, noise.take(kind.count() as int));
        },
    }
}

/// A brake that is held through a drive of two ticks or more, each of
/// which leaves speed, has the vehicle in `Braking` at the end.
pub proof fn lemma_held_brake_along_a_drive(car: CarView, ticks: Seq<Tick>)
    requires
        ticks.len() >= 2,
        forall|i: int| 0 <= i < ticks.len() ==> (#[trigger] ticks[i]).keys.brake,
        forall|k: int| 1 <= k <= ticks.len() ==> (#[trigger] driven(car, ticks.take(k))).vel != 0,
    ensures
        driven(car, ticks).car_state == CarState::Braking,
{
    let n = ticks.len() as int;
    let second = ticks[n - 1];
    let first = ticks[n - 2];
    let early = driven(car, ticks.take(n - 2));
    let middle = driven(car, ticks.take(n - 1));
    assert(ticks.take(n) =~= ticks);
    assert(ticks.drop_last() =~= ticks.take(n - 1));
    assert(ticks.take(n - 1).drop_last() =~= ticks.take(n - 2));
    assert(ticks.take(n - 1).last() == first);
    assert(middle == early.updated(first.keys, first.dt, first.noise));
    assert(driven(car, ticks) == middle.updated(second.keys, second.dt, second.noise));
    lemma_update_moves_like_step(early, first.keys, first.dt, first.noise);
    lemma_update_moves_like_step(middle, second.keys, second.dt, second.noise);
    lemma_braking_transitions(early, first.keys, first.dt);
    lemma_braking_transitions(middle, second.keys, second.dt);
}

/// A vehicle in `Braking` takes no notice of throttle, reverse or
/// steering: two ticks that agree on the brake input end in the same
/// state. While it stays in `Braking` it travels along the locked heading,
/// which keeps its direction.
pub proof fn lemma_braking_ignores_steering(car: CarView, keys: Controls, other: Controls, dt: i64)
    requires
        car.car_state == CarState::Braking,
        keys.brake == other.brake,
    ensures
        car.stepped(keys, dt) == car.stepped(other, dt),
        car.stepped(keys, dt).car_state == CarState::Braking ==> {
            let next = car.stepped(keys, dt);
            &&& next.pos == car.pos.translated(
                Vec2::polar(car.locked_heading, next.vel).scaled_by(dt),
            )
            &&& sine(next.locked_heading) == sine(car.locked_heading)
            &&& cosine(next.locked_heading) == cosine(car.locked_heading)
        },
{
    let held = car.accelerated(keys, dt).steered(keys, dt).turned(dt).settled().braked(keys, dt);
    let next = car.stepped(keys, dt);
    if next.car_state == CarState::Braking {
        assert(held.locked_heading == car.locked_heading);
        let rolled = held.moved(dt);
        if rolled.locked_heading != next.locked_heading {
            lemma_full_turn(next.locked_heading, car.locked_heading);
        }
    }
}

} // verus!
