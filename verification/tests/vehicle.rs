use rally2d::effects::Shapes;
use rally2d::entities::{Car, CarState, Controls};
use rally2d::fixed::UNIT;
use rally2d::geometry::Vec2;
use rally2d::noise::{Emission, Sample};
use rally2d::render::{Color, DrawCommand};
use rally2d::trig::{cosine, sine, FULL_TURN, HALF_TURN};

const IDLE: Controls =
    Controls { forward: false, backward: false, left: false, right: false, brake: false };
const THROTTLE: Controls = Controls { forward: true, ..IDLE };
const REVERSE: Controls = Controls { backward: true, ..IDLE };
const BRAKE: Controls = Controls { brake: true, ..IDLE };
const CALM: Sample = Sample { angle: 0, speed: UNIT, size: 8 * UNIT };

fn car() -> Car {
    Car::new(8 * UNIT, 100_000, 0, Vec2::new(400 * UNIT, 100 * UNIT))
}

fn within_bounds(car: &Car) -> bool {
    -car.max_vel <= car.vel
        && car.vel <= car.max_vel
        && car.angle as i128 - car.max_direction as i128 <= car.direction as i128
        && car.direction as i128 <= car.angle as i128 + car.max_direction as i128
}

#[test]
fn a_new_car_stands_and_coasts() {
    let car = Car::new(8 * UNIT, 100_000, 45 * UNIT, Vec2::new(400 * UNIT, 100 * UNIT));
    assert_eq!(car.vel, 0);
    assert_eq!(car.max_vel, 8 * UNIT);
    assert_eq!(car.acceleration, 100_000);
    assert_eq!(car.angle, 45 * UNIT);
    assert_eq!(car.direction, 45 * UNIT);
    assert_eq!(car.back_direction, -135 * UNIT);
    assert_eq!(car.max_direction, 30 * UNIT);
    assert_eq!(car.pos, Vec2::new(400 * UNIT, 100 * UNIT));
    assert_eq!(car.angle_step, 5 * UNIT);
    assert_eq!(car.car_state, CarState::Coasting);
    assert_eq!(car.brake_rate, 100_000);
    assert_eq!(car.locked_heading, 45 * UNIT);
    assert!(car.particles.objects.is_empty());
    assert_eq!(car.particles.shape_type, Shapes::Hexagon);
    assert_eq!(car.particles.gravity, 0);
}

#[test]
fn throttle_gains_a_tenth_per_tick_up_to_the_top_speed() {
    let mut car = car();
    for tick in 1..=80 {
        car.update_with(THROTTLE, UNIT, &[CALM; 5]);
        assert_eq!(car.vel, tick * 100_000);
        assert!(car.vel <= car.max_vel);
    }
    assert_eq!(car.vel, 8 * UNIT);
    for _ in 0..20 {
        car.update_with(THROTTLE, UNIT, &[CALM; 5]);
        assert_eq!(car.vel, 8 * UNIT);
    }
}

#[test]
fn throttle_is_clamped_when_the_step_overshoots() {
    let mut car = car();
    car.vel = 7_950_000;
    car.step(THROTTLE, UNIT);
    assert_eq!(car.vel, 8 * UNIT);
    let mut car = self::car();
    car.step(THROTTLE, 1_000 * UNIT);
    assert_eq!(car.vel, 8 * UNIT);
    let mut car = self::car();
    car.step(REVERSE, 1_000 * UNIT);
    assert_eq!(car.vel, -8 * UNIT);
}

#[test]
fn reverse_mirrors_throttle() {
    let mut car = car();
    for tick in 1..=80 {
        car.step(REVERSE, UNIT);
        assert_eq!(car.vel, -tick * 100_000);
    }
    car.step(REVERSE, UNIT);
    assert_eq!(car.vel, -8 * UNIT);
}

#[test]
fn a_released_throttle_decays_to_rest() {
    let mut car = car();
    car.vel = 350_000;
    car.step(IDLE, UNIT);
    assert_eq!(car.vel, 250_000);
    car.step(IDLE, UNIT);
    assert_eq!(car.vel, 150_000);
    car.step(IDLE, UNIT);
    // 0.05 is below the creep threshold
    assert_eq!(car.vel, 0);
    car.step(IDLE, UNIT);
    assert_eq!(car.vel, 0);
    let mut car = self::car();
    car.vel = -350_000;
    car.step(IDLE, UNIT);
    assert_eq!(car.vel, -250_000);
    car.step(IDLE, UNIT);
    car.step(IDLE, UNIT);
    assert_eq!(car.vel, 0);
}

#[test]
fn decay_does_not_cross_zero() {
    let mut car = car();
    car.vel = 2 * UNIT;
    car.step(IDLE, 1_000 * UNIT);
    assert_eq!(car.vel, 0);
    let mut car = self::car();
    car.vel = -2 * UNIT;
    car.step(IDLE, 1_000 * UNIT);
    assert_eq!(car.vel, 0);
}

#[test]
fn a_speed_of_exactly_the_threshold_does_not_creep_on() {
    let mut car = car();
    car.step(THROTTLE, UNIT);
    assert_eq!(car.vel, 100_000);
    car.step(IDLE, UNIT);
    assert_eq!(car.vel, 0);
    assert_eq!(car.car_state, CarState::Coasting);
}

#[test]
fn throttle_against_reverse_cancels() {
    let mut car = car();
    car.vel = 2 * UNIT;
    car.step(Controls { forward: true, backward: true, ..IDLE }, UNIT);
    assert_eq!(car.vel, 2 * UNIT);
}

#[test]
fn reverse_brakes_a_rolling_car_twice_as_fast() {
    let mut car = car();
    car.vel = 2 * UNIT;
    car.step(REVERSE, UNIT);
    assert_eq!(car.vel, 1_800_000);
}

#[test]
fn steering_turns_five_degrees_a_tick_up_to_thirty() {
    let mut car = car();
    let right = Controls { right: true, ..IDLE };
    for tick in 1..=6 {
        car.step(right, UNIT);
        assert_eq!(car.direction, tick * 5 * UNIT);
        assert_eq!(car.back_direction, -HALF_TURN - tick * 5 * UNIT);
        assert_eq!(car.angle, 0);
    }
    car.step(right, UNIT);
    assert_eq!(car.direction, 30 * UNIT);
    assert_eq!(car.back_direction, -HALF_TURN - 30 * UNIT);
    let left = Controls { left: true, ..IDLE };
    for _ in 0..20 {
        car.step(left, UNIT);
    }
    assert_eq!(car.direction, -30 * UNIT);
    assert_eq!(car.back_direction, -HALF_TURN + 30 * UNIT);
}

#[test]
fn steering_is_clamped_when_the_step_overshoots() {
    let mut car = car();
    car.step(Controls { left: true, ..IDLE }, 1_000 * UNIT);
    assert_eq!(car.direction, -30 * UNIT);
    car.step(Controls { right: true, ..IDLE }, 1_000 * UNIT);
    assert_eq!(car.direction, 30 * UNIT);
}

#[test]
fn left_against_right_cancels() {
    let mut car = car();
    car.direction = 10 * UNIT;
    car.step(Controls { left: true, right: true, ..IDLE }, UNIT);
    assert_eq!(car.direction, 10 * UNIT);
}

#[test]
fn the_heading_relaxes_by_a_tenth_of_the_gap() {
    let mut car = car();
    car.vel = 5 * UNIT;
    car.direction = 20 * UNIT;
    car.step(THROTTLE, UNIT);
    assert_eq!(car.angle, 2 * UNIT);
    assert_eq!(car.direction, 20 * UNIT);
    car.step(THROTTLE, UNIT / 2);
    // (20 - 2) / 10 * 0.5
    assert_eq!(car.angle, 2_900_000);
}

#[test]
fn the_heading_rests_while_the_car_stands() {
    let mut car = car();
    car.direction = 20 * UNIT;
    car.step(IDLE, UNIT);
    assert_eq!(car.angle, 0);
    assert_eq!(car.direction, 20 * UNIT);
}

#[test]
fn in_reverse_the_heading_follows_the_rear_steering() {
    let mut car = car();
    car.vel = -5 * UNIT;
    car.back_direction = -HALF_TURN + 20 * UNIT;
    car.step(REVERSE, UNIT);
    assert_eq!(car.angle, 2 * UNIT);
    assert_eq!(car.vel, -5_100_000);
}

#[test]
fn the_steering_follows_a_heading_that_leaves_it_behind() {
    let mut car = car();
    car.vel = -5 * UNIT;
    car.direction = -30 * UNIT;
    car.back_direction = -HALF_TURN + 30 * UNIT;
    car.step(REVERSE, UNIT);
    assert_eq!(car.angle, 3 * UNIT);
    assert_eq!(car.direction, -27 * UNIT);
    assert!(within_bounds(&car));
}

#[test]
fn a_long_tick_keeps_the_steering_within_its_deflection() {
    let mut car = car();
    car.vel = 5 * UNIT;
    car.direction = 30 * UNIT;
    car.step(THROTTLE, 100 * UNIT);
    // the heading overshoots to 300 degrees and takes the steering along
    assert_eq!(car.angle, 300 * UNIT);
    assert_eq!(car.direction, 270 * UNIT);
    assert!(within_bounds(&car));
}

#[test]
fn coasting_travels_along_the_steering() {
    let mut car = Car::new(8 * UNIT, 100_000, 0, Vec2::new(0, 0));
    car.vel = 4 * UNIT;
    car.step(THROTTLE, UNIT);
    assert_eq!(car.vel, 4_100_000);
    assert_eq!(car.pos, Vec2::new(4_100_000, 0));
    let mut car = Car::new(8 * UNIT, 100_000, 90 * UNIT, Vec2::new(0, 0));
    car.vel = 4 * UNIT;
    car.step(THROTTLE, UNIT / 2);
    assert_eq!(car.vel, 4_050_000);
    assert_eq!(car.pos, Vec2::new(0, 2_025_000));
}

#[test]
fn reverse_travels_along_the_rear_steering() {
    let mut car = Car::new(8 * UNIT, 100_000, 0, Vec2::new(0, 0));
    car.vel = -4 * UNIT;
    car.step(REVERSE, UNIT);
    assert_eq!(car.vel, -4_100_000);
    assert_eq!(car.pos, Vec2::new(-4_100_000, 0));
    assert_eq!(car.angle, 0);
}

#[test]
fn a_standing_car_stays_where_it_is() {
    let mut car = car();
    car.step(IDLE, UNIT);
    assert_eq!(car.pos, Vec2::new(400 * UNIT, 100 * UNIT));
    car.step(BRAKE, UNIT);
    assert_eq!(car.pos, Vec2::new(400 * UNIT, 100 * UNIT));
    assert_eq!(car.car_state, CarState::Coasting);
}

#[test]
fn a_held_brake_goes_through_the_stages() {
    let mut car = Car::new(8 * UNIT, 100_000, 0, Vec2::new(0, 0));
    car.vel = 5 * UNIT;
    assert_eq!(car.car_state, CarState::Coasting);
    car.update_with(BRAKE, UNIT, &[CALM; 5]);
    assert_eq!(car.car_state, CarState::EnteringBrake);
    // released throttle and brake each take a tenth
    assert_eq!(car.vel, 4_800_000);
    assert_eq!(car.pos, Vec2::new(4_800_000, 0));
    car.update_with(BRAKE, UNIT, &[CALM; 5]);
    assert_eq!(car.car_state, CarState::Braking);
    assert_eq!(car.vel, 4_700_000);
    assert_eq!(car.locked_heading, 0);
    assert_eq!(car.pos, Vec2::new(9_500_000, 0));
    // turn the wheels: the body follows, the travel does not
    car.direction = 20 * UNIT;
    car.update_with(Controls { left: true, ..BRAKE }, UNIT, &[CALM; 5]);
    assert_eq!(car.car_state, CarState::Braking);
    assert_eq!(car.vel, 4_600_000);
    assert_eq!(car.angle, 2 * UNIT);
    assert_eq!(car.direction, 20 * UNIT);
    assert_eq!(car.locked_heading, 0);
    assert_eq!(car.pos, Vec2::new(14_100_000, 0));
}

#[test]
fn the_locked_heading_is_the_heading_on_arrival_at_braking() {
    let mut car = Car::new(8 * UNIT, 100_000, 0, Vec2::new(0, 0));
    car.vel = 5 * UNIT;
    car.direction = 20 * UNIT;
    car.step(BRAKE, UNIT);
    assert_eq!(car.car_state, CarState::EnteringBrake);
    assert_eq!(car.angle, 2 * UNIT);
    assert_eq!(car.locked_heading, 2 * UNIT);
    car.step(BRAKE, UNIT);
    assert_eq!(car.car_state, CarState::Braking);
    assert_eq!(car.angle, 3_800_000);
    assert_eq!(car.locked_heading, 3_800_000);
    let before = car.pos;
    car.step(BRAKE, UNIT);
    assert_eq!(car.angle, 5_420_000);
    assert_eq!(car.locked_heading, 3_800_000);
    let along = Vec2::polar(3_800_000, car.vel);
    assert_eq!(car.pos, before.translated(along));
}

#[test]
fn braking_ignores_throttle_and_steering() {
    let mut one = car();
    one.vel = 6 * UNIT;
    one.step(BRAKE, UNIT);
    one.step(BRAKE, UNIT);
    assert_eq!(one.car_state, CarState::Braking);
    let mut other = car();
    other.vel = 6 * UNIT;
    other.step(BRAKE, UNIT);
    other.step(BRAKE, UNIT);
    one.step(BRAKE, UNIT);
    other.step(Controls { forward: true, backward: false, left: true, right: false, brake: true }, UNIT);
    assert_eq!(one.vel, other.vel);
    assert_eq!(one.pos, other.pos);
    assert_eq!(one.angle, other.angle);
    assert_eq!(one.direction, other.direction);
    assert_eq!(one.locked_heading, other.locked_heading);
    assert_eq!(one.car_state, other.car_state);
}

#[test]
fn releasing_the_brake_returns_to_coasting_at_once() {
    for ticks in 1..=3 {
        let mut car = car();
        car.vel = 6 * UNIT;
        for _ in 0..ticks {
            car.step(BRAKE, UNIT);
        }
        assert_ne!(car.car_state, CarState::Coasting);
        car.step(IDLE, UNIT);
        assert_eq!(car.car_state, CarState::Coasting);
    }
}

#[test]
fn running_out_of_speed_returns_to_coasting_at_once() {
    let mut car = car();
    car.vel = 350_000;
    car.step(BRAKE, UNIT);
    assert_eq!((car.vel, car.car_state), (150_000, CarState::EnteringBrake));
    car.step(BRAKE, UNIT);
    assert_eq!((car.vel, car.car_state), (50_000, CarState::Braking));
    car.step(BRAKE, UNIT);
    assert_eq!((car.vel, car.car_state), (0, CarState::Coasting));
    car.step(BRAKE, UNIT);
    assert_eq!((car.vel, car.car_state), (0, CarState::Coasting));
}

#[test]
fn the_brake_does_not_push_a_car_backward() {
    let mut car = car();
    car.vel = 6 * UNIT;
    car.step(BRAKE, UNIT);
    car.step(BRAKE, 1_000 * UNIT);
    assert_eq!((car.vel, car.car_state), (0, CarState::Coasting));
}

#[test]
fn braking_in_reverse_slides_backward_along_the_locked_heading() {
    let mut car = Car::new(8 * UNIT, 100_000, 0, Vec2::new(0, 0));
    car.vel = -5 * UNIT;
    car.step(BRAKE, UNIT);
    assert_eq!((car.vel, car.car_state), (-4_800_000, CarState::EnteringBrake));
    assert_eq!(car.pos, Vec2::new(-4_800_000, 0));
    car.step(BRAKE, UNIT);
    assert_eq!((car.vel, car.car_state), (-4_700_000, CarState::Braking));
    assert_eq!(car.pos, Vec2::new(-9_500_000, 0));
}

#[test]
fn a_heading_beyond_a_full_turn_wraps_with_its_steering() {
    let mut car = car();
    car.angle = 361 * UNIT;
    car.direction = 371 * UNIT;
    car.back_direction = 171 * UNIT;
    car.locked_heading = 361 * UNIT;
    car.step(IDLE, UNIT);
    assert_eq!(car.angle, UNIT);
    assert_eq!(car.direction, 11 * UNIT);
    assert_eq!(car.back_direction, -189 * UNIT);
    assert_eq!(car.locked_heading, UNIT);
    let mut car = self::car();
    car.angle = -361 * UNIT;
    car.direction = -371 * UNIT;
    car.back_direction = -551 * UNIT;
    car.step(IDLE, UNIT);
    assert_eq!(car.angle, -UNIT);
    assert_eq!(car.direction, -11 * UNIT);
    assert_eq!(car.back_direction, -191 * UNIT);
    assert_eq!(car.locked_heading, -UNIT);
}

#[test]
fn a_heading_of_exactly_a_full_turn_stays() {
    let mut car = car();
    car.angle = FULL_TURN;
    car.direction = FULL_TURN;
    car.step(IDLE, UNIT);
    assert_eq!(car.angle, FULL_TURN);
    assert_eq!(car.direction, FULL_TURN);
}

#[test]
fn a_rolling_car_leaves_a_trail() {
    let mut car = Car::new(8 * UNIT, 100_000, 0, Vec2::new(0, 0));
    assert_eq!(car.step(IDLE, UNIT), None);
    assert_eq!(car.step(THROTTLE, UNIT), Some(Emission::Trail));
    let mut car = Car::new(8 * UNIT, 100_000, 0, Vec2::new(0, 0));
    let noise = [
        Sample { angle: 10 * UNIT, speed: 2 * UNIT, size: 8_500_000 },
        Sample { angle: 0, speed: 0, size: 0 },
        Sample { angle: 0, speed: 0, size: 0 },
        Sample { angle: 0, speed: 0, size: 0 },
        Sample { angle: 0, speed: 0, size: 0 },
    ];
    car.update_with(THROTTLE, UNIT, &noise);
    assert_eq!(car.particles.objects.len(), 1);
    let p = car.particles.objects[0];
    assert_eq!(p.pos, car.pos);
    assert_eq!(p.pos, Vec2::new(100_000, 0));
    assert_eq!(p.vel, Vec2::polar(-170 * UNIT, 2 * UNIT));
    assert_eq!(p.size, 8_500_000);
    assert_eq!(p.decrement, 500_000);
    assert_eq!(p.color, Color::new(700_000, 700_000, 700_000, 300_000));
    car.update_with(IDLE, UNIT, &noise);
    assert_eq!(car.vel, 0);
    assert_eq!(car.particles.objects.len(), 1);
}

#[test]
fn a_skid_smokes_from_a_speed_of_four() {
    let mut car = Car::new(8 * UNIT, 100_000, 0, Vec2::new(0, 0));
    car.vel = 4_300_000;
    let noise = [
        Sample { angle: -50 * UNIT, speed: UNIT, size: 9 * UNIT },
        Sample { angle: -25 * UNIT, speed: 1_500_000, size: 9_250_000 },
        Sample { angle: 0, speed: 2 * UNIT, size: 9_500_000 },
        Sample { angle: 25 * UNIT, speed: 2_500_000, size: 9_750_000 },
        Sample { angle: 50 * UNIT, speed: 3 * UNIT, size: 10 * UNIT },
    ];
    car.update_with(BRAKE, UNIT, &noise);
    assert_eq!((car.vel, car.car_state), (4_100_000, CarState::EnteringBrake));
    assert!(car.particles.objects.is_empty());
    car.update_with(BRAKE, UNIT, &noise);
    assert_eq!((car.vel, car.car_state), (4_000_000, CarState::Braking));
    assert_eq!(car.particles.objects.len(), 5);
    // the newest particle stands first
    let sizes: Vec<i64> = car.particles.objects.iter().map(|p| p.size).collect();
    assert_eq!(sizes, vec![10 * UNIT, 9_750_000, 9_500_000, 9_250_000, 9 * UNIT]);
    for (p, sample) in car.particles.objects.iter().rev().zip(noise.iter()) {
        assert_eq!(p.pos, car.pos);
        assert_eq!(p.vel, Vec2::polar(-HALF_TURN + sample.angle, sample.speed));
        assert_eq!(p.decrement, 200_000);
        assert_eq!(p.color, Color::new(200_000, 200_000, 200_000, 600_000));
    }
    car.update_with(BRAKE, UNIT, &noise);
    assert_eq!((car.vel, car.car_state), (3_900_000, CarState::Braking));
    assert_eq!(car.particles.objects.len(), 5);
}

#[test]
fn emit_puts_one_particle_behind_the_car() {
    let mut car = Car::new(8 * UNIT, 100_000, 90 * UNIT, Vec2::new(UNIT, UNIT));
    car.emit(Emission::Burst, Sample { angle: 0, speed: 2 * UNIT, size: 9 * UNIT });
    assert_eq!(car.particles.objects.len(), 1);
    let p = car.particles.objects[0];
    assert_eq!(p.pos, Vec2::new(UNIT, UNIT));
    assert_eq!(p.vel, Vec2::new(0, -2 * UNIT));
    assert_eq!(p.size, 9 * UNIT);
    assert_eq!(p.decrement, Emission::Burst.decay());
    assert_eq!(p.color, Emission::Burst.color());
}

#[test]
fn the_kinds_of_emission() {
    assert_eq!(Emission::Trail.count(), 1);
    assert_eq!(Emission::Burst.count(), 5);
    assert_eq!(Emission::Trail.spread(), 15_000_000);
    assert_eq!(Emission::Burst.spread(), 50_000_000);
    assert_eq!((Emission::Trail.smallest(), Emission::Trail.largest()), (8_000_000, 9_000_000));
    assert_eq!((Emission::Burst.smallest(), Emission::Burst.largest()), (9_000_000, 10_000_000));
    assert_eq!(Emission::Trail.decay(), 500_000);
    assert_eq!(Emission::Burst.decay(), 200_000);
    assert_eq!(Emission::Trail.color(), Color::new(700_000, 700_000, 700_000, 300_000));
    assert_eq!(Emission::Burst.color(), Color::new(200_000, 200_000, 200_000, 600_000));
}

#[test]
fn random_samples_stay_within_their_scatter_and_vary() {
    for kind in [Emission::Trail, Emission::Burst] {
        let mut angles = Vec::new();
        let mut speeds = Vec::new();
        let mut sizes = Vec::new();
        for _ in 0..200 {
            let s = kind.sample();
            assert!(-(kind.spread() as i64) <= s.angle && s.angle <= kind.spread() as i64);
            assert!(UNIT <= s.speed && s.speed <= 3 * UNIT);
            assert!(kind.smallest() as i64 <= s.size && s.size <= kind.largest() as i64);
            angles.push(s.angle);
            speeds.push(s.speed);
            sizes.push(s.size);
        }
        for drawn in [&mut angles, &mut speeds, &mut sizes] {
            drawn.sort();
            drawn.dedup();
            assert!(drawn.len() > 100);
        }
        assert!(angles.iter().any(|a| *a < 0) && angles.iter().any(|a| *a > 0));
    }
}

#[test]
fn update_scatters_what_the_step_emits() {
    let mut car = Car::new(8 * UNIT, 100_000, 0, Vec2::new(0, 0));
    let mut twin = Car::new(8 * UNIT, 100_000, 0, Vec2::new(0, 0));
    let mut seen = Vec::new();
    for tick in 0..60 {
        let keys = Controls { right: tick % 7 < 3, ..THROTTLE };
        car.update(keys, UNIT);
        twin.step(keys, UNIT);
        assert_eq!(car.vel, twin.vel);
        assert_eq!(car.pos, twin.pos);
        assert_eq!(car.angle, twin.angle);
        assert_eq!(car.direction, twin.direction);
        assert_eq!(car.particles.objects.len(), tick + 1);
        let p = car.particles.objects[0];
        assert_eq!(p.pos, car.pos);
        assert!(8 * UNIT <= p.size && p.size <= 9 * UNIT);
        assert_eq!(p.decrement, 500_000);
        seen.push(p.size);
    }
    seen.sort();
    seen.dedup();
    assert!(seen.len() > 30);
}

#[test]
fn update_smokes_five_at_a_time() {
    let mut car = Car::new(8 * UNIT, 100_000, 0, Vec2::new(0, 0));
    car.vel = 8 * UNIT;
    car.update(BRAKE, UNIT);
    assert!(car.particles.objects.is_empty());
    car.update(BRAKE, UNIT);
    assert_eq!(car.particles.objects.len(), 5);
    for p in car.particles.objects.iter() {
        assert!(9 * UNIT <= p.size && p.size <= 10 * UNIT);
        assert_eq!(p.decrement, 200_000);
        assert_eq!(p.pos, car.pos);
    }
}

#[test]
fn speed_and_steering_stay_within_bounds_whatever_is_pressed() {
    let mut car = car();
    let mut seed: u64 = 0x2545_f491_4f6c_dd1d;
    for _ in 0..5_000 {
        seed ^= seed << 13;
        seed ^= seed >> 7;
        seed ^= seed << 17;
        let keys = Controls {
            forward: seed & 1 != 0,
            backward: seed & 2 != 0,
            left: seed & 4 != 0,
            right: seed & 8 != 0,
            brake: seed & 48 == 0,
        };
        let dt = match (seed >> 8) % 5 {
            0 => 0,
            1 => UNIT,
            2 => ((seed >> 16) % 3_000_000) as i64,
            3 => ((seed >> 16) % 200_000_000) as i64,
            _ => 983_000,
        };
        car.step(keys, dt);
        assert!(within_bounds(&car), "{:?} after {:?} for {}", car, keys, dt);
        if !keys.brake || car.vel == 0 {
            assert_eq!(car.car_state, CarState::Coasting);
        }
    }
}

#[test]
fn the_bounds_hold_at_the_ends_of_the_range() {
    let mut car = Car::new(i64::MAX, i64::MAX, i64::MAX, Vec2::new(i64::MAX, i64::MIN));
    for keys in [THROTTLE, Controls { right: true, ..THROTTLE }, BRAKE, REVERSE, IDLE] {
        car.update_with(keys, i64::MAX, &[CALM; 5]);
        assert!(within_bounds(&car));
    }
    let mut car = Car::new(0, 0, i64::MIN, Vec2::new(i64::MIN, i64::MAX));
    for keys in [THROTTLE, Controls { left: true, ..REVERSE }, BRAKE, IDLE] {
        car.update_with(keys, i64::MAX, &[CALM; 5]);
        assert_eq!(car.vel, 0);
        assert!(within_bounds(&car));
    }
}

#[test]
fn the_frame_holds_the_particles_and_then_the_car() {
    let mut car = Car::new(8 * UNIT, 100_000, 0, Vec2::new(100 * UNIT, 50 * UNIT));
    car.emit(Emission::Trail, Sample { angle: 0, speed: 2 * UNIT, size: 8 * UNIT });
    car.emit(Emission::Trail, Sample { angle: 0, speed: UNIT, size: 300_000 });
    let frame = car.draw(UNIT);
    assert_eq!(frame.len(), 2 + 20);
    let trail = Emission::Trail.color();
    assert_eq!(
        frame[0],
        DrawCommand::Hexagon { center: Vec2::new(99 * UNIT, 50 * UNIT), size: -200_000, color: trail }
    );
    assert_eq!(
        frame[1],
        DrawCommand::Hexagon { center: Vec2::new(98 * UNIT, 50 * UNIT), size: 7_500_000, color: trail }
    );
    assert_eq!(car.particles.objects.len(), 1);
    assert_eq!(car.particles.objects[0].size, 7_500_000);
    for command in &frame[2..] {
        assert!(matches!(command, DrawCommand::Triangle { .. }));
    }
}

#[test]
fn the_car_is_drawn_as_shadow_wheels_and_body() {
    let pos = Vec2::new(100 * UNIT, 50 * UNIT);
    let mut car = Car::new(8 * UNIT, 100_000, 10 * UNIT, pos);
    car.direction = 25 * UNIT;
    let frame = car.draw(UNIT);
    assert_eq!(frame.len(), 20);
    let corner = |angle: i64, radius: i64, from: Vec2| {
        Vec2::new(
            from.x + cosine(angle) * radius / UNIT,
            from.y + sine(angle) * radius / UNIT,
        )
    };
    let shift = |p: Vec2, by: i64| Vec2::new(p.x + by, p.y + by);
    let body: Vec<Vec2> = [40, -20, 145, -125]
        .iter()
        .map(|a| corner(a * UNIT, 30 * UNIT, pos))
        .collect();
    let black = Color::new(0, 0, 0, UNIT);
    let gray = Color::new(510_000, 510_000, 510_000, UNIT);
    let red = Color::new(UNIT, 0, 0, UNIT);
    let mut expected = Vec::new();
    let mut quad = |p: &[Vec2], by: i64, color: Color| {
        expected.push(DrawCommand::Triangle {
            v1: shift(p[0], by),
            v2: shift(p[1], by),
            v3: shift(p[2], by),
            color,
        });
        expected.push(DrawCommand::Triangle {
            v1: shift(p[3], by),
            v2: shift(p[1], by),
            v3: shift(p[2], by),
            color,
        });
    };
    quad(&body, 3 * UNIT, black);
    for (hub, facing) in [(body[0], 25), (body[1], 25), (body[2], 10), (body[3], 10)] {
        let wheel: Vec<Vec2> = [30, -30, 160, -160]
            .iter()
            .map(|a| corner((facing + a) * UNIT, 8 * UNIT, hub))
            .collect();
        quad(&wheel, 5 * UNIT, black);
        quad(&wheel, 2 * UNIT, gray);
    }
    quad(&body, 0, red);
    assert_eq!(frame, expected);
}

#[test]
fn drawing_changes_nothing_but_the_pool() {
    let mut car = car();
    car.vel = 3 * UNIT;
    car.direction = 12 * UNIT;
    car.car_state = CarState::Braking;
    car.locked_heading = 7 * UNIT;
    car.emit(Emission::Burst, CALM);
    let before = format!("{:?}", (car.vel, car.angle, car.direction, car.back_direction, car.pos));
    let state = car.car_state;
    car.draw(50 * UNIT);
    let after = format!("{:?}", (car.vel, car.angle, car.direction, car.back_direction, car.pos));
    assert_eq!(before, after);
    assert_eq!(car.car_state, state);
    assert_eq!(car.locked_heading, 7 * UNIT);
    assert_eq!(car.max_vel, 8 * UNIT);
    assert!(car.particles.objects.is_empty());
    assert_eq!(car.particles.shape_type, Shapes::Hexagon);
}

#[test]
fn two_ticks_of_brake_at_speed_reach_braking_from_any_state() {
    for state in [CarState::Coasting, CarState::EnteringBrake, CarState::Braking] {
        let mut car = car();
        car.vel = 6 * UNIT;
        car.car_state = state;
        car.step(BRAKE, UNIT);
        assert_ne!(car.vel, 0);
        car.step(Controls { right: true, ..BRAKE }, UNIT / 2);
        assert_ne!(car.vel, 0);
        assert_eq!(car.car_state, CarState::Braking);
    }
}

#[test]
fn a_wrap_keeps_the_offsets_and_the_directions() {
    let mut car = car();
    car.vel = 5 * UNIT;
    car.angle = 359 * UNIT;
    car.direction = 389 * UNIT;
    car.back_direction = 149 * UNIT;
    car.step(Controls { right: true, ..THROTTLE }, UNIT);
    // the heading relaxed to 362 degrees and took the rear steering along
    // to 152; then the wrap took a turn off all three
    assert_eq!(car.angle, 2 * UNIT);
    assert_eq!(car.direction, 29 * UNIT);
    assert_eq!(car.back_direction, -208 * UNIT);
    assert_eq!((cosine(car.angle), sine(car.angle)), (cosine(362 * UNIT), sine(362 * UNIT)));
    assert_eq!(
        (cosine(car.direction), sine(car.direction)),
        (cosine(389 * UNIT), sine(389 * UNIT))
    );
    assert_eq!(
        (cosine(car.back_direction), sine(car.back_direction)),
        (cosine(152 * UNIT), sine(152 * UNIT))
    );
}

#[test]
fn straight_reverse_undoes_straight_forward() {
    let mut car = Car::new(8 * UNIT, 100_000, 37 * UNIT, Vec2::new(0, 0));
    car.vel = 4 * UNIT;
    car.step(THROTTLE, UNIT);
    let forward = car.pos;
    assert_eq!(forward, Vec2::polar(37 * UNIT, 4_100_000));
    let mut car = Car::new(8 * UNIT, 100_000, 37 * UNIT, Vec2::new(0, 0));
    car.vel = -4 * UNIT;
    car.step(REVERSE, UNIT);
    assert_eq!(car.pos, Vec2::new(-forward.x, -forward.y));
}

#[test]
fn the_body_of_a_new_car_lies_over_its_four_corners() {
    let mut car = Car::new(8 * UNIT, 100_000, 0, Vec2::new(400 * UNIT, 100 * UNIT));
    let frame = car.draw(UNIT);
    assert_eq!(frame.len(), 20);
    let near = |p: Vec2, x: f64, y: f64| {
        (p.x as f64 / UNIT as f64 - x).abs() < 0.01 && (p.y as f64 / UNIT as f64 - y).abs() < 0.01
    };
    let corners = [(425.98, 115.0), (425.98, 85.0), (378.79, 121.21), (378.79, 78.79)];
    for (at, shift, color) in [(18, 0.0, Color::red()), (0, 3.0, Color::black())] {
        match (frame[at], frame[at + 1]) {
            (
                DrawCommand::Triangle { v1: a, v2: b, v3: c, color: first },
                DrawCommand::Triangle { v1: d, v2: b2, v3: c2, color: second },
            ) => {
                assert_eq!((first, second), (color, color));
                assert_eq!((b, c), (b2, c2));
                for (p, (x, y)) in [a, b, c, d].iter().zip(corners.iter()) {
                    assert!(near(*p, x + shift, y + shift), "{:?} for {:?}", p, (x, y));
                }
            }
            other => panic!("unexpected requests {:?}", other),
        }
    }
    assert_eq!(
        frame[18],
        DrawCommand::Triangle {
            v1: Vec2::new(425_980_750, 115_000_000),
            v2: Vec2::new(425_980_750, 85_000_000),
            v3: Vec2::new(378_786_790, 121_213_210),
            color: Color::red(),
        }
    );
}

#[test]
fn smoke_leaves_behind_the_heading_of_the_tick() {
    let mut car = Car::new(8 * UNIT, 100_000, 0, Vec2::new(0, 0));
    car.vel = 6 * UNIT;
    car.direction = 30 * UNIT;
    let noise = [Sample { angle: 5 * UNIT, speed: 2 * UNIT, size: 9 * UNIT }; 5];
    car.update_with(BRAKE, UNIT, &noise);
    assert_eq!((car.angle, car.car_state), (3 * UNIT, CarState::EnteringBrake));
    car.update_with(BRAKE, UNIT, &noise);
    assert_eq!((car.angle, car.car_state), (5_700_000, CarState::Braking));
    assert_eq!(car.particles.objects.len(), 5);
    for p in car.particles.objects.iter() {
        assert_eq!(p.vel, Vec2::polar(5_700_000 - HALF_TURN + 5 * UNIT, 2 * UNIT));
    }
    car.update_with(BRAKE, UNIT, &noise);
    assert_eq!(car.angle, 8_130_000);
    assert_eq!(car.particles.objects.len(), 10);
    assert_eq!(car.particles.objects[0].vel, Vec2::polar(8_130_000 - HALF_TURN + 5 * UNIT, 2 * UNIT));
    // the tick that releases the brake scatters around the heading it ends with
    car.update_with(IDLE, UNIT, &noise);
    assert_eq!(car.car_state, CarState::Coasting);
    assert_eq!(car.particles.objects.len(), 11);
    assert_eq!(
        car.particles.objects[0].vel,
        Vec2::polar(car.angle - HALF_TURN + 5 * UNIT, 2 * UNIT)
    );
}
