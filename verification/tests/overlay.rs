use rally2d::entities::Car;
use rally2d::fixed::UNIT;
use rally2d::geometry::Vec2;
use rally2d::noise::{Emission, Sample};
use rally2d::overlay::{layout, telemetry, Telemetry};

#[test]
fn telemetry_shows_heading_steering_speed_and_particle_count() {
    let mut car = Car::new(8 * UNIT, 100_000, 45 * UNIT, Vec2::new(0, 0));
    car.vel = 3 * UNIT;
    car.direction = 50 * UNIT;
    car.emit(Emission::Trail, Sample { angle: 0, speed: UNIT, size: 8 * UNIT });
    car.emit(Emission::Trail, Sample { angle: 0, speed: UNIT, size: 8 * UNIT });
    assert_eq!(
        telemetry(&car),
        Telemetry { angle: 45 * UNIT, direction: 50 * UNIT, vel: 3 * UNIT, particles: 2 }
    );
}

#[test]
fn lines_go_one_below_the_other_at_the_left_margin() {
    let origins = layout(5, 800 * UNIT, 600 * UNIT);
    assert_eq!(
        origins,
        vec![
            Vec2::new(5 * UNIT, 14 * UNIT),
            Vec2::new(5 * UNIT, 26 * UNIT),
            Vec2::new(5 * UNIT, 38 * UNIT),
            Vec2::new(5 * UNIT, 50 * UNIT),
            Vec2::new(5 * UNIT, 62 * UNIT),
        ]
    );
}

#[test]
fn no_lines_need_no_room() {
    assert!(layout(0, 800 * UNIT, 600 * UNIT).is_empty());
}

#[test]
fn a_line_in_the_bottom_margin_moves_the_column() {
    // the floor is at 50 - 24 = 26: the third line and each after it shift
    let origins = layout(4, 800 * UNIT, 50 * UNIT);
    assert_eq!(
        origins,
        vec![
            Vec2::new(5 * UNIT, 14 * UNIT),
            Vec2::new(5 * UNIT, 26 * UNIT),
            Vec2::new(605 * UNIT, 38 * UNIT),
            Vec2::new(1_205 * UNIT, 50 * UNIT),
        ]
    );
}

#[test]
fn a_layout_takes_any_screen() {
    let origins = layout(3, i64::MAX, i64::MIN);
    assert_eq!(origins.len(), 3);
    assert_eq!(origins[2], Vec2::new(i64::MAX, 38 * UNIT));
    let origins = layout(2, i64::MIN, 0);
    assert_eq!(origins[1], Vec2::new(i64::MIN, 26 * UNIT));
}
