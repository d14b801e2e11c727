use minigames::turret::geometry::Point;
use minigames::turret::sensor::{Sensor, HALF_FIELD_OF_VIEW, SENSOR_RADIUS, VIEW_MARGIN};

const FACING_NORTH: i32 = -90_000;

/// The point `distance` thousandths of a unit from `from` in the direction `angle`,
/// thousandths of a degree.
fn polar(from: Point, angle: i64, distance: i64) -> Point {
    let radians = (angle as f64 / 1000.0).to_radians();
    Point {
        x: (from.x as f64 + distance as f64 * radians.cos()).round() as i32,
        y: (from.y as f64 + distance as f64 * radians.sin()).round() as i32,
    }
}

/// The far corners of the triangle of view, right and left.
fn corners(sensor: &Sensor) -> (Point, Point) {
    let right = polar(sensor.position(), sensor.get_angle() + HALF_FIELD_OF_VIEW, sensor.view_reach());
    let left = polar(sensor.position(), sensor.get_angle() - HALF_FIELD_OF_VIEW, sensor.view_reach());
    (right, left)
}

fn sees_at(sensor: &Sensor, angle: i64, distance: i64) -> bool {
    let (right, left) = corners(sensor);
    sensor.sees(right, left, polar(sensor.position(), angle, distance))
}

#[test]
fn new_sensor_faces_its_base_angle() {
    let sensor = Sensor::new(400_000, 300_000, FACING_NORTH);
    assert_eq!(sensor.get_angle(), -90_000);
    assert_eq!(sensor.position(), Point { x: 400_000, y: 300_000 });
    assert_eq!(sensor.radius(), 240_000);
    assert_eq!(SENSOR_RADIUS, 240_000);
    assert_eq!(VIEW_MARGIN, 10_000);
    assert_eq!(HALF_FIELD_OF_VIEW, 30_000);
    assert_eq!(sensor.view_reach(), 250_000);
    assert!(sensor.is_steerable());
}

#[test]
fn sensor_sweeps_left_first_at_45_degrees_a_second() {
    let mut sensor = Sensor::new(0, 0, FACING_NORTH);
    sensor.update(16);
    assert_eq!(sensor.get_angle(), -90_720);
    sensor.update(1000);
    assert_eq!(sensor.get_angle(), -135_720);
    sensor.update(0);
    assert_eq!(sensor.get_angle(), -135_720);
}

#[test]
fn sensor_turns_back_after_passing_a_boundary() {
    let mut sensor = Sensor::new(0, 0, FACING_NORTH);
    let mut seen: Vec<i64> = Vec::new();
    for _ in 0..8 {
        sensor.update(1000);
        seen.push(sensor.get_angle());
    }
    // Boundaries at -150 and -30 degrees; a step is 45 degrees.
    assert_eq!(
        seen,
        vec![-135_000, -180_000, -135_000, -90_000, -45_000, 0, -45_000, -90_000]
    );
}

#[test]
fn sensor_turns_back_when_it_stands_on_a_boundary() {
    let mut sensor = Sensor::new(0, 0, 0);
    sensor.rotate_towards(-60_000, 2000);
    assert_eq!(sensor.get_angle(), -60_000);
    sensor.update(10);
    assert_eq!(sensor.get_angle(), -59_550);

    let mut sensor = Sensor::new(0, 0, 0);
    sensor.rotate_towards(60_000, 2000);
    assert_eq!(sensor.get_angle(), 60_000);
    sensor.update(10);
    assert_eq!(sensor.get_angle(), 59_550);
}

#[test]
fn sensor_just_short_of_a_boundary_steps_over_it() {
    let mut sensor = Sensor::new(0, 0, 0);
    sensor.rotate_towards(-59_999, 2000);
    sensor.update(10);
    assert_eq!(sensor.get_angle(), -60_449);
    sensor.update(10);
    assert_eq!(sensor.get_angle(), -59_999);
}

#[test]
fn sweep_stays_within_one_step_of_the_range() {
    let base: i32 = 17_000;
    let mut sensor = Sensor::new(0, 0, base);
    let mut seed: u32 = 12345;
    let mut longest: i64 = 0;
    for _ in 0..200_000 {
        seed = seed.wrapping_mul(1_664_525).wrapping_add(1_013_904_223);
        let dt = (seed >> 16) % 3000;
        longest = longest.max(dt as i64);
        sensor.update(dt);
        let angle = sensor.get_angle();
        assert!(angle >= base as i64 - 60_000 - 45 * longest);
        assert!(angle <= base as i64 + 60_000 + 45 * longest);
    }
}

#[test]
fn sweep_with_even_ticks_overshoots_by_less_than_a_tick() {
    let mut sensor = Sensor::new(0, 0, 0);
    for _ in 0..100_000 {
        sensor.update(17);
        assert!(sensor.get_angle() > -60_000 - 45 * 17);
        assert!(sensor.get_angle() < 60_000 + 45 * 17);
    }
}

#[test]
fn rotate_towards_takes_a_full_step_towards_the_target() {
    let mut sensor = Sensor::new(0, 0, 0);
    sensor.rotate_towards(1000, 10);
    assert_eq!(sensor.get_angle(), 450);
    sensor.rotate_towards(-1450, 10);
    assert_eq!(sensor.get_angle(), 0);
    sensor.rotate_towards(-180_000, 1000);
    assert_eq!(sensor.get_angle(), -45_000);
}

#[test]
fn rotate_towards_does_not_pass_the_target() {
    let mut sensor = Sensor::new(0, 0, 0);
    sensor.rotate_towards(300, 10);
    assert_eq!(sensor.get_angle(), 300);
    sensor.rotate_towards(-450, 10);
    assert_eq!(sensor.get_angle(), -150);
    sensor.rotate_towards(0, 10);
    assert_eq!(sensor.get_angle(), -150);
    sensor.rotate_towards(5000, 0);
    assert_eq!(sensor.get_angle(), -150);
}

#[test]
fn rotate_towards_sets_the_way_of_the_next_sweep() {
    let mut sensor = Sensor::new(0, 0, 0);
    sensor.rotate_towards(100, 10);
    sensor.update(10);
    assert_eq!(sensor.get_angle(), 550);
    sensor.rotate_towards(-100, 10);
    sensor.update(10);
    assert_eq!(sensor.get_angle(), 0);
    // A target dead ahead counts as to the right.
    sensor.rotate_towards(0, 10);
    sensor.update(10);
    assert_eq!(sensor.get_angle(), 450);
}

#[test]
fn rotate_towards_reaches_a_target_that_stays_put() {
    let mut sensor = Sensor::new(0, 0, 0);
    let bearing: i64 = 100_000;
    let mut ticks = 0;
    let mut last = bearing - sensor.get_angle();
    while sensor.get_angle() != bearing {
        let error = (bearing - sensor.get_angle()) as i32;
        sensor.rotate_towards(error, 100);
        ticks += 1;
        let now = bearing - sensor.get_angle();
        assert!(now.abs() <= last.abs());
        assert_eq!(now, (100_000 - 4500 * ticks as i64).max(0));
        last = now;
    }
    // 100 degrees at 4.5 degrees a tick.
    assert_eq!(ticks, 23);
}

#[test]
fn sees_the_middle_of_the_cone() {
    let sensor = Sensor::new(400_000, 300_000, FACING_NORTH);
    assert!(sees_at(&sensor, -90_000, 120_000));
    assert!(sees_at(&sensor, -90_000, 1_000));
    assert!(sees_at(&sensor, -90_000 + 29_000, 120_000));
    assert!(sees_at(&sensor, -90_000 - 29_000, 120_000));
}

#[test]
fn does_not_see_past_the_edges_of_the_cone() {
    let sensor = Sensor::new(400_000, 300_000, FACING_NORTH);
    assert!(!sees_at(&sensor, -90_000 + 31_000, 120_000));
    assert!(!sees_at(&sensor, -90_000 - 31_000, 120_000));
    assert!(!sees_at(&sensor, 90_000, 120_000));
}

#[test]
fn does_not_see_beyond_its_reach() {
    let sensor = Sensor::new(400_000, 300_000, FACING_NORTH);
    assert!(!sees_at(&sensor, -90_000, 251_000));
    assert!(!sees_at(&sensor, -90_000, 1_000_000));
    // The far side of the triangle is the straight line between its far corners: on the
    // axis it lies at 250 * cos(30 degrees) = 216.5 units.
    assert!(sees_at(&sensor, -90_000, 216_000));
    assert!(!sees_at(&sensor, -90_000, 217_000));
}

#[test]
fn sees_its_own_position_and_the_far_corners() {
    let sensor = Sensor::new(400_000, 300_000, FACING_NORTH);
    let (right, left) = corners(&sensor);
    assert!(sensor.sees(right, left, sensor.position()));
    assert!(sensor.sees(right, left, right));
    assert!(sensor.sees(right, left, left));
}

#[test]
fn the_cone_follows_the_sweep() {
    let mut sensor = Sensor::new(0, 0, 0);
    // 20 degrees to the left of the axis, and 40.
    assert!(sees_at(&sensor, -20_000, 100_000));
    assert!(!sees_at(&sensor, -40_000, 100_000));
    sensor.update(1000);
    assert_eq!(sensor.get_angle(), -45_000);
    assert!(sees_at(&sensor, -40_000, 100_000));
    assert!(sees_at(&sensor, -20_000, 100_000));
    assert!(!sees_at(&sensor, -10_000, 100_000));
}

#[test]
fn sees_goes_by_the_corners_it_is_given() {
    let sensor = Sensor::new(0, 0, 0);
    let target = Point { x: 5_000, y: 1_000 };
    assert!(sensor.sees(Point { x: 10_000, y: 10_000 }, Point { x: 10_000, y: -10_000 }, target));
    assert!(!sensor.sees(Point { x: -10_000, y: 10_000 }, Point { x: -10_000, y: -10_000 }, target));
}
