use minigames::turret::ai::{BasicAI, Candidate, Controls, State};
use minigames::turret::base::Base;
use minigames::turret::fire_mode::FireMode;
use minigames::turret::geometry::Point;
use minigames::turret::gun::Gun;
use minigames::turret::sensor::{Sensor, HALF_FIELD_OF_VIEW};
use minigames::turret::{GunType, Turret, GUN_HEIGHT, GUN_WIDTH};

const FACING_NORTH: i32 = -90_000;
const HANDS_OFF: Controls = Controls { toggle_override: false, turn_left: false, turn_right: false };
const TOGGLE: Controls = Controls { toggle_override: true, turn_left: false, turn_right: false };

fn polar(from: Point, angle: i64, distance: i64) -> Point {
    let radians = (angle as f64 / 1000.0).to_radians();
    Point {
        x: (from.x as f64 + distance as f64 * radians.cos()).round() as i32,
        y: (from.y as f64 + distance as f64 * radians.sin()).round() as i32,
    }
}

/// The far corners of the sensor's triangle of view, right and left.
fn corners(sensor: &Sensor) -> (Point, Point) {
    let right = polar(sensor.position(), sensor.get_angle() + HALF_FIELD_OF_VIEW, sensor.view_reach());
    let left = polar(sensor.position(), sensor.get_angle() - HALF_FIELD_OF_VIEW, sensor.view_reach());
    (right, left)
}

/// The signed angle from where the gun points to its target, zero without a target.
fn angle_to_target(gun: &Gun) -> i32 {
    match gun.get_target_position() {
        None => 0,
        Some(target) => {
            let at = gun.position();
            let bearing = ((target.y - at.y) as f64).atan2((target.x - at.x) as f64).to_degrees();
            let mut error = bearing - gun.get_angle() as f64 / 1000.0;
            while error > 180.0 {
                error -= 360.0;
            }
            while error <= -180.0 {
                error += 360.0;
            }
            (error * 1000.0).round() as i32
        }
    }
}

fn monster(name: &str, x: i32, y: i32) -> Candidate {
    Candidate { identifier: name.to_owned(), position: Point { x, y } }
}

/// One whole tick of a turret, as the world around it runs it.
fn tick(turret: &mut Turret, candidates: &Vec<Candidate>, dt: u32, controls: Controls) {
    assert!(turret.can_update());
    let aim = angle_to_target(turret.gun());
    if turret.update(candidates, dt, controls, aim) {
        let (right, left) = corners(turret.sensor());
        turret.scan(candidates, right, left);
    }
}

fn turret(gun_type: GunType, fire_mode: FireMode) -> Turret {
    Turret::new("turret-1".to_owned(), 0, 0, FACING_NORTH, gun_type, fire_mode)
}

#[test]
fn new_turret_searches() {
    let turret = turret(GunType::Missile, FireMode::Normal);
    assert_eq!(turret.state(), State::Searching);
    assert_eq!(turret.get_identifier(), &"turret-1".to_owned());
    assert_eq!(*turret.get_gun_type(), GunType::Missile);
    assert_eq!(turret.get_cannon_angle(), -90_000);
    assert_eq!(turret.get_target_position(), None);
    assert!(!turret.is_firing());
    assert_eq!(*turret.base(), Base::new(0, 0));
    assert_eq!(turret.base().y(), 0);
    assert_eq!(turret.gun().height(), GUN_HEIGHT);
    assert_eq!((GUN_WIDTH, GUN_HEIGHT), (2_000, 12_000));
    assert_eq!(turret.gun().position(), Point { x: 0, y: 0 });
    assert_eq!(turret.sensor().position(), Point { x: 0, y: 0 });
    assert_eq!(turret.sensor().get_angle(), -90_000);
}

#[test]
fn searching_turret_sweeps_gun_and_sensor() {
    let mut turret = turret(GunType::Missile, FireMode::Normal);
    let nobody: Vec<Candidate> = Vec::new();
    for n in 1..=10i64 {
        tick(&mut turret, &nobody, 16, HANDS_OFF);
        assert_eq!(turret.state(), State::Searching);
        assert_eq!(turret.get_cannon_angle(), -90_000 - 720 * n);
        assert_eq!(turret.sensor().get_angle(), -90_000 - 720 * n);
        assert!(!turret.is_firing());
    }
}

/// A candidate shows up in the cone in the fifth tick and is gone in the tenth.
#[test]
fn engages_when_a_candidate_shows_up_and_stands_by_when_it_is_gone() {
    let mut turret = turret(GunType::Missile, FireMode::Normal);
    let nobody: Vec<Candidate> = Vec::new();
    let somebody = vec![monster("monster-1", 0, -100_000)];

    for _ in 1..=4 {
        tick(&mut turret, &nobody, 16, HANDS_OFF);
        assert_eq!(turret.state(), State::Searching);
        assert_eq!(turret.get_target_position(), None);
    }
    for _ in 5..=9 {
        tick(&mut turret, &somebody, 16, HANDS_OFF);
        assert_eq!(turret.state(), State::Engaging);
        assert_eq!(turret.get_target_position(), Some(Point { x: 0, y: -100_000 }));
        assert_eq!(turret.gun().get_target_identifier(), Some("monster-1".to_owned()));
    }
    tick(&mut turret, &nobody, 16, HANDS_OFF);
    assert_eq!(turret.state(), State::Searching);
    assert_eq!(turret.get_target_position(), None);
    assert_eq!(turret.gun().get_target_identifier(), None);
    assert!(!turret.is_firing());
}

#[test]
fn engaging_turret_leaves_the_sensor_where_it_is_and_slews_the_gun() {
    let mut turret = turret(GunType::Laser, FireMode::Normal);
    let somebody = vec![monster("monster-1", 0, -100_000)];
    tick(&mut turret, &somebody, 500, HANDS_OFF);
    assert_eq!(turret.state(), State::Engaging);
    assert_eq!(turret.sensor().get_angle(), -112_500);
    assert_eq!(turret.get_cannon_angle(), -112_500);
    assert!(!turret.is_firing());

    tick(&mut turret, &somebody, 100, HANDS_OFF);
    assert_eq!(turret.sensor().get_angle(), -112_500);
    assert_eq!(turret.get_cannon_angle(), -108_000);
    assert!(!turret.is_firing());

    for _ in 0..3 {
        tick(&mut turret, &somebody, 100, HANDS_OFF);
        assert!(!turret.is_firing());
    }
    assert_eq!(turret.get_cannon_angle(), -94_500);
    // The step that closes in fires.
    tick(&mut turret, &somebody, 100, HANDS_OFF);
    assert_eq!(turret.get_cannon_angle(), -90_000);
    assert!(turret.is_firing());
    tick(&mut turret, &somebody, 100, HANDS_OFF);
    assert_eq!(turret.get_cannon_angle(), -90_000);
    assert!(turret.is_firing());
}

#[test]
fn takes_the_first_candidate_in_the_list_that_it_sees() {
    let mut turret = turret(GunType::Missile, FireMode::Normal);
    let crowd = vec![
        monster("behind", 0, 100_000),
        monster("far", 10_000, -200_000),
        monster("near", 0, -20_000),
    ];
    tick(&mut turret, &crowd, 16, HANDS_OFF);
    assert_eq!(turret.state(), State::Engaging);
    assert_eq!(turret.gun().get_target_identifier(), Some("far".to_owned()));
    assert_eq!(turret.get_target_position(), Some(Point { x: 10_000, y: -200_000 }));
}

#[test]
fn sees_nobody_outside_the_cone() {
    let mut turret = turret(GunType::Missile, FireMode::Normal);
    let crowd = vec![monster("behind", 0, 100_000), monster("beside", 200_000, 0)];
    for _ in 0..50 {
        tick(&mut turret, &crowd, 16, HANDS_OFF);
        assert_eq!(turret.state(), State::Searching);
    }
}

#[test]
fn follows_its_target_by_name() {
    let mut turret = turret(GunType::Missile, FireMode::Normal);
    tick(&mut turret, &vec![monster("monster-1", 0, -100_000)], 16, HANDS_OFF);
    assert_eq!(turret.state(), State::Engaging);

    let moved = vec![
        monster("monster-2", 0, -50_000),
        monster("monster-1", 5_000, -90_000),
        monster("monster-1", 7_000, -80_000),
    ];
    tick(&mut turret, &moved, 16, HANDS_OFF);
    assert_eq!(turret.state(), State::Engaging);
    assert_eq!(turret.gun().get_target_identifier(), Some("monster-1".to_owned()));
    assert_eq!(turret.get_target_position(), Some(Point { x: 5_000, y: -90_000 }));
}

#[test]
fn lets_go_of_a_target_that_has_passed_the_baseline() {
    let mut turret = Turret::new("t".to_owned(), 0, 500, FACING_NORTH, GunType::Missile, FireMode::Normal);
    tick(&mut turret, &vec![monster("monster-1", 0, -100_000)], 16, HANDS_OFF);
    assert_eq!(turret.state(), State::Engaging);

    // On the baseline still counts as in the zone.
    tick(&mut turret, &vec![monster("monster-1", 0, 500)], 16, HANDS_OFF);
    assert_eq!(turret.state(), State::Engaging);
    assert_eq!(turret.get_target_position(), Some(Point { x: 0, y: 500 }));

    // Of two candidates of that name, the one in the zone is taken.
    tick(
        &mut turret,
        &vec![monster("monster-1", 9, 501), monster("monster-1", 3, 400)],
        16,
        HANDS_OFF,
    );
    assert_eq!(turret.state(), State::Engaging);
    assert_eq!(turret.get_target_position(), Some(Point { x: 3, y: 400 }));

    tick(&mut turret, &vec![monster("monster-1", 0, 501)], 16, HANDS_OFF);
    assert_eq!(turret.state(), State::Searching);
    assert_eq!(turret.get_target_position(), None);
}

#[test]
fn engaging_turret_does_not_heed_the_override_switch() {
    let mut turret = turret(GunType::Missile, FireMode::Normal);
    let somebody = vec![monster("monster-1", 0, -100_000)];
    tick(&mut turret, &somebody, 16, HANDS_OFF);
    assert_eq!(turret.state(), State::Engaging);
    tick(&mut turret, &somebody, 16, TOGGLE);
    assert_eq!(turret.state(), State::Engaging);
    assert_eq!(turret.gun().get_target_identifier(), Some("monster-1".to_owned()));
}

#[test]
fn override_switch_hands_a_searching_turret_to_the_operator() {
    let mut turret = turret(GunType::Missile, FireMode::Normal);
    let somebody = vec![monster("monster-1", 0, -100_000)];
    tick(&mut turret, &somebody, 16, TOGGLE);
    assert_eq!(turret.state(), State::ManualOverride);
    // Nothing moved and nothing was taken in that tick.
    assert_eq!(turret.get_cannon_angle(), -90_000);
    assert_eq!(turret.sensor().get_angle(), -90_000);
    assert_eq!(turret.get_target_position(), None);
}

#[test]
fn operator_turns_the_gun() {
    let mut turret = turret(GunType::Missile, FireMode::Normal);
    let nobody: Vec<Candidate> = Vec::new();
    tick(&mut turret, &nobody, 16, TOGGLE);

    let left = Controls { toggle_override: false, turn_left: true, turn_right: false };
    let right = Controls { toggle_override: false, turn_left: false, turn_right: true };
    let both = Controls { toggle_override: false, turn_left: true, turn_right: true };

    tick(&mut turret, &nobody, 100, left);
    assert_eq!(turret.get_cannon_angle(), -94_500);
    tick(&mut turret, &nobody, 200, right);
    assert_eq!(turret.get_cannon_angle(), -85_500);
    tick(&mut turret, &nobody, 1000, both);
    assert_eq!(turret.get_cannon_angle(), -85_500);
    tick(&mut turret, &nobody, 1000, HANDS_OFF);
    assert_eq!(turret.get_cannon_angle(), -85_500);
    assert_eq!(turret.sensor().get_angle(), -90_000);
    assert_eq!(turret.state(), State::ManualOverride);
    assert!(!turret.is_firing());
}

#[test]
fn nothing_is_acquired_while_the_operator_has_the_turret() {
    let mut turret = turret(GunType::Laser, FireMode::Normal);
    let somebody = vec![monster("monster-1", 0, -100_000)];
    tick(&mut turret, &somebody, 16, TOGGLE);
    let (right, left) = corners(turret.sensor());
    assert!(turret.sensor().sees(right, left, somebody[0].position));

    let keys = [
        HANDS_OFF,
        Controls { toggle_override: false, turn_left: true, turn_right: false },
        Controls { toggle_override: false, turn_left: false, turn_right: true },
    ];
    for n in 0..300 {
        let scan_due = turret.update(&somebody, 16, keys[n % 3], 0);
        assert!(!scan_due);
        // Even a look that the world takes unasked finds nothing.
        let (right, left) = corners(turret.sensor());
        turret.scan(&somebody, right, left);
        assert_eq!(turret.state(), State::ManualOverride);
        assert_eq!(turret.get_target_position(), None);
        assert!(!turret.is_firing());
    }
}

#[test]
fn override_switch_gives_the_turret_back() {
    let mut turret = turret(GunType::Missile, FireMode::Normal);
    let somebody = vec![monster("monster-1", 0, -100_000)];
    tick(&mut turret, &somebody, 16, TOGGLE);
    assert_eq!(turret.state(), State::ManualOverride);

    // The keys still count in the tick that gives the turret back, and nothing is taken
    // in it.
    let back = Controls { toggle_override: true, turn_left: true, turn_right: false };
    let scan_due = turret.update(&somebody, 100, back, 0);
    assert!(!scan_due);
    let (right, left) = corners(turret.sensor());
    turret.scan(&somebody, right, left);
    assert_eq!(turret.state(), State::Searching);
    assert_eq!(turret.get_cannon_angle(), -94_500);
    assert_eq!(turret.get_target_position(), None);

    tick(&mut turret, &somebody, 16, HANDS_OFF);
    assert_eq!(turret.state(), State::Engaging);
}

#[test]
fn gun_swept_back_into_its_range_after_the_operator_left_it_outside() {
    let mut turret = turret(GunType::Missile, FireMode::Normal);
    let nobody: Vec<Candidate> = Vec::new();
    tick(&mut turret, &nobody, 16, TOGGLE);
    let right = Controls { toggle_override: false, turn_left: false, turn_right: true };
    for _ in 0..4 {
        tick(&mut turret, &nobody, 1000, right);
    }
    assert_eq!(turret.get_cannon_angle(), 90_000);
    tick(&mut turret, &nobody, 16, TOGGLE);
    assert_eq!(turret.state(), State::Searching);
    let mut seen: Vec<i64> = Vec::new();
    for _ in 0..4 {
        tick(&mut turret, &nobody, 1000, HANDS_OFF);
        seen.push(turret.get_cannon_angle());
    }
    assert_eq!(seen, vec![45_000, 0, -45_000, -90_000]);
}

#[test]
fn turret_can_update_while_its_gun_is_in_range() {
    let mut turret = turret(GunType::Missile, FireMode::Normal);
    assert!(turret.can_update());
    assert!(turret.is_steerable());
    let somebody = vec![monster("monster-1", 0, -100_000)];
    tick(&mut turret, &somebody, 16, HANDS_OFF);
    assert_eq!(turret.state(), State::Engaging);
    assert!(turret.can_update());
    tick(&mut turret, &Vec::new(), 16, HANDS_OFF);
    tick(&mut turret, &Vec::new(), 16, TOGGLE);
    assert_eq!(turret.state(), State::ManualOverride);
    assert!(turret.can_update());
}

#[test]
fn scan_does_nothing_unless_it_is_due() {
    let mut turret = turret(GunType::Missile, FireMode::Normal);
    let somebody = vec![monster("monster-1", 0, -100_000)];
    let (right, left) = corners(turret.sensor());
    // No tick is under way.
    turret.scan(&somebody, right, left);
    assert_eq!(turret.state(), State::Searching);
    assert_eq!(turret.get_target_position(), None);

    // A look is due once per tick.
    assert!(turret.update(&Vec::new(), 16, HANDS_OFF, 0));
    let (right, left) = corners(turret.sensor());
    turret.scan(&Vec::new(), right, left);
    turret.scan(&somebody, right, left);
    assert_eq!(turret.state(), State::Searching);
}

#[test]
fn controller_drives_the_parts_it_is_given() {
    let base = Base::new(0, 0);
    let mut sensor = Sensor::new(0, 0, FACING_NORTH);
    let mut gun = Gun::new(0, 0, GUN_WIDTH, GUN_HEIGHT, FACING_NORTH, GunType::Missile, FireMode::Burst);
    let mut ai = BasicAI::new();
    assert_eq!(ai.state(), State::Searching);
    assert!(!ai.scan_due());

    let somebody = vec![monster("monster-1", 0, -100_000)];
    assert!(ai.update(&base, &mut sensor, &mut gun, &somebody, 16, HANDS_OFF, 0));
    assert!(ai.scan_due());
    assert_eq!(sensor.get_angle(), -90_720);
    assert_eq!(gun.get_angle(), -90_720);
    let (right, left) = corners(&sensor);
    assert_eq!(BasicAI::find_visible(&somebody, &sensor, right, left), Some(0));
    assert!(BasicAI::sees_hostile_targets(&sensor, right, left, &somebody[0]));
    ai.scan(&sensor, &mut gun, &somebody, right, left);
    assert!(!ai.scan_due());
    assert_eq!(ai.state(), State::Engaging);
    assert_eq!(gun.get_target_identifier(), Some("monster-1".to_owned()));

    ai.stand_by(&mut gun);
    assert_eq!(ai.state(), State::Searching);
    assert_eq!(gun.get_target_identifier(), None);

    ai.acquire_target(&mut gun, &"monster-2".to_owned(), Point { x: 1, y: 2 });
    assert_eq!(ai.state(), State::Engaging);
    assert_eq!(gun.get_target_position(), Some(Point { x: 1, y: 2 }));
}

#[test]
fn engaging_controller_without_a_target_stands_by() {
    let base = Base::new(0, 0);
    let mut sensor = Sensor::new(0, 0, FACING_NORTH);
    let mut gun = Gun::new(0, 0, GUN_WIDTH, GUN_HEIGHT, FACING_NORTH, GunType::Missile, FireMode::Normal);
    let mut ai = BasicAI::new();
    ai.acquire_target(&mut gun, &"monster-1".to_owned(), Point { x: 0, y: -1 });
    gun.release_target();
    assert_eq!(ai.state(), State::Engaging);
    let somebody = vec![monster("monster-1", 0, -100_000)];
    assert!(!ai.update(&base, &mut sensor, &mut gun, &somebody, 16, HANDS_OFF, 0));
    assert_eq!(ai.state(), State::Searching);
    assert_eq!(gun.get_target_identifier(), None);
}

#[test]
fn find_target_takes_the_first_of_that_name_in_the_zone() {
    let base = Base::new(0, 100);
    let crowd = vec![
        monster("a", 0, 0),
        monster("b", 0, 101),
        monster("b", 1, 100),
        monster("b", 2, 99),
    ];
    assert_eq!(BasicAI::find_target(&crowd, &"b".to_owned(), &base), Some(2));
    assert_eq!(BasicAI::find_target(&crowd, &"a".to_owned(), &base), Some(0));
    assert_eq!(BasicAI::find_target(&crowd, &"c".to_owned(), &base), None);
    assert_eq!(BasicAI::find_target(&Vec::new(), &"a".to_owned(), &base), None);
    assert!(base.covers(Point { x: 5, y: 100 }));
    assert!(!base.covers(Point { x: 5, y: 101 }));
}
