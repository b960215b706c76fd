use tnua_core::data_for_backends::{
    TnuaProximitySensor, TnuaProximitySensorOutput, TnuaRigidBodyTracker,
};
use tnua_core::vector::Vector3;
use tnua_core::walk::{float_spring, ground_hit, TnuaBuiltinWalk, TnuaBuiltinWalkState};

fn ground(proximity: i32) -> TnuaProximitySensorOutput {
    TnuaProximitySensorOutput {
        entity: 7,
        proximity,
        normal: Vector3::new(0, 1000, 0),
        entity_linvel: Vector3::zero(),
        entity_angvel: Vector3::zero(),
    }
}

fn sensing(output: Option<TnuaProximitySensorOutput>) -> TnuaProximitySensor {
    TnuaProximitySensor { cast_range: 3000, output, ..TnuaProximitySensor::default() }
}

fn walker() -> TnuaBuiltinWalk {
    TnuaBuiltinWalk { float_height: 2000, ..TnuaBuiltinWalk::default() }
}

fn moving(velocity: Vector3) -> TnuaRigidBodyTracker {
    TnuaRigidBodyTracker { velocity, ..TnuaRigidBodyTracker::default() }
}

#[test]
fn walk_defaults() {
    let walk = TnuaBuiltinWalk::default();
    assert_eq!(walk.desired_velocity, Vector3::zero());
    assert_eq!(walk.desired_turn, 0);
    assert_eq!(walk.float_height, 0);
    assert_eq!(walk.cling_distance, 1000);
    assert_eq!(walk.spring_frequency, 20_000);
    assert_eq!(walk.acceleration, 60_000);
    assert_eq!(walk.air_acceleration, 20_000);
    assert_eq!(walk.max_slope_cosine, 0);
    assert!(walk.turning_angvel.is_none());
    let state = TnuaBuiltinWalkState::default();
    assert!(state.airborne);
    assert!(state.standing_on.is_none());
    assert_eq!(state.standing_offset, 0);
    assert_eq!(state.effective_velocity, Vector3::zero());
}

#[test]
fn spring_formula() {
    // 20^2 * 0.1 - 2 * 20 * 0 = 40
    assert_eq!(float_spring(20_000, 100, 0), 40_000);
    // 20^2 * 0.1 - 2 * 20 * 0.5 = 20
    assert_eq!(float_spring(20_000, 100, 500), 20_000);
    // 20^2 * -0.1 - 2 * 20 * -0.5 = -20
    assert_eq!(float_spring(20_000, -100, -500), -20_000);
    // 1.5^2 * 0.001 = 0.00225
    assert_eq!(float_spring(1500, 1, 0), 2);
    assert_eq!(float_spring(1500, -1, 0), -2);
    assert_eq!(float_spring(i32::MAX, i32::MAX, 0), i32::MAX);
    assert_eq!(float_spring(i32::MAX, i32::MIN, 0), i32::MIN);
}

#[test]
fn spring_is_zero_in_the_steady_state() {
    for frequency in [0, 1, 20_000, i32::MAX, i32::MIN] {
        assert_eq!(float_spring(frequency, 0, 0), 0);
    }
    let walk = walker();
    let at_rest = TnuaRigidBodyTracker::default();
    assert_eq!(walk.vertical_correction(&at_rest, &sensing(Some(ground(2000))), 0), 0);
    assert_eq!(walk.apply(&at_rest, &sensing(Some(ground(2000))), 16).vertical, 0);
}

#[test]
fn a_body_below_the_float_height_is_pushed_up() {
    let walk = walker();
    let at_rest = TnuaRigidBodyTracker::default();
    assert_eq!(walk.vertical_correction(&at_rest, &sensing(Some(ground(1900))), 0), 40_000);
    assert_eq!(walk.vertical_correction(&at_rest, &sensing(Some(ground(1999))), 0), 400);
    assert_eq!(walk.vertical_correction(&at_rest, &sensing(Some(ground(0))), 0), 800_000);
}

#[test]
fn a_body_above_the_float_height_is_pulled_down() {
    let walk = walker();
    let at_rest = TnuaRigidBodyTracker::default();
    assert_eq!(walk.vertical_correction(&at_rest, &sensing(Some(ground(2100))), 0), -40_000);
}

#[test]
fn the_spring_is_damped_by_the_vertical_velocity() {
    let walk = walker();
    let rising = moving(Vector3::new(300, 500, -200));
    assert_eq!(walk.vertical_correction(&rising, &sensing(Some(ground(1900))), 0), 20_000);
    let sinking = moving(Vector3::new(0, -500, 0));
    assert_eq!(walk.vertical_correction(&sinking, &sensing(Some(ground(1900))), 0), 60_000);
}

#[test]
fn the_velocity_counts_relative_to_the_ground() {
    let walk = walker();
    let mut lift = ground(1900);
    lift.entity_linvel = Vector3::new(0, 500, 0);
    let riding = moving(Vector3::new(0, 500, 0));
    assert_eq!(walk.vertical_correction(&riding, &sensing(Some(lift)), 0), 40_000);
}

#[test]
fn a_float_offset_moves_the_rest_position() {
    let walk = walker();
    let at_rest = TnuaRigidBodyTracker::default();
    assert_eq!(walk.vertical_correction(&at_rest, &sensing(Some(ground(1100))), -900), 0);
    assert_eq!(walk.vertical_correction(&at_rest, &sensing(Some(ground(2000))), -900), -360_000);
}

#[test]
fn no_floor_correction_in_the_air() {
    let walk = walker();
    let falling = moving(Vector3::new(0, -9000, 0));
    assert_eq!(walk.vertical_correction(&falling, &sensing(None), 0), 0);
    assert_eq!(walk.apply(&falling, &sensing(None), 16).vertical, 0);
    // A hit beyond the range is no ground.
    assert_eq!(walk.vertical_correction(&falling, &sensing(Some(ground(3001))), 0), 0);
    assert!(ground_hit(&sensing(Some(ground(3001)))).is_none());
    assert!(ground_hit(&sensing(Some(ground(3000)))).is_some());
}

#[test]
fn the_basis_reports_what_it_stands_on() {
    let walk = walker();
    let mut belt = ground(1900);
    belt.entity_linvel = Vector3::new(1000, 0, 0);
    let state = walk.sense(&moving(Vector3::new(1500, 0, 0)), &sensing(Some(belt)));
    assert!(!state.airborne);
    assert_eq!(state.standing_on, Some(7));
    assert_eq!(state.standing_offset, 100);
    assert_eq!(state.effective_velocity, Vector3::new(500, 0, 0));

    let state = walk.sense(&moving(Vector3::new(1500, -10, 0)), &sensing(None));
    assert!(state.airborne);
    assert_eq!(state.standing_on, None);
    assert_eq!(state.standing_offset, 0);
    assert_eq!(state.effective_velocity, Vector3::new(1500, -10, 0));
}

#[test]
fn horizontal_acceleration_reaches_the_desired_velocity_within_the_tick() {
    let walk = TnuaBuiltinWalk { desired_velocity: Vector3::new(500, 0, 0), ..walker() };
    let tracker = moving(Vector3::new(100, 0, 0));
    let acceleration = walk.horizontal_correction(&tracker, &sensing(Some(ground(2000))), 16);
    assert_eq!(acceleration, Vector3::new(25_000, 0, 0));
}

#[test]
fn horizontal_acceleration_is_bounded_on_the_ground() {
    let walk = TnuaBuiltinWalk { desired_velocity: Vector3::new(5000, 0, 0), ..walker() };
    let at_rest = TnuaRigidBodyTracker::default();
    let acceleration = walk.horizontal_correction(&at_rest, &sensing(Some(ground(2000))), 16);
    assert_eq!(acceleration, Vector3::new(60_000, 0, 0));
}

#[test]
fn horizontal_acceleration_is_bounded_in_the_air() {
    let walk = TnuaBuiltinWalk { desired_velocity: Vector3::new(5000, 0, 0), ..walker() };
    let at_rest = TnuaRigidBodyTracker::default();
    let acceleration = walk.horizontal_correction(&at_rest, &sensing(None), 16);
    assert_eq!(acceleration, Vector3::new(20_000, 0, 0));
}

#[test]
fn the_bound_is_on_the_length() {
    let walk = TnuaBuiltinWalk {
        desired_velocity: Vector3::new(3000, 0, 4000),
        acceleration: 2500,
        ..walker()
    };
    let at_rest = TnuaRigidBodyTracker::default();
    let acceleration = walk.horizontal_correction(&at_rest, &sensing(Some(ground(2000))), 1000);
    assert_eq!(acceleration, Vector3::new(1500, 0, 2000));
}

#[test]
fn the_vertical_part_of_the_desired_velocity_is_ignored() {
    let walk = TnuaBuiltinWalk { desired_velocity: Vector3::new(5000, 9999, 0), ..walker() };
    let tracker = moving(Vector3::new(0, -777, 0));
    let acceleration = walk.horizontal_correction(&tracker, &sensing(Some(ground(2000))), 16);
    assert_eq!(acceleration, Vector3::new(60_000, 0, 0));
}

#[test]
fn no_horizontal_acceleration_on_a_slope_that_is_too_steep() {
    let walk = TnuaBuiltinWalk {
        desired_velocity: Vector3::new(5000, 0, 0),
        max_slope_cosine: 707,
        ..walker()
    };
    let at_rest = TnuaRigidBodyTracker::default();
    let mut slope = ground(2000);
    slope.normal = Vector3::new(866, 500, 0);
    assert_eq!(
        walk.horizontal_correction(&at_rest, &sensing(Some(slope)), 16),
        Vector3::zero()
    );
    // The steepest slope that is allowed can still be walked.
    slope.normal = Vector3::new(707, 707, 0);
    assert_eq!(
        walk.horizontal_correction(&at_rest, &sensing(Some(slope)), 16),
        Vector3::new(60_000, 0, 0)
    );
    slope.normal = Vector3::new(708, 706, 0);
    assert_eq!(
        walk.horizontal_correction(&at_rest, &sensing(Some(slope)), 16),
        Vector3::zero()
    );
}

#[test]
fn an_instant_turn_is_made_within_the_tick() {
    let walk = TnuaBuiltinWalk { desired_turn: 160, ..walker() };
    let at_rest = TnuaRigidBodyTracker::default();
    assert_eq!(walk.turning_correction(&at_rest, &sensing(Some(ground(2000))), 16), 625_000);
}

#[test]
fn a_capped_turn_keeps_to_the_angular_velocity() {
    let walk = TnuaBuiltinWalk { desired_turn: 160, turning_angvel: Some(2000), ..walker() };
    let at_rest = TnuaRigidBodyTracker::default();
    assert_eq!(walk.turning_correction(&at_rest, &sensing(Some(ground(2000))), 16), 125_000);
    let back = TnuaBuiltinWalk { desired_turn: -160, ..walk };
    assert_eq!(back.turning_correction(&at_rest, &sensing(Some(ground(2000))), 16), -125_000);
    let small = TnuaBuiltinWalk { desired_turn: 16, ..walk };
    assert_eq!(small.turning_correction(&at_rest, &sensing(Some(ground(2000))), 16), 62_500);
}

#[test]
fn a_body_that_turns_fast_enough_is_not_accelerated() {
    let walk = TnuaBuiltinWalk { desired_turn: 160, turning_angvel: Some(2000), ..walker() };
    let spinning = TnuaRigidBodyTracker {
        angvel: Vector3::new(0, 2000, 0),
        ..TnuaRigidBodyTracker::default()
    };
    assert_eq!(walk.turning_correction(&spinning, &sensing(Some(ground(2000))), 16), 0);
}

#[test]
fn a_cap_that_is_not_positive_allows_no_turn() {
    let at_rest = TnuaRigidBodyTracker::default();
    for cap in [0, -1, i32::MIN] {
        let walk = TnuaBuiltinWalk { desired_turn: 160, turning_angvel: Some(cap), ..walker() };
        assert_eq!(walk.turning_correction(&at_rest, &sensing(None), 16), 0);
    }
}

#[test]
fn turning_counts_relative_to_the_ground() {
    let walk = TnuaBuiltinWalk { desired_turn: 0, ..walker() };
    let mut carousel = ground(2000);
    carousel.entity_angvel = Vector3::new(0, 1000, 0);
    let at_rest = TnuaRigidBodyTracker::default();
    // The body should turn with the ground: it lacks one radian per second.
    assert_eq!(walk.turning_correction(&at_rest, &sensing(Some(carousel)), 16), 62_500);
}

#[test]
fn the_sensor_range_covers_the_cling_distance() {
    assert_eq!(walker().sensor_range(), 3000);
    let tall = TnuaBuiltinWalk { float_height: i32::MAX, ..walker() };
    assert_eq!(tall.sensor_range(), i32::MAX);
}

#[test]
fn displaced_body_returns_to_float_height() {
    let walk = walker();
    let dt = 0.016f64;
    let mut height = 1500.0f64;
    let mut velocity = 0.0f64;
    let mut settled_since: Option<usize> = None;
    for tick in 0..200 {
        let sensor = sensing(Some(ground(height.round() as i32)));
        let tracker = moving(Vector3::new(0, velocity.round() as i32, 0));
        let acceleration = walk.vertical_correction(&tracker, &sensor, 0);
        if tick == 0 {
            assert!(acceleration > 0);
        }
        velocity += acceleration as f64 * dt;
        height += velocity * dt;
        assert!(height < 2010.0, "overshoot at tick {tick}: {height}");
        if (height - 2000.0).abs() < 3.0 {
            settled_since.get_or_insert(tick);
        } else {
            settled_since = None;
        }
    }
    let settled = settled_since.expect("the body never settled");
    assert!(settled <= 60, "settled only at tick {settled}");
}
