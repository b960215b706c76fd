use tnua_core::camera::{
    camera_pitch, camera_yaw, cursor_change, mouse_controls_camera, TnuaCursorChange,
    QUARTER_TURN,
};
use tnua_core::setup::{
    plan_backend, sensor_shape_choice, FallingThroughControlScheme, ScheduleToUse, TnuaBackend,
    TnuaBackendConfig, TnuaBackendPlan, TnuaCharacterMotionConfig, TnuaSensorShape,
    TnuaSetupError, SENSOR_SHAPE_CHOICES,
};
use tnua_core::vector::Vector3;

#[test]
fn two_backends_are_refused() {
    for schedule in
        [ScheduleToUse::Update, ScheduleToUse::FixedUpdate, ScheduleToUse::PhysicsSchedule]
    {
        assert_eq!(plan_backend(true, true, schedule), Err(TnuaSetupError::ConflictingBackends));
    }
}

#[test]
fn the_physics_schedule_with_rapier_is_refused() {
    assert_eq!(
        plan_backend(true, false, ScheduleToUse::PhysicsSchedule),
        Err(TnuaSetupError::ConflictingBackends)
    );
}

#[test]
fn the_physics_schedule_without_a_backend_is_refused() {
    assert_eq!(
        plan_backend(false, false, ScheduleToUse::PhysicsSchedule),
        Err(TnuaSetupError::PhysicsScheduleWithoutXpbd)
    );
}

#[test]
fn one_backend_is_planned() {
    assert_eq!(
        plan_backend(true, false, ScheduleToUse::Update),
        Ok(TnuaBackendPlan {
            backend: Some(TnuaBackend::Rapier3d),
            schedule: ScheduleToUse::Update,
            physics_hz: None,
        })
    );
    assert_eq!(
        plan_backend(false, true, ScheduleToUse::FixedUpdate),
        Ok(TnuaBackendPlan {
            backend: Some(TnuaBackend::Xpbd3d),
            schedule: ScheduleToUse::FixedUpdate,
            physics_hz: None,
        })
    );
    assert_eq!(
        plan_backend(false, true, ScheduleToUse::PhysicsSchedule),
        Ok(TnuaBackendPlan {
            backend: Some(TnuaBackend::Xpbd3d),
            schedule: ScheduleToUse::PhysicsSchedule,
            physics_hz: Some(144),
        })
    );
}

#[test]
fn no_backend_is_no_error() {
    assert_eq!(
        plan_backend(false, false, ScheduleToUse::FixedUpdate),
        Ok(TnuaBackendPlan {
            backend: None,
            schedule: ScheduleToUse::FixedUpdate,
            physics_hz: None,
        })
    );
}

#[test]
fn sensor_shapes_on_offer() {
    assert_eq!(SENSOR_SHAPE_CHOICES, 6);
    assert_eq!(sensor_shape_choice(0), Some(TnuaSensorShape::Ray));
    assert_eq!(
        sensor_shape_choice(1),
        Some(TnuaSensorShape::Cylinder { half_height: 0, radius: 490 })
    );
    assert_eq!(
        sensor_shape_choice(2),
        Some(TnuaSensorShape::Cylinder { half_height: 0, radius: 500 })
    );
    assert_eq!(
        sensor_shape_choice(3),
        Some(TnuaSensorShape::Cylinder { half_height: 0, radius: 510 })
    );
    assert_eq!(sensor_shape_choice(4), Some(TnuaSensorShape::Ball { radius: 490 }));
    assert_eq!(sensor_shape_choice(5), Some(TnuaSensorShape::Ball { radius: 500 }));
    assert_eq!(sensor_shape_choice(6), None);
    assert_eq!(sensor_shape_choice(usize::MAX), None);
}

#[test]
fn backend_defaults() {
    let config = TnuaBackendConfig::default();
    assert_eq!(Some(config.sensor_shape), sensor_shape_choice(1));
    assert_eq!(config.enforcer_shape, TnuaSensorShape::Cylinder { half_height: 0, radius: 500 });
    assert!(config.lock_tilt);
    assert!(config.phase_through_collision_groups);
    assert!(config.phase_through_solver_groups);
}

#[test]
fn character_defaults() {
    let config = TnuaCharacterMotionConfig::default();
    assert_eq!(config.speed, 20_000);
    assert_eq!(config.walk.float_height, 2000);
    assert_eq!(config.walk.max_slope_cosine, 707);
    assert_eq!(config.walk.turning_angvel, None);
    assert_eq!(config.walk.cling_distance, 1000);
    assert_eq!(config.actions_in_air, 1);
    assert_eq!(config.jump.height, 4000);
    assert_eq!(config.crouch.float_offset, -900);
    assert_eq!(config.dash_distance, 10_000);
    assert_eq!(config.dash.duration, 100);
    assert_eq!(config.one_way_platforms_min_proximity, 1000);
    assert_eq!(config.falling_through, FallingThroughControlScheme::SingleFall);
    assert_eq!(config.crouch_enforcer_offset, Vector3::new(0, 500, 0));
}

#[test]
fn a_visible_pointer_is_grabbed_by_a_click() {
    assert_eq!(cursor_change(true, true, false, false), Some(TnuaCursorChange::Grab));
    assert_eq!(cursor_change(true, true, true, false), Some(TnuaCursorChange::Grab));
}

#[test]
fn a_click_on_the_user_interface_grabs_nothing() {
    assert_eq!(cursor_change(true, true, false, true), None);
}

#[test]
fn a_visible_pointer_stays_without_a_click() {
    assert_eq!(cursor_change(true, false, false, false), None);
    assert_eq!(cursor_change(true, false, true, false), None);
    assert_eq!(cursor_change(true, false, true, true), None);
}

#[test]
fn a_grabbed_pointer_is_released_by_escape_or_a_click() {
    assert_eq!(cursor_change(false, false, true, false), Some(TnuaCursorChange::Release));
    assert_eq!(cursor_change(false, true, false, false), Some(TnuaCursorChange::Release));
    assert_eq!(cursor_change(false, true, false, true), Some(TnuaCursorChange::Release));
    assert_eq!(cursor_change(false, false, false, false), None);
    assert_eq!(cursor_change(false, false, false, true), None);
}

#[test]
fn only_a_hidden_pointer_steers_the_camera() {
    assert!(mouse_controls_camera(Some(false)));
    assert!(!mouse_controls_camera(Some(true)));
    assert!(!mouse_controls_camera(None));
}

#[test]
fn the_camera_turns_against_the_pointer() {
    assert_eq!(camera_yaw(0), 0);
    assert_eq!(camera_yaw(100_000), -1000);
    assert_eq!(camera_yaw(-100_000), 1000);
    assert_eq!(camera_yaw(150), -1);
    assert_eq!(camera_yaw(99), 0);
    assert_eq!(camera_yaw(-99), 0);
    assert_eq!(camera_yaw(i32::MIN), 21_474_836);
}

#[test]
fn the_pitch_follows_the_pointer() {
    assert_eq!(camera_pitch(0, 100_000), 500);
    assert_eq!(camera_pitch(100, -100_000), -400);
    assert_eq!(camera_pitch(0, 199), 0);
    assert_eq!(camera_pitch(0, 200), 1);
    assert_eq!(camera_pitch(0, -200), -1);
}

#[test]
fn the_pitch_stays_within_a_quarter_turn() {
    assert_eq!(QUARTER_TURN, 1570);
    assert_eq!(camera_pitch(1500, 100_000), 1570);
    assert_eq!(camera_pitch(-1500, -100_000), -1570);
    assert_eq!(camera_pitch(i32::MAX, i32::MAX), 1570);
    assert_eq!(camera_pitch(i32::MIN, i32::MIN), -1570);
    assert_eq!(camera_pitch(1570, 0), 1570);
    assert_eq!(camera_pitch(5000, 0), 1570);
}
