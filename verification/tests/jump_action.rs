use tnua_core::action::{
    jump_ascent_millis, jump_takeoff_speed, TnuaActionContext, TnuaBuiltinJump, TnuaJumpPhase,
};
use tnua_core::data_for_backends::{
    TnuaProximitySensor, TnuaProximitySensorOutput, TnuaRigidBodyTracker,
};
use tnua_core::vector::Vector3;
use tnua_core::walk::TnuaBuiltinWalk;

fn jump() -> TnuaBuiltinJump {
    TnuaBuiltinJump { height: 4000, shorten_extra_gravity: 60_000, fall_extra_gravity: 20_000 }
}

fn context(vertical_velocity: i32, floor: Option<i32>, millis: u32) -> TnuaActionContext {
    TnuaActionContext {
        basis: TnuaBuiltinWalk { float_height: 2000, ..TnuaBuiltinWalk::default() },
        tracker: TnuaRigidBodyTracker {
            velocity: Vector3::new(0, vertical_velocity, 0),
            angvel: Vector3::zero(),
            gravity: Vector3::new(0, -9810, 0),
        },
        sensor: TnuaProximitySensor {
            cast_range: 3000,
            output: floor.map(|proximity| TnuaProximitySensorOutput {
                entity: 1,
                proximity,
                normal: Vector3::new(0, 1000, 0),
                entity_linvel: Vector3::zero(),
                entity_angvel: Vector3::zero(),
            }),
            ..TnuaProximitySensor::default()
        },
        clearance: None,
        millis,
    }
}

#[test]
fn the_context_reads_the_body() {
    let ctx = context(-250, Some(1900), 16);
    assert_eq!(ctx.up(), Vector3::new(0, 1000, 0));
    assert_eq!(ctx.vertical_velocity(), -250);
    assert_eq!(ctx.gravity(), 9810);
    assert!(!ctx.airborne());
    assert!(ctx.landed());
    assert!(!context(0, Some(2001), 16).landed());
    assert!(context(0, Some(2000), 16).landed());
    assert!(context(0, None, 16).airborne());
    assert!(!context(0, None, 16).landed());
    assert!(context(0, Some(3001), 16).airborne());
}

#[test]
fn takeoff_speed_is_the_root_of_twice_gravity_times_height() {
    // 2 * 9.81 * 4 = 78.48, whose root is 8.8589...
    assert_eq!(jump_takeoff_speed(9810, 4000), 8858);
    assert_eq!(jump_takeoff_speed(10_000, 5000), 10_000);
    assert_eq!(jump_takeoff_speed(1, 1), 1);
    assert_eq!(jump_takeoff_speed(i32::MAX, i32::MAX), i32::MAX);
}

#[test]
fn no_takeoff_without_gravity_or_height() {
    assert_eq!(jump_takeoff_speed(0, 4000), 0);
    assert_eq!(jump_takeoff_speed(-9810, 4000), 0);
    assert_eq!(jump_takeoff_speed(9810, 0), 0);
    assert_eq!(jump_takeoff_speed(9810, -1), 0);
}

#[test]
fn the_takeoff_speed_reaches_the_height() {
    for (gravity, height) in [(9810i64, 4000i64), (1620, 250), (24_790, 12_345), (3, 7)] {
        let speed = jump_takeoff_speed(gravity as i32, height as i32) as i64;
        assert!(speed * speed <= 2 * gravity * height);
        assert!(2 * gravity * height < (speed + 1) * (speed + 1));
    }
}

#[test]
fn ascent_time() {
    assert_eq!(jump_ascent_millis(8858, 9810), 902);
    assert_eq!(jump_ascent_millis(10_000, 10_000), 1000);
    assert_eq!(jump_ascent_millis(0, 9810), 0);
    assert_eq!(jump_ascent_millis(8858, 0), 0);
    assert_eq!(jump_ascent_millis(i32::MAX, 1), u32::MAX);
}

#[test]
fn a_started_jump_gives_the_impulse() {
    let (phase, output) = jump().step(TnuaJumpPhase::Started, true, &context(0, Some(2000), 16));
    assert_eq!(phase, TnuaJumpPhase::Ascending { remaining: 902 });
    assert_eq!(output.vertical, Some(553_625));
    assert_eq!(output.horizontal, None);
}

#[test]
fn the_impulse_makes_up_for_the_velocity_that_is_missing() {
    let (_, output) = jump().step(TnuaJumpPhase::Started, true, &context(1000, Some(2000), 16));
    assert_eq!(output.vertical, Some(491_125));
    let (_, output) = jump().step(TnuaJumpPhase::Started, true, &context(-1000, Some(2000), 16));
    assert_eq!(output.vertical, Some(616_125));
}

#[test]
fn a_started_jump_waits_through_a_tick_without_duration() {
    let (phase, output) = jump().step(TnuaJumpPhase::Started, true, &context(0, Some(2000), 0));
    assert_eq!(phase, TnuaJumpPhase::Started);
    assert_eq!(output.vertical, None);
    assert_eq!(output.horizontal, None);
}

#[test]
fn an_ascending_jump_is_left_to_gravity() {
    let ascending = TnuaJumpPhase::Ascending { remaining: 902 };
    let (phase, output) = jump().step(ascending, true, &context(8858, None, 16));
    assert_eq!(phase, TnuaJumpPhase::Ascending { remaining: 886 });
    assert_eq!(output.vertical, Some(0));
    assert_eq!(output.horizontal, None);
}

#[test]
fn a_jump_that_is_no_longer_fed_is_cut_short() {
    let ascending = TnuaJumpPhase::Ascending { remaining: 902 };
    let (phase, output) = jump().step(ascending, false, &context(8858, None, 16));
    assert_eq!(phase, TnuaJumpPhase::Ascending { remaining: 886 });
    assert_eq!(output.vertical, Some(-60_000));
}

#[test]
fn a_jump_falls_when_the_velocity_is_no_longer_upward() {
    let ascending = TnuaJumpPhase::Ascending { remaining: 902 };
    assert_eq!(jump().step(ascending, true, &context(0, None, 16)).0, TnuaJumpPhase::Falling);
    assert_eq!(jump().step(ascending, true, &context(-5, None, 16)).0, TnuaJumpPhase::Falling);
    assert_eq!(
        jump().step(ascending, true, &context(1, None, 16)).0,
        TnuaJumpPhase::Ascending { remaining: 886 }
    );
}

#[test]
fn a_jump_falls_when_the_apex_timer_runs_out() {
    let rising = context(5000, None, 16);
    let last = TnuaJumpPhase::Ascending { remaining: 16 };
    assert_eq!(jump().step(last, true, &rising).0, TnuaJumpPhase::Falling);
    let less = TnuaJumpPhase::Ascending { remaining: 10 };
    assert_eq!(jump().step(less, true, &rising).0, TnuaJumpPhase::Falling);
    let more = TnuaJumpPhase::Ascending { remaining: 17 };
    assert_eq!(jump().step(more, true, &rising).0, TnuaJumpPhase::Ascending { remaining: 1 });
}

#[test]
fn a_falling_jump_adds_to_gravity() {
    let (phase, output) = jump().step(TnuaJumpPhase::Falling, false, &context(-3000, None, 16));
    assert_eq!(phase, TnuaJumpPhase::Falling);
    assert_eq!(output.vertical, Some(-20_000));
    let (phase, _) = jump().step(TnuaJumpPhase::Falling, true, &context(-3000, Some(2500), 16));
    assert_eq!(phase, TnuaJumpPhase::Falling);
}

#[test]
fn a_jump_ends_when_the_body_has_landed() {
    let (phase, output) =
        jump().step(TnuaJumpPhase::Falling, true, &context(-3000, Some(2000), 16));
    assert_eq!(phase, TnuaJumpPhase::Ended);
    assert_eq!(output.vertical, None);
    assert_eq!(output.horizontal, None);
    let (phase, output) = jump().step(TnuaJumpPhase::Ended, true, &context(0, Some(2000), 16));
    assert_eq!(phase, TnuaJumpPhase::Ended);
    assert_eq!(output.vertical, None);
}
