use tnua_core::action::{
    TnuaActionContext, TnuaActionKind, TnuaActionOutput, TnuaBuiltinCrouch, TnuaBuiltinDash,
    TnuaBuiltinJump, TnuaCrouchPhase, TnuaDashPhase, TnuaJumpPhase,
};
use tnua_core::action_stack::{
    overlay, TnuaAction, TnuaActionStack, TnuaActiveAction, TnuaSimpleAirActionsCounter,
};
use tnua_core::data_for_backends::{
    TnuaProximitySensor, TnuaProximitySensorOutput, TnuaRigidBodyTracker,
};
use tnua_core::vector::Vector3;
use tnua_core::walk::TnuaBuiltinWalk;

fn jump() -> TnuaAction {
    TnuaAction::Jump(TnuaBuiltinJump {
        height: 4000,
        shorten_extra_gravity: 60_000,
        fall_extra_gravity: 20_000,
    })
}

fn dash() -> TnuaAction {
    TnuaAction::Dash(TnuaBuiltinDash { displacement: Vector3::new(10_000, 0, 0), duration: 100 })
}

fn crouch() -> TnuaAction {
    TnuaAction::Crouch(TnuaBuiltinCrouch { float_offset: -900 })
}

fn world(
    vertical_velocity: i32,
    floor: Option<i32>,
    clearance: Option<i32>,
    millis: u32,
) -> TnuaActionContext {
    TnuaActionContext {
        basis: TnuaBuiltinWalk { float_height: 2000, ..TnuaBuiltinWalk::default() },
        tracker: TnuaRigidBodyTracker {
            velocity: Vector3::new(0, vertical_velocity, 0),
            angvel: Vector3::zero(),
            gravity: Vector3::new(0, -9810, 0),
        },
        sensor: TnuaProximitySensor {
            cast_range: 3000,
            output: floor.map(|proximity| TnuaProximitySensorOutput {
                entity: 1,
                proximity,
                normal: Vector3::new(0, 1000, 0),
                entity_linvel: Vector3::zero(),
                entity_angvel: Vector3::zero(),
            }),
            ..TnuaProximitySensor::default()
        },
        clearance,
        millis,
    }
}

fn on_the_ground() -> TnuaActionContext {
    world(0, Some(2000), None, 16)
}

fn is_active(stack: &TnuaActionStack, kind: TnuaActionKind) -> bool {
    stack.active(kind).is_some()
}

#[test]
fn a_new_stack_is_empty() {
    let mut stack = TnuaActionStack::new(1);
    for kind in [TnuaActionKind::Dash, TnuaActionKind::Jump, TnuaActionKind::Crouch] {
        assert!(!is_active(&stack, kind));
        assert!(!stack.is_queued(kind));
    }
    assert_eq!(stack.air_actions_limit, 1);
    assert_eq!(stack.air_counter.air_actions_count, 0);
    assert!(!stack.blocked(&on_the_ground()));
    let output = stack.advance(&on_the_ground());
    assert_eq!(output.vertical, None);
    assert_eq!(output.horizontal, None);
}

#[test]
fn requests_know_their_kind_and_their_beginning() {
    assert_eq!(jump().kind(), TnuaActionKind::Jump);
    assert_eq!(dash().kind(), TnuaActionKind::Dash);
    assert_eq!(crouch().kind(), TnuaActionKind::Crouch);
    assert!(matches!(jump().start(), TnuaActiveAction::Jump(_, TnuaJumpPhase::Started)));
    assert!(matches!(
        dash().start(),
        TnuaActiveAction::Dash(_, TnuaDashPhase::Dashing { remaining: 100 })
    ));
    assert!(matches!(crouch().start(), TnuaActiveAction::Crouch(_, TnuaCrouchPhase::Crouching)));
    assert_eq!(jump().start().kind(), TnuaActionKind::Jump);
    assert!(!jump().start().ended());
}

#[test]
fn a_fed_action_starts_and_makes_its_first_step() {
    let mut stack = TnuaActionStack::new(1);
    stack.feed(jump());
    let output = stack.advance(&on_the_ground());
    assert_eq!(output.vertical, Some(553_625));
    assert_eq!(output.horizontal, None);
    assert!(matches!(
        stack.active(TnuaActionKind::Jump),
        Some(TnuaActiveAction::Jump(_, TnuaJumpPhase::Ascending { remaining: 902 }))
    ));
    assert!(stack.jump.fed.is_none());
}

#[test]
fn of_several_requests_of_one_kind_the_last_counts() {
    let mut stack = TnuaActionStack::new(1);
    stack.feed(TnuaAction::Crouch(TnuaBuiltinCrouch { float_offset: -100 }));
    stack.feed(TnuaAction::Crouch(TnuaBuiltinCrouch { float_offset: -900 }));
    let output = stack.advance(&on_the_ground());
    assert_eq!(output.vertical, Some(-360_000));
}

#[test]
fn an_action_that_is_not_fed_decays() {
    let mut stack = TnuaActionStack::new(1);
    stack.feed(crouch());
    stack.advance(&on_the_ground());
    assert!(is_active(&stack, TnuaActionKind::Crouch));
    stack.feed(crouch());
    stack.advance(&on_the_ground());
    assert!(is_active(&stack, TnuaActionKind::Crouch));
    let output = stack.advance(&on_the_ground());
    assert!(!is_active(&stack, TnuaActionKind::Crouch));
    assert_eq!(output.vertical, None);
}

#[test]
fn a_jump_runs_its_course_without_being_fed() {
    let mut stack = TnuaActionStack::new(1);
    stack.feed(jump());
    stack.advance(&on_the_ground());
    let output = stack.advance(&world(8000, None, None, 16));
    assert_eq!(output.vertical, Some(-60_000));
    assert!(matches!(
        stack.active(TnuaActionKind::Jump),
        Some(TnuaActiveAction::Jump(_, TnuaJumpPhase::Ascending { remaining: 886 }))
    ));
    stack.advance(&world(-10, None, None, 16));
    assert!(matches!(
        stack.active(TnuaActionKind::Jump),
        Some(TnuaActiveAction::Jump(_, TnuaJumpPhase::Falling))
    ));
    let output = stack.advance(&world(-8000, Some(2000), None, 16));
    assert!(!is_active(&stack, TnuaActionKind::Jump));
    assert_eq!(output.vertical, None);
}

#[test]
fn the_higher_priority_wins_each_axis() {
    let mut stack = TnuaActionStack::new(3);
    stack.feed(crouch());
    stack.advance(&on_the_ground());
    stack.feed(crouch());
    stack.feed(jump());
    let output = stack.advance(&on_the_ground());
    // Both are active; the jump's impulse counts, not the crouch's spring.
    assert!(is_active(&stack, TnuaActionKind::Crouch));
    assert!(is_active(&stack, TnuaActionKind::Jump));
    assert_eq!(output.vertical, Some(553_625));
    assert_eq!(output.horizontal, None);

    stack.feed(crouch());
    stack.feed(dash());
    let output = stack.advance(&world(8000, Some(2500), None, 16));
    assert!(is_active(&stack, TnuaActionKind::Dash));
    assert_eq!(output.vertical, Some(-500_000));
    assert_eq!(output.horizontal, Some(Vector3::new(6_250_000, 0, 0)));
}

#[test]
fn overlay_takes_the_first_that_is_taken_over() {
    let high = TnuaActionOutput { vertical: None, horizontal: Some(Vector3::new(1, 2, 3)) };
    let low = TnuaActionOutput { vertical: Some(7), horizontal: Some(Vector3::new(4, 5, 6)) };
    let merged = overlay(&high, &low);
    assert_eq!(merged.vertical, Some(7));
    assert_eq!(merged.horizontal, Some(Vector3::new(1, 2, 3)));
    let merged = overlay(&low, &high);
    assert_eq!(merged.vertical, Some(7));
    assert_eq!(merged.horizontal, Some(Vector3::new(4, 5, 6)));
}

#[test]
fn a_started_jump_keeps_a_dash_waiting() {
    let mut stack = TnuaActionStack::new(3);
    // A tick without duration leaves the jump started: its impulse is still to come.
    stack.feed(jump());
    stack.advance(&world(0, Some(2000), None, 0));
    assert!(matches!(
        stack.active(TnuaActionKind::Jump),
        Some(TnuaActiveAction::Jump(_, TnuaJumpPhase::Started))
    ));
    assert!(stack.blocked(&on_the_ground()));

    stack.feed(dash());
    let output = stack.advance(&on_the_ground());
    assert!(!is_active(&stack, TnuaActionKind::Dash));
    assert!(stack.is_queued(TnuaActionKind::Dash));
    assert_eq!(output.horizontal, None);
    assert_eq!(output.vertical, Some(553_625));

    // The jump ascends now and can be interrupted: the dash takes effect.
    assert!(!stack.blocked(&world(8858, None, None, 16)));
    let output = stack.advance(&world(8858, Some(2100), None, 16));
    assert!(is_active(&stack, TnuaActionKind::Dash));
    assert!(!stack.is_queued(TnuaActionKind::Dash));
    assert_eq!(output.horizontal, Some(Vector3::new(6_250_000, 0, 0)));
    assert_eq!(output.vertical, Some(-553_625));
}

#[test]
fn a_dash_keeps_a_jump_waiting_until_it_is_over() {
    let mut stack = TnuaActionStack::new(3);
    stack.feed(dash());
    stack.advance(&on_the_ground());
    assert!(stack.blocked(&on_the_ground()));
    stack.feed(jump());
    for _ in 0..6 {
        let output = stack.advance(&on_the_ground());
        assert!(!is_active(&stack, TnuaActionKind::Jump));
        assert!(stack.is_queued(TnuaActionKind::Jump));
        assert_eq!(output.vertical, Some(0));
        assert_eq!(output.horizontal, Some(Vector3::new(6_250_000, 0, 0)));
    }
    assert!(!is_active(&stack, TnuaActionKind::Dash));
    assert!(!stack.blocked(&on_the_ground()));
    let output = stack.advance(&on_the_ground());
    assert!(is_active(&stack, TnuaActionKind::Jump));
    assert!(!stack.is_queued(TnuaActionKind::Jump));
    assert_eq!(output.vertical, Some(553_625));
    assert_eq!(output.horizontal, None);
}

#[test]
fn an_obstructed_crouch_keeps_a_jump_waiting() {
    let mut stack = TnuaActionStack::new(3);
    stack.feed(crouch());
    stack.advance(&on_the_ground());
    let under_a_ceiling = world(0, Some(2000), Some(300), 16);
    assert!(stack.blocked(&under_a_ceiling));
    stack.feed(jump());
    let output = stack.advance(&under_a_ceiling);
    assert!(is_active(&stack, TnuaActionKind::Crouch));
    assert!(!is_active(&stack, TnuaActionKind::Jump));
    assert!(stack.is_queued(TnuaActionKind::Jump));
    assert_eq!(output.vertical, Some(-360_000));

    // Out from under the ceiling: the crouch ends and the jump begins.
    let output = stack.advance(&on_the_ground());
    assert!(!is_active(&stack, TnuaActionKind::Crouch));
    assert!(is_active(&stack, TnuaActionKind::Jump));
    assert_eq!(output.vertical, Some(553_625));
}

#[test]
fn a_crouch_that_can_be_interrupted_lets_a_jump_start() {
    let mut stack = TnuaActionStack::new(3);
    stack.feed(crouch());
    stack.advance(&on_the_ground());
    assert!(!stack.blocked(&on_the_ground()));
    stack.feed(jump());
    stack.advance(&on_the_ground());
    assert!(is_active(&stack, TnuaActionKind::Jump));
}

#[test]
fn actions_in_the_air_are_limited() {
    let in_the_air = world(-100, None, None, 16);
    let mut stack = TnuaActionStack::new(1);
    stack.feed(dash());
    stack.advance(&in_the_air);
    assert!(is_active(&stack, TnuaActionKind::Dash));
    assert_eq!(stack.air_counter.air_actions_count, 1);
    for _ in 0..6 {
        stack.advance(&in_the_air);
    }
    assert!(!is_active(&stack, TnuaActionKind::Dash));

    // Still in the air: neither another dash nor a jump may start, and neither waits.
    stack.feed(dash());
    stack.feed(jump());
    let output = stack.advance(&in_the_air);
    assert!(!is_active(&stack, TnuaActionKind::Dash));
    assert!(!is_active(&stack, TnuaActionKind::Jump));
    assert!(!stack.is_queued(TnuaActionKind::Dash));
    assert!(!stack.is_queued(TnuaActionKind::Jump));
    assert_eq!(output.vertical, None);
    assert_eq!(output.horizontal, None);
    assert_eq!(stack.air_counter.air_actions_count, 1);

    // A crouch is not counted.
    stack.feed(crouch());
    stack.advance(&in_the_air);
    assert!(is_active(&stack, TnuaActionKind::Crouch));
    assert_eq!(stack.air_counter.air_actions_count, 1);

    // On the ground the count starts anew.
    stack.feed(dash());
    stack.advance(&on_the_ground());
    assert!(is_active(&stack, TnuaActionKind::Dash));
    assert_eq!(stack.air_counter.air_actions_count, 0);
}

#[test]
fn the_limit_counts_across_kinds_within_a_tick() {
    let in_the_air = world(-100, None, None, 16);
    let mut stack = TnuaActionStack::new(1);
    stack.feed(jump());
    stack.feed(dash());
    stack.advance(&in_the_air);
    assert!(is_active(&stack, TnuaActionKind::Dash));
    assert!(!is_active(&stack, TnuaActionKind::Jump));
    assert_eq!(stack.air_counter.air_actions_count, 1);

    let mut stack = TnuaActionStack::new(2);
    stack.feed(jump());
    stack.feed(dash());
    stack.advance(&in_the_air);
    assert!(is_active(&stack, TnuaActionKind::Dash));
    assert!(is_active(&stack, TnuaActionKind::Jump));
    assert_eq!(stack.air_counter.air_actions_count, 2);

    let mut stack = TnuaActionStack::new(0);
    stack.feed(jump());
    stack.advance(&in_the_air);
    assert!(!is_active(&stack, TnuaActionKind::Jump));
}

#[test]
fn the_counter_by_itself() {
    assert_eq!(TnuaSimpleAirActionsCounter::default().air_actions_count, 0);
    assert!(TnuaSimpleAirActionsCounter::allows(TnuaActionKind::Jump, true, 0, 1));
    assert!(!TnuaSimpleAirActionsCounter::allows(TnuaActionKind::Jump, true, 1, 1));
    assert!(TnuaSimpleAirActionsCounter::allows(TnuaActionKind::Jump, false, 1, 1));
    assert!(TnuaSimpleAirActionsCounter::allows(TnuaActionKind::Crouch, true, 1, 1));
    assert_eq!(TnuaSimpleAirActionsCounter::counted(TnuaActionKind::Dash, true, 4, true), 5);
    assert_eq!(TnuaSimpleAirActionsCounter::counted(TnuaActionKind::Dash, true, 4, false), 4);
    assert_eq!(TnuaSimpleAirActionsCounter::counted(TnuaActionKind::Dash, false, 4, true), 4);
    assert_eq!(TnuaSimpleAirActionsCounter::counted(TnuaActionKind::Crouch, true, 4, true), 4);
    assert_eq!(
        TnuaSimpleAirActionsCounter::counted(TnuaActionKind::Jump, true, u32::MAX, true),
        u32::MAX
    );
}
