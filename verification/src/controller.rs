//! The controller of one body and its resolver: the pass that turns the
//! tracker and the sensor's output of a tick into the motor instruction.

use vstd::prelude::*;
use crate::action::{TnuaActionContext, TnuaActionKind, TnuaActionOutput};
use crate::action_stack::lemma_blocked_request_takes_nothing_over;
use crate::action_stack::{
    first_of, spec_fed, TnuaAction, TnuaActionSlot, TnuaActionStack, TnuaActiveAction,
};
use crate::data_for_backends::{TnuaMotor, TnuaProximitySensor, TnuaRigidBodyTracker};
use crate::fixed::Scalar;
use crate::vector::Vector3;
use crate::walk::{up_direction, TnuaBasisOutput, TnuaBuiltinWalk, TnuaBuiltinWalkState};

verus! {

/// The basis and the actions of one body.
#[derive(Clone, Copy, Debug)]
pub struct TnuaController {
    /// A controller that is switched off asks for no acceleration.
    pub enabled: bool,
    /// The basis that is in force.
    pub basis: Option<TnuaBuiltinWalk>,
    /// What the basis has learnt of the body in the last tick that ran.
    pub basis_state: TnuaBuiltinWalkState,
    pub actions: TnuaActionStack,
}

/// The stack with the requests of the tick dropped.
pub open spec fn spec_unfed(stack: TnuaActionStack) -> TnuaActionStack {
    TnuaActionStack {
        dash: TnuaActionSlot { fed: None, ..stack.dash },
        jump: TnuaActionSlot { fed: None, ..stack.jump },
        crouch: TnuaActionSlot { fed: None, ..stack.crouch },
        ..stack
    }
}

/// The motor instruction that is made of what the basis asks for and what
/// the actions take over: on each axis the actions' acceleration where they
/// take the axis over, else the basis's; the turning is the basis's.
pub open spec fn spec_merge(basis: TnuaBasisOutput, actions: TnuaActionOutput, up: Vector3)
    -> TnuaMotor {
    let vertical = first_of(actions.vertical, Some(basis.vertical))->0;
    let horizontal = first_of(actions.horizontal, Some(basis.horizontal))->0;
    TnuaMotor {
        desired_acceleration: horizontal.spec_plus(up.spec_scaled(vertical as int)),
        desired_angacl: up.spec_scaled(basis.turning as int),
    }
}

pub fn merge(basis: &TnuaBasisOutput, actions: &TnuaActionOutput, up: &Vector3) -> (motor:
    TnuaMotor)
    ensures
        motor == spec_merge(*basis, *actions, *up),
{
    let vertical: Scalar = match actions.vertical {
        Some(taken) => taken,
        None => basis.vertical,
    };
    let horizontal: Vector3 = match actions.horizontal {
        Some(taken) => taken,
        None => basis.horizontal,
    };
    TnuaMotor {
        desired_acceleration: horizontal.plus(&up.scaled(vertical)),
        desired_angacl: up.scaled(basis.turning),
    }
}

impl TnuaController {
    /// The resolver has something to do: the controller is switched on,
    /// has a basis, and the tick has a duration.
    pub open spec fn spec_runs(self, millis: int) -> bool {
        self.enabled && self.basis is Some && millis > 0
    }

    /// The sensor with the range that the basis needs.
    pub open spec fn spec_refreshed(self, sensor: TnuaProximitySensor) -> TnuaProximitySensor {
        TnuaProximitySensor { cast_range: self.basis->0.spec_sensor_range() as i32, ..sensor }
    }

    /// What the actions see in the tick.
    pub open spec fn spec_context(
        self,
        tracker: TnuaRigidBodyTracker,
        sensor: TnuaProximitySensor,
        clearance: Option<Scalar>,
        millis: u32,
    ) -> TnuaActionContext {
        TnuaActionContext {
            basis: self.basis->0,
            tracker,
            sensor: self.spec_refreshed(sensor),
            clearance,
            millis,
        }
    }

    /// The motor instruction of the tick.
    pub open spec fn spec_motor(
        self,
        tracker: TnuaRigidBodyTracker,
        sensor: TnuaProximitySensor,
        clearance: Option<Scalar>,
        millis: u32,
    ) -> TnuaMotor {
        if self.spec_runs(millis as int) {
            let ctx = self.spec_context(tracker, sensor, clearance, millis);
            spec_merge(
                self.basis->0.spec_apply(tracker, ctx.sensor, millis as int),
                self.actions.spec_output(ctx),
                up_direction(sensor),
            )
        } else {
            TnuaMotor {
                desired_acceleration: Vector3 { x: 0, y: 0, z: 0 },
                desired_angacl: Vector3 { x: 0, y: 0, z: 0 },
            }
        }
    }

    /// The controller after the tick.
    pub open spec fn spec_resolved(
        self,
        tracker: TnuaRigidBodyTracker,
        sensor: TnuaProximitySensor,
        clearance: Option<Scalar>,
        millis: u32,
    ) -> TnuaController {
        if self.spec_runs(millis as int) {
            let ctx = self.spec_context(tracker, sensor, clearance, millis);
            TnuaController {
                basis_state: self.basis->0.spec_sense(tracker, ctx.sensor),
                actions: self.actions.spec_advance(ctx),
                ..self
            }
        } else if millis > 0 {
            TnuaController { actions: spec_unfed(self.actions), ..self }
        } else {
            self
        }
    }

    /// A controller that is switched on, without a basis and without
    /// actions.
    pub fn new(air_actions_limit: u32) -> (controller: TnuaController)
        ensures
            controller.enabled,
            controller.basis is None,
            controller.basis_state.airborne,
            controller.basis_state.standing_on is None,
            controller.basis_state.standing_offset == 0,
            controller.basis_state.effective_velocity.is_zero(),
            controller.actions.wf(),
            controller.actions.dash == TnuaActionSlot::empty(),
            controller.actions.jump == TnuaActionSlot::empty(),
            controller.actions.crouch == TnuaActionSlot::empty(),
            controller.actions.air_counter.air_actions_count == 0,
            controller.actions.air_actions_limit == air_actions_limit,
    {
        TnuaController {
            enabled: true,
            basis: None,
            basis_state: TnuaBuiltinWalkState::default(),
            actions: TnuaActionStack::new(air_actions_limit),
        }
    }

    /// Puts a basis in force, in place of the one before. What the basis
    /// has learnt of the body stays.
    pub fn request_basis(&mut self, basis: TnuaBuiltinWalk)
        ensures
            *final(self) == (TnuaController { basis: Some(basis), ..*old(self) }),
    {
        self.basis = Some(basis);
    }

    /// Feeds an action for the coming tick. Of several requests of one
    /// kind the last counts.
    pub fn request_action(&mut self, action: TnuaAction)
        ensures
            *final(self) == (TnuaController {
                actions: spec_fed(old(self).actions, action),
                ..*old(self)
            }),
            old(self).actions.wf() ==> final(self).actions.wf(),
    {
        self.actions.feed(action);
    }

    /// Switches the controller on or off.
    pub fn set_enabled(&mut self, enabled: bool)
        ensures
            *final(self) == (TnuaController { enabled, ..*old(self) }),
    {
        self.enabled = enabled;
    }

    /// Whether the body was in the air in the last tick that ran.
    pub fn is_airborne(&self) -> (airborne: bool)
        ensures
            airborne == self.basis_state.airborne,
    {
        self.basis_state.airborne
    }

    /// The action of the kind `kind` that is in its course.
    pub fn active_action(&self, kind: TnuaActionKind) -> (action: Option<TnuaActiveAction>)
        ensures
            action == self.actions.spec_slot(kind).active,
    {
        self.actions.active(kind)
    }

    /// The tick of a controller that runs, on a sensor whose range is set.
    fn run(
        &mut self,
        basis: &TnuaBuiltinWalk,
        ctx: &TnuaActionContext,
    ) -> (motor: TnuaMotor)
        ensures
            motor == spec_merge(
                basis.spec_apply(ctx.tracker, ctx.sensor, ctx.millis as int),
                old(self).actions.spec_output(*ctx),
                up_direction(ctx.sensor),
            ),
            final(self).basis_state == basis.spec_sense(ctx.tracker, ctx.sensor),
            final(self).actions == old(self).actions.spec_advance(*ctx),
            final(self).enabled == old(self).enabled,
            final(self).basis == old(self).basis,
            old(self).actions.wf() ==> final(self).actions.wf(),
    {
        let asked: TnuaBasisOutput = basis.apply(&ctx.tracker, &ctx.sensor, ctx.millis);
        self.basis_state = basis.sense(&ctx.tracker, &ctx.sensor);
        let taken: TnuaActionOutput = self.actions.advance(ctx);
        let up: Vector3 = ctx.sensor.cast_direction.negated();
        merge(&asked, &taken, &up)
    }

    /// Drops the requests of the tick.
    fn drop_requests(&mut self)
        ensures
            *final(self) == (TnuaController { actions: spec_unfed(old(self).actions), ..*old(self) }),
            old(self).actions.wf() ==> final(self).actions.wf(),
    {
        self.actions.dash.fed = None;
        self.actions.jump.fed = None;
        self.actions.crouch.fed = None;
    }

    /// One tick: sets the sensor's range for the basis, runs the basis,
    /// advances the actions in the order of their priority, and writes the
    /// merged instruction to the motor, in place of what it held.
    ///
    /// A controller that is switched off or has no basis writes a motor
    /// that asks for nothing and drops the requests of the tick. A tick
    /// without duration writes such a motor and changes nothing else.
    pub fn resolve(
        &mut self,
        tracker: &TnuaRigidBodyTracker,
        sensor: &mut TnuaProximitySensor,
        motor: &mut TnuaMotor,
        clearance: Option<Scalar>,
        millis: u32,
    )
        ensures
            *final(motor) == old(self).spec_motor(*tracker, *old(sensor), clearance, millis),
            *final(self) == old(self).spec_resolved(*tracker, *old(sensor), clearance, millis),
            *final(sensor) == if old(self).spec_runs(millis as int) {
                old(self).spec_refreshed(*old(sensor))
            } else {
                *old(sensor)
            },
            old(self).actions.wf() ==> final(self).actions.wf(),
    {
        if millis == 0 {
            *motor = TnuaMotor::default();
            return ;
        }
        if !self.enabled {
            self.drop_requests();
            *motor = TnuaMotor::default();
            return ;
        }
        match self.basis {
            Some(basis) => {
                sensor.cast_range = basis.sensor_range();
                let ctx: TnuaActionContext = TnuaActionContext {
                    basis,
                    tracker: *tracker,
                    sensor: *sensor,
                    clearance,
                    millis,
                };
                assert(ctx == old(self).spec_context(*tracker, *old(sensor), clearance, millis));
                *motor = self.run(&basis, &ctx);
            },
            None => {
                self.drop_requests();
                *motor = TnuaMotor::default();
            },
        }
    }
}

/// While an active action cannot be interrupted, an action of another kind
/// that is fed changes nothing of the motor instruction of that tick,
/// whatever its priority, and does not become active in it.
pub proof fn lemma_blocked_request_changes_no_motor(
    controller: TnuaController,
    tracker: TnuaRigidBodyTracker,
    sensor: TnuaProximitySensor,
    clearance: Option<Scalar>,
    millis: u32,
    request: TnuaAction,
)
    requires
        controller.spec_runs(millis as int),
        controller.actions.spec_blocked(
            controller.spec_context(tracker, sensor, clearance, millis),
        ),
        controller.actions.spec_slot(request.spec_kind()).active is None,
    ensures
        ({
            let fed = TnuaController {
                actions: spec_fed(controller.actions, request),
                ..controller
            };
            &&& fed.spec_motor(tracker, sensor, clearance, millis) == controller.spec_motor(
                tracker,
                sensor,
                clearance,
                millis,
            )
            &&& fed.spec_resolved(tracker, sensor, clearance, millis).actions.spec_slot(
                request.spec_kind(),
            ).active is None
            &&& fed.spec_resolved(tracker, sensor, clearance, millis).actions.spec_slot(
                request.spec_kind(),
            ).queued == Some(request)
        }),
{
    let ctx = controller.spec_context(tracker, sensor, clearance, millis);
    let fed = TnuaController { actions: spec_fed(controller.actions, request), ..controller };
    assert(fed.spec_context(tracker, sensor, clearance, millis) == ctx);
    lemma_blocked_request_takes_nothing_over(controller.actions, ctx, request);
}

} // verus!
