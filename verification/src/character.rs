//! One controlled body: everything that the backend and the controller
//! hold of it, and the order of a tick.
//!
//! A tick has three stages, and the body keeps track of the one that is
//! due. First the backend writes what it has sensed (`sense`); then the
//! resolver computes the motor instruction (`resolve`); then the backend
//! takes the instruction and applies it (`take_motor`). The resolver does
//! not run on what an earlier tick has sensed, and an instruction is handed
//! out once. Between sensing and resolving, the controlling code feeds the
//! actions and consults the fall-through helper. Bodies share nothing.

use vstd::prelude::*;
use crate::action::TnuaActionKind;
use crate::action_stack::{TnuaActionSlot, TnuaActiveAction};
use crate::controller::TnuaController;
use crate::crouch_enforcer::TnuaCrouchEnforcer;
use crate::data_for_backends::{TnuaCastHit, TnuaMotor, TnuaProximitySensor, TnuaRigidBodyTracker};
use crate::fall_through::{ghost_candidates, TnuaGhostSensor, TnuaSimpleFallThroughPlatformsHelper};
use crate::fixed::Scalar;
use crate::setup::TnuaCharacterMotionConfig;
use crate::vector::Vector3;
use crate::action::TnuaBuiltinCrouch;

verus! {

/// The stage of the tick that is due.
#[derive(Clone, Copy, Debug, PartialEq, Eq, Structural)]
pub enum TnuaPipelineStage {
    /// The backend is to sense.
    Sensors,
    /// What was sensed is fresh; the resolver is to run.
    Logic,
    /// The motor instruction is ready; the backend is to take it.
    Motors,
}

/// A controlled body.
#[derive(Debug)]
pub struct TnuaCharacter {
    pub stage: TnuaPipelineStage,
    pub tracker: TnuaRigidBodyTracker,
    pub sensor: TnuaProximitySensor,
    pub ghost_sensor: TnuaGhostSensor,
    pub motor: TnuaMotor,
    pub controller: TnuaController,
    pub crouch_enforcer: TnuaCrouchEnforcer,
    pub fall_through: TnuaSimpleFallThroughPlatformsHelper,
}

/// The configuration of the crouch that is in its course.
pub open spec fn spec_crouch_in_course(controller: TnuaController) -> Option<TnuaBuiltinCrouch> {
    match controller.actions.crouch.active {
        Some(TnuaActiveAction::Crouch(crouch, _)) => Some(crouch),
        _ => None,
    }
}

pub fn crouch_in_course(controller: &TnuaController) -> (crouch: Option<TnuaBuiltinCrouch>)
    ensures
        crouch == spec_crouch_in_course(*controller),
{
    match controller.active_action(TnuaActionKind::Crouch) {
        Some(TnuaActiveAction::Crouch(crouch, _)) => Some(crouch),
        _ => None,
    }
}

impl TnuaCharacter {
    /// A body at rest that has sensed nothing yet, with the walking basis
    /// of `config` in force and no action.
    pub fn new(config: &TnuaCharacterMotionConfig) -> (character: TnuaCharacter)
        ensures
            character.stage == TnuaPipelineStage::Sensors,
            character.tracker.velocity.is_zero(),
            character.tracker.angvel.is_zero(),
            character.tracker.gravity.is_zero(),
            character.sensor.cast_origin.is_zero(),
            character.sensor.cast_direction == (Vector3 { x: 0, y: -1000i32, z: 0 }),
            character.sensor.cast_range == 0,
            character.sensor.output is None,
            character.sensor.intersection_match_prevention_cutoff == -500,
            character.ghost_sensor.hits@.len() == 0,
            character.motor.desired_acceleration.is_zero(),
            character.motor.desired_angacl.is_zero(),
            character.controller.enabled,
            character.controller.basis == Some(config.walk),
            character.controller.basis_state.airborne,
            character.controller.basis_state.standing_on is None,
            character.controller.basis_state.standing_offset == 0,
            character.controller.basis_state.effective_velocity.is_zero(),
            character.controller.actions.wf(),
            character.controller.actions.dash == TnuaActionSlot::empty(),
            character.controller.actions.jump == TnuaActionSlot::empty(),
            character.controller.actions.crouch == TnuaActionSlot::empty(),
            character.controller.actions.air_actions_limit == config.actions_in_air,
            character.controller.actions.air_counter.air_actions_count == 0,
            character.crouch_enforcer.offset == config.crouch_enforcer_offset,
            character.crouch_enforcer.probe.cast_origin == config.crouch_enforcer_offset,
            character.crouch_enforcer.probe.cast_direction == (Vector3 { x: 0, y: 1000i32, z: 0 }),
            character.crouch_enforcer.probe.cast_range == 0,
            character.crouch_enforcer.probe.output is None,
            character.crouch_enforcer.probe.intersection_match_prevention_cutoff == -500,
            character.crouch_enforcer.spec_clearance() is None,
            character.fall_through.falling() == Set::<u64>::empty(),
    {
        let mut controller: TnuaController = TnuaController::new(config.actions_in_air);
        controller.request_basis(config.walk);
        TnuaCharacter {
            stage: TnuaPipelineStage::Sensors,
            tracker: TnuaRigidBodyTracker::default(),
            sensor: TnuaProximitySensor::default(),
            ghost_sensor: TnuaGhostSensor::new(),
            motor: TnuaMotor::default(),
            controller,
            crouch_enforcer: TnuaCrouchEnforcer::new(config.crouch_enforcer_offset),
            fall_through: TnuaSimpleFallThroughPlatformsHelper::new(),
        }
    }

    /// The backend's first stage: writes the tracker, and what the sensor,
    /// the ghost sensor and the crouch enforcer's probe report of the hits
    /// that their casts met in this tick. Nothing of the former outputs
    /// stays. The resolver is due next, whatever stage was due before.
    pub fn sense(
        &mut self,
        tracker: TnuaRigidBodyTracker,
        hits: &Vec<TnuaCastHit>,
        probe_hits: &Vec<TnuaCastHit>,
    )
        ensures
            final(self).stage == TnuaPipelineStage::Logic,
            final(self).tracker == tracker,
            old(self).sensor.reports(hits@, final(self).sensor.output),
            final(self).sensor == (TnuaProximitySensor {
                output: final(self).sensor.output,
                ..old(self).sensor
            }),
            final(self).ghost_sensor.hits@ == ghost_candidates(final(self).sensor, hits@),
            old(self).crouch_enforcer.probe.reports(
                probe_hits@,
                final(self).crouch_enforcer.probe.output,
            ),
            final(self).crouch_enforcer.probe == (TnuaProximitySensor {
                output: final(self).crouch_enforcer.probe.output,
                ..old(self).crouch_enforcer.probe
            }),
            final(self).crouch_enforcer.offset == old(self).crouch_enforcer.offset,
            final(self).motor == old(self).motor,
            final(self).controller == old(self).controller,
            final(self).fall_through == old(self).fall_through,
    {
        self.stage = TnuaPipelineStage::Logic;
        self.tracker = tracker;
        self.sensor.update_output(hits);
        self.ghost_sensor.update(&self.sensor, hits);
        self.crouch_enforcer.probe.update_output(probe_hits);
    }

    /// The resolver's stage: one tick of the controller on what was
    /// sensed, with the clearance that the crouch enforcer reports. The
    /// motor is written anew. Afterwards the enforcer's probe is set for
    /// the crouch that is then in its course, and the motor is due to be
    /// taken.
    ///
    /// The resolver runs only on what was sensed for this tick: where the
    /// resolver is not the stage that is due, nothing changes, and the
    /// answer is `false`.
    pub fn resolve(&mut self, millis: u32) -> (ran: bool)
        ensures
            ran == (old(self).stage == TnuaPipelineStage::Logic),
            !ran ==> *final(self) == *old(self),
            ran ==> {
                &&& final(self).stage == TnuaPipelineStage::Motors
                &&& final(self).motor == old(self).controller.spec_motor(
                    old(self).tracker,
                    old(self).sensor,
                    old(self).crouch_enforcer.spec_clearance(),
                    millis,
                )
                &&& final(self).controller == old(self).controller.spec_resolved(
                    old(self).tracker,
                    old(self).sensor,
                    old(self).crouch_enforcer.spec_clearance(),
                    millis,
                )
                &&& final(self).sensor == if old(self).controller.spec_runs(millis as int) {
                    old(self).controller.spec_refreshed(old(self).sensor)
                } else {
                    old(self).sensor
                }
                &&& final(self).crouch_enforcer.probe.cast_direction
                    == old(self).sensor.cast_direction.spec_negated()
                &&& final(self).crouch_enforcer.probe.cast_range as int
                    == TnuaCrouchEnforcer::spec_probe_range(
                    spec_crouch_in_course(final(self).controller),
                )
                &&& final(self).crouch_enforcer.probe.output == old(
                    self,
                ).crouch_enforcer.probe.output
                &&& final(self).crouch_enforcer.offset == old(self).crouch_enforcer.offset
                &&& final(self).tracker == old(self).tracker
                &&& final(self).ghost_sensor == old(self).ghost_sensor
                &&& final(self).fall_through == old(self).fall_through
            },
            old(self).controller.actions.wf() ==> final(self).controller.actions.wf(),
    {
        match self.stage {
            TnuaPipelineStage::Logic => {},
            _ => {
                return false;
            },
        }
        let clearance: Option<Scalar> = self.crouch_enforcer.clearance();
        self.controller.resolve(&self.tracker, &mut self.sensor, &mut self.motor, clearance, millis);
        let crouch: Option<TnuaBuiltinCrouch> = crouch_in_course(&self.controller);
        self.crouch_enforcer.refresh(&self.sensor, crouch);
        self.stage = TnuaPipelineStage::Motors;
        true
    }

    /// The backend's last stage: hands out the motor instruction of this
    /// tick, once. Before the resolver has run, and after the instruction
    /// was taken, there is none.
    pub fn take_motor(&mut self) -> (motor: Option<TnuaMotor>)
        ensures
            motor == if old(self).stage == TnuaPipelineStage::Motors {
                Some(old(self).motor)
            } else {
                None
            },
            final(self).stage == if old(self).stage == TnuaPipelineStage::Motors {
                TnuaPipelineStage::Sensors
            } else {
                old(self).stage
            },
            final(self).tracker == old(self).tracker,
            final(self).sensor == old(self).sensor,
            final(self).ghost_sensor == old(self).ghost_sensor,
            final(self).motor == old(self).motor,
            final(self).controller == old(self).controller,
            final(self).crouch_enforcer == old(self).crouch_enforcer,
            final(self).fall_through == old(self).fall_through,
    {
        match self.stage {
            TnuaPipelineStage::Motors => {
                self.stage = TnuaPipelineStage::Sensors;
                Some(self.motor)
            },
            _ => None,
        }
    }
}

} // verus!
