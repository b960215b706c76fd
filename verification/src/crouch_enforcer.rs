//! The crouch enforcer: a probe above the body that keeps a crouch from
//! ending under an obstruction.

use vstd::prelude::*;
use crate::action::TnuaBuiltinCrouch;
use crate::data_for_backends::TnuaProximitySensor;
use crate::fixed::{sat_neg, saturate, Scalar};
use crate::vector::Vector3;

verus! {

/// A sensor that looks upward from the body for what would obstruct
/// standing up.
#[derive(Clone, Copy, Debug)]
pub struct TnuaCrouchEnforcer {
    /// Where the probe starts, in the entity's coordinate system.
    pub offset: Vector3,
    /// The probe. The backend casts it like the body's own sensor.
    pub probe: TnuaProximitySensor,
}

impl TnuaCrouchEnforcer {
    /// How far the probe looks: as far as the body rises by standing up
    /// from the crouch, and not at all without a crouch.
    pub open spec fn spec_probe_range(crouch: Option<TnuaBuiltinCrouch>) -> int {
        match crouch {
            Some(crouch) => if crouch.float_offset < 0 {
                saturate(-crouch.float_offset)
            } else {
                0
            },
            None => 0,
        }
    }

    /// The distance to the obstruction that the probe reports within its
    /// range.
    pub open spec fn spec_clearance(self) -> Option<Scalar> {
        match self.probe.output {
            Some(hit) => if hit.proximity <= self.probe.cast_range {
                Some(hit.proximity)
            } else {
                None
            },
            None => None,
        }
    }

    /// An enforcer whose probe starts at `offset` and looks up the y axis.
    pub fn new(offset: Vector3) -> (enforcer: TnuaCrouchEnforcer)
        ensures
            enforcer.offset == offset,
            enforcer.probe.cast_origin == offset,
            enforcer.probe.cast_direction == (Vector3 { x: 0, y: 1000i32, z: 0 }),
            enforcer.probe.cast_range == 0,
            enforcer.probe.output is None,
            enforcer.probe.intersection_match_prevention_cutoff == -500,
            enforcer.spec_clearance() is None,
    {
        TnuaCrouchEnforcer {
            offset,
            probe: TnuaProximitySensor {
                cast_origin: offset,
                cast_direction: Vector3::new(0, 1000, 0),
                cast_range: 0,
                output: None,
                intersection_match_prevention_cutoff: -500,
            },
        }
    }

    /// Points the probe against the cast of the body's sensor and sets its
    /// range for the crouch that is in its course, if one is.
    pub fn refresh(&mut self, sensor: &TnuaProximitySensor, crouch: Option<TnuaBuiltinCrouch>)
        ensures
            final(self).offset == old(self).offset,
            final(self).probe.cast_origin == old(self).offset,
            final(self).probe.cast_direction == sensor.cast_direction.spec_negated(),
            final(self).probe.cast_range as int == Self::spec_probe_range(crouch),
            final(self).probe.output == old(self).probe.output,
            final(self).probe.intersection_match_prevention_cutoff == old(
                self,
            ).probe.intersection_match_prevention_cutoff,
    {
        let range: Scalar = match crouch {
            Some(crouch) => if crouch.float_offset < 0 {
                sat_neg(crouch.float_offset)
            } else {
                0
            },
            None => 0,
        };
        self.probe.cast_origin = self.offset;
        self.probe.cast_direction = sensor.cast_direction.negated();
        self.probe.cast_range = range;
    }

    /// The distance to the obstruction above the body, if the probe reports
    /// one within its range.
    pub fn clearance(&self) -> (clearance: Option<Scalar>)
        ensures
            clearance == self.spec_clearance(),
    {
        match self.probe.output {
            Some(hit) => if hit.proximity <= self.probe.cast_range {
                Some(hit.proximity)
            } else {
                None
            },
            None => None,
        }
    }
}

/// An obstruction that the probe reports nearer than the crouch's offset
/// is deep keeps the crouch from ending: with such a report, a crouch that
/// is in its course stays so after the tick, fed or not.
pub proof fn lemma_enforced_crouch_stays(
    enforcer: TnuaCrouchEnforcer,
    crouch: TnuaBuiltinCrouch,
    fed: bool,
    ctx: crate::action::TnuaActionContext,
)
    requires
        ctx.clearance == enforcer.spec_clearance(),
        enforcer.probe.output matches Some(hit) && hit.proximity <= enforcer.probe.cast_range
            && hit.proximity + crouch.float_offset < 0,
    ensures
        crouch.spec_obstructed(ctx.clearance),
        crouch.spec_step(crate::action::TnuaCrouchPhase::Crouching, fed, ctx).0
            == crate::action::TnuaCrouchPhase::Crouching,
{
}

} // verus!
