//! The data that the controller and a physics backend exchange each tick.
//!
//! The backend writes the tracker and the sensor's output before the
//! controller runs, and reads the motor after it.

use vstd::prelude::*;
use crate::fixed::{Scalar, SCALE};
use crate::vector::Vector3;

verus! {

/// Newtonian state of the rigid body, written by the backend every tick.
#[derive(Clone, Copy, Debug)]
pub struct TnuaRigidBodyTracker {
    pub velocity: Vector3,
    /// The rotation axis multiplied by the rotation speed in radians per second.
    pub angvel: Vector3,
    pub gravity: Vector3,
}

impl Default for TnuaRigidBodyTracker {
    fn default() -> (tracker: Self)
        ensures
            tracker.velocity.is_zero(),
            tracker.angvel.is_zero(),
            tracker.gravity.is_zero(),
    {
        TnuaRigidBodyTracker {
            velocity: Vector3::zero(),
            angvel: Vector3::zero(),
            gravity: Vector3::zero(),
        }
    }
}

/// What a proximity sensor knows of the collider that it detected.
#[derive(Clone, Copy, Debug)]
pub struct TnuaProximitySensorOutput {
    /// The identifier of the detected collider's entity.
    pub entity: u64,
    /// The distance to the collider from the cast origin along the cast direction.
    pub proximity: Scalar,
    /// The normal of the detected surface where the cast hits it.
    pub normal: Vector3,
    pub entity_linvel: Vector3,
    /// The rotation axis multiplied by the rotation speed in radians per second.
    pub entity_angvel: Vector3,
}

/// One collider that the backend's cast met, before the sensor has judged it.
#[derive(Clone, Debug)]
pub struct TnuaCastHit {
    pub entity: u64,
    pub proximity: Scalar,
    pub normal: Vector3,
    pub entity_linvel: Vector3,
    pub entity_angvel: Vector3,
    /// The normals of the contacts between the collider and the casting
    /// body, where the collider moves dynamically and touches the body;
    /// empty where it does not.
    pub contact_normals: Vec<Vector3>,
    /// Whether the collider is a ghost platform: one that the physics engine
    /// lets the body pass through, and that the cast can still detect.
    pub is_ghost: bool,
}

impl TnuaCastHit {
    /// The sensor output that reports this hit.
    pub open spec fn spec_output(self) -> TnuaProximitySensorOutput {
        TnuaProximitySensorOutput {
            entity: self.entity,
            proximity: self.proximity,
            normal: self.normal,
            entity_linvel: self.entity_linvel,
            entity_angvel: self.entity_angvel,
        }
    }

    pub fn output(&self) -> (out: TnuaProximitySensorOutput)
        ensures
            out == self.spec_output(),
    {
        TnuaProximitySensorOutput {
            entity: self.entity,
            proximity: self.proximity,
            normal: self.normal,
            entity_linvel: self.entity_linvel,
            entity_angvel: self.entity_angvel,
        }
    }
}

/// Distance from another collider in a certain direction, and information on
/// that collider.
#[derive(Clone, Copy, Debug)]
pub struct TnuaProximitySensor {
    /// The cast origin in the entity's coordinate system.
    pub cast_origin: Vector3,
    /// The cast direction in the world's coordinate system, a unit vector.
    pub cast_direction: Vector3,
    /// Set by the controller; the backend only reads it.
    pub cast_range: Scalar,
    pub output: Option<TnuaProximitySensorOutput>,
    /// The largest dot product of a touching collider's normal with the cast
    /// direction at which its hit still counts. A floor under a downward
    /// cast gives a product near minus one, a wall beside it one near zero.
    pub intersection_match_prevention_cutoff: Scalar,
}

impl Default for TnuaProximitySensor {
    fn default() -> (sensor: Self)
        ensures
            sensor.cast_origin.is_zero(),
            sensor.cast_direction == (Vector3 { x: 0, y: -1000i32, z: 0 }),
            sensor.cast_range == 0,
            sensor.output is None,
            sensor.intersection_match_prevention_cutoff == -500,
    {
        TnuaProximitySensor {
            cast_origin: Vector3::zero(),
            cast_direction: Vector3::new(0, -1000, 0),
            cast_range: 0,
            output: None,
            intersection_match_prevention_cutoff: -500,
        }
    }
}

impl TnuaProximitySensor {
    /// The hit lies within the cast range.
    pub open spec fn in_range(self, hit: TnuaCastHit) -> bool {
        hit.proximity <= self.cast_range
    }

    /// The contact normal is opposed to the cast direction as far as the
    /// cutoff asks: their dot product is at most the cutoff.
    pub open spec fn within_cutoff(self, contact_normal: Vector3) -> bool {
        contact_normal.spec_dot(self.cast_direction) <= self.intersection_match_prevention_cutoff
            * SCALE
    }

    /// The hit passes the test against colliders that the body is squeezed
    /// into sideways: a collider that touches the body counts only if every
    /// normal of their contacts is within the cutoff.
    pub open spec fn accepts(self, hit: TnuaCastHit) -> bool {
        forall|i: int|
            0 <= i < hit.contact_normals@.len() ==> self.within_cutoff(
                #[trigger] hit.contact_normals@[i],
            )
    }

    /// The hit can become the sensor's output: it is within the range, it passes
    /// the test against sideways contacts, and it is no ghost platform.
    pub open spec fn qualifies(self, hit: TnuaCastHit) -> bool {
        !hit.is_ghost && self.in_range(hit) && self.accepts(hit)
    }

    /// `hits[i]` qualifies, no qualifying hit is closer, and none that is as
    /// close comes before it.
    pub open spec fn is_closest(self, hits: Seq<TnuaCastHit>, i: int) -> bool {
        &&& 0 <= i < hits.len()
        &&& self.qualifies(hits[i])
        &&& forall|j: int|
            0 <= j < hits.len() && self.qualifies(#[trigger] hits[j]) ==> hits[i].proximity
                < hits[j].proximity || (hits[i].proximity == hits[j].proximity && i <= j)
    }

    /// What the sensor reports of the given hits: the closest qualifying
    /// one, or nothing.
    pub open spec fn reports(self, hits: Seq<TnuaCastHit>, out: Option<TnuaProximitySensorOutput>)
        -> bool {
        match out {
            None => forall|j: int| 0 <= j < hits.len() ==> !self.qualifies(#[trigger] hits[j]),
            Some(o) => exists|i: int| #[trigger] self.is_closest(hits, i) && o == hits[i].spec_output(),
        }
    }

    /// Whether a contact with this normal lets the hit count: the dot
    /// product of the normal with the cast direction is at most the cutoff.
    /// A product that equals the cutoff is accepted.
    pub fn is_within_cutoff(&self, contact_normal: &Vector3) -> (within: bool)
        ensures
            within == self.within_cutoff(*contact_normal),
    {
        let d: i128 = contact_normal.dot(&self.cast_direction);
        let limit: i128 = (self.intersection_match_prevention_cutoff as i128) * 1000;
        d <= limit
    }

    /// Whether the hit passes the test against sideways contacts.
    pub fn is_accepted(&self, hit: &TnuaCastHit) -> (accepted: bool)
        ensures
            accepted == self.accepts(*hit),
            hit.contact_normals@.len() == 0 ==> accepted,
    {
        let mut i: usize = 0;
        while i < hit.contact_normals.len()
            invariant
                0 <= i <= hit.contact_normals.len(),
                forall|j: int|
                    0 <= j < i ==> self.within_cutoff(#[trigger] hit.contact_normals@[j]),
            decreases hit.contact_normals.len() - i,
        {
            if !self.is_within_cutoff(&hit.contact_normals[i]) {
                return false;
            }
            i = i + 1;
        }
        true
    }

    /// The closest qualifying hit among those that the cast met.
    pub fn select(&self, hits: &Vec<TnuaCastHit>) -> (out: Option<TnuaProximitySensorOutput>)
        ensures
            self.reports(hits@, out),
            (forall|j: int| 0 <= j < hits.len() ==> hits[j].proximity > self.cast_range)
                ==> out is None,
    {
        let mut best: Option<usize> = None;
        let mut i: usize = 0;
        while i < hits.len()
            invariant
                0 <= i <= hits.len(),
                match best {
                    None => forall|j: int| 0 <= j < i ==> !self.qualifies(#[trigger] hits[j]),
                    Some(b) => {
                        &&& b < i
                        &&& self.qualifies(hits[b as int])
                        &&& forall|j: int|
                            0 <= j < i && self.qualifies(#[trigger] hits[j]) ==> hits[b as int].proximity
                                < hits[j].proximity || (hits[b as int].proximity
                                == hits[j].proximity && b <= j)
                    },
                },
            decreases hits.len() - i,
        {
            let hit: &TnuaCastHit = &hits[i];
            if !hit.is_ghost && hit.proximity <= self.cast_range && self.is_accepted(hit) {
                match best {
                    None => {
                        best = Some(i);
                    },
                    Some(b) => {
                        if hit.proximity < hits[b].proximity {
                            best = Some(i);
                        }
                    },
                }
            }
            i = i + 1;
        }
        match best {
            None => None,
            Some(b) => {
                assert(self.is_closest(hits@, b as int));
                Some(hits[b].output())
            },
        }
    }

    /// Replaces the output by what the sensor reports of this tick's hits.
    /// Nothing of the former output stays.
    pub fn update_output(&mut self, hits: &Vec<TnuaCastHit>)
        ensures
            old(self).reports(hits@, final(self).output),
            (forall|j: int| 0 <= j < hits.len() ==> hits[j].proximity > old(self).cast_range)
                ==> final(self).output is None,
            final(self).cast_origin == old(self).cast_origin,
            final(self).cast_direction == old(self).cast_direction,
            final(self).cast_range == old(self).cast_range,
            final(self).intersection_match_prevention_cutoff == old(
                self,
            ).intersection_match_prevention_cutoff,
    {
        let out: Option<TnuaProximitySensorOutput> = self.select(hits);
        self.output = out;
    }
}

/// What a sensor reports of given hits is determined: two outputs that
/// both report the hits are the same.
pub proof fn lemma_report_is_determined(
    sensor: TnuaProximitySensor,
    hits: Seq<TnuaCastHit>,
    first: Option<TnuaProximitySensorOutput>,
    second: Option<TnuaProximitySensorOutput>,
)
    requires
        sensor.reports(hits, first),
        sensor.reports(hits, second),
    ensures
        first == second,
{
    if first is Some && second is Some {
        let i = choose|i: int| #[trigger]
            sensor.is_closest(hits, i) && first->0 == hits[i].spec_output();
        let j = choose|j: int| #[trigger]
            sensor.is_closest(hits, j) && second->0 == hits[j].spec_output();
        assert(sensor.qualifies(hits[i]));
        assert(sensor.qualifies(hits[j]));
        assert(i == j);
    } else if first is Some {
        let i = choose|i: int| #[trigger]
            sensor.is_closest(hits, i) && first->0 == hits[i].spec_output();
        assert(sensor.qualifies(hits[i]));
    } else if second is Some {
        let j = choose|j: int| #[trigger]
            sensor.is_closest(hits, j) && second->0 == hits[j].spec_output();
        assert(sensor.qualifies(hits[j]));
    }
}

/// A sensor that has nothing within its range reports nothing, whatever
/// its origin, its direction and its cutoff are.
pub proof fn lemma_nothing_in_range_reports_nothing(
    sensor: TnuaProximitySensor,
    hits: Seq<TnuaCastHit>,
    output: Option<TnuaProximitySensorOutput>,
)
    requires
        forall|j: int| 0 <= j < hits.len() ==> (#[trigger] hits[j]).proximity > sensor.cast_range,
        sensor.reports(hits, output),
    ensures
        output is None,
{
    if output is Some {
        let i = choose|i: int| #[trigger]
            sensor.is_closest(hits, i) && output->0 == hits[i].spec_output();
        assert(sensor.qualifies(hits[i]));
    }
}

/// Instructions on how to accelerate the rigid body, written by the
/// controller every tick and never accumulated. The values are not multiplied
/// by the tick's duration: the backend does that when it turns them into a
/// change of velocity.
#[derive(Clone, Copy, Debug)]
pub struct TnuaMotor {
    pub desired_acceleration: Vector3,
    /// The rotation axis multiplied by the angular acceleration.
    pub desired_angacl: Vector3,
}

impl TnuaMotor {
    /// The change of velocity that the backend applies for a tick of
    /// `millis` milliseconds.
    pub fn velocity_change(&self, millis: u32) -> (change: Vector3)
        ensures
            change == self.desired_acceleration.spec_during(millis as int),
    {
        self.desired_acceleration.during(millis)
    }

    /// The change of angular velocity that the backend applies for a tick
    /// of `millis` milliseconds.
    pub fn angvel_change(&self, millis: u32) -> (change: Vector3)
        ensures
            change == self.desired_angacl.spec_during(millis as int),
    {
        self.desired_angacl.during(millis)
    }
}

impl Default for TnuaMotor {
    fn default() -> (motor: Self)
        ensures
            motor.desired_acceleration.is_zero(),
            motor.desired_angacl.is_zero(),
    {
        TnuaMotor { desired_acceleration: Vector3::zero(), desired_angacl: Vector3::zero() }
    }
}

} // verus!
