//! The walking basis: the persistent locomotion mode that keeps the body
//! floating above the ground and moves it toward a desired velocity.

use vstd::prelude::*;
use crate::data_for_backends::{
    TnuaProximitySensor, TnuaProximitySensorOutput, TnuaRigidBodyTracker,
};
use crate::fixed::{
    lemma_product_bound, lemma_trunc_div_bounds, lemma_trunc_div_monotone, narrow, per_time,
    quotient, rate, sat_sub, saturate, trunc_div, Scalar, SCALE,
};
use crate::vector::Vector3;

verus! {

/// The acceleration of a critically damped spring with the natural
/// frequency `frequency`, at `offset` from its rest position and moving at
/// `velocity` away from it: `frequency^2 * offset - 2 * frequency * velocity`.
pub open spec fn spring_acceleration(frequency: int, offset: int, velocity: int) -> int {
    trunc_div(
        frequency * frequency * offset - 2 * frequency * SCALE * velocity,
        SCALE * SCALE,
    )
}

/// `x` held within `-cap ..= cap`; a negative cap counts as zero.
pub open spec fn clamp_symmetric(x: int, cap: int) -> int {
    if cap <= 0 {
        0
    } else if x > cap {
        cap
    } else if x < -cap {
        -cap
    } else {
        x
    }
}

/// A spring at rest in its rest position does not accelerate.
pub proof fn lemma_spring_steady_state(frequency: int)
    ensures
        spring_acceleration(frequency, 0, 0) == 0,
{
    assert(frequency * frequency * 0 == 0) by (nonlinear_arith);
    assert(2 * frequency * SCALE * 0 == 0) by (nonlinear_arith);
}

/// A spring at rest that is displaced by `offset > 0` never accelerates
/// away from its rest position, and accelerates toward it as soon as
/// `frequency^2 * offset` amounts to one thousandth of a unit.
pub proof fn lemma_spring_restores(frequency: int, offset: int)
    requires
        offset > 0,
    ensures
        spring_acceleration(frequency, offset, 0) >= 0,
        frequency * frequency * offset >= SCALE * SCALE ==> spring_acceleration(
            frequency,
            offset,
            0,
        ) >= 1,
        spring_acceleration(frequency, -offset, 0) <= 0,
        frequency * frequency * offset >= SCALE * SCALE ==> spring_acceleration(
            frequency,
            -offset,
            0,
        ) <= -1,
{
    let p = frequency * frequency * offset;
    assert(p >= 0) by (nonlinear_arith)
        requires
            p == frequency * frequency * offset,
            offset > 0,
    ;
    assert(2 * frequency * SCALE * 0 == 0) by (nonlinear_arith);
    assert(frequency * frequency * (-offset) == -p) by (nonlinear_arith)
        requires
            p == frequency * frequency * offset,
    ;
    lemma_trunc_div_bounds(p, SCALE * SCALE);
    lemma_trunc_div_bounds(-p, SCALE * SCALE);
}

/// The spring pushes the harder the farther the body is below its rest
/// position, and the less the faster the body already rises.
pub proof fn lemma_spring_is_monotone(
    frequency: int,
    low_offset: int,
    high_offset: int,
    slow: int,
    fast: int,
)
    requires
        frequency >= 0,
        low_offset <= high_offset,
        slow <= fast,
    ensures
        spring_acceleration(frequency, low_offset, fast) <= spring_acceleration(
            frequency,
            high_offset,
            fast,
        ),
        spring_acceleration(frequency, low_offset, fast) <= spring_acceleration(
            frequency,
            low_offset,
            slow,
        ),
{
    assert(frequency * frequency * low_offset <= frequency * frequency * high_offset)
        by (nonlinear_arith)
        requires
            low_offset <= high_offset,
    ;
    assert(2 * frequency * SCALE * slow <= 2 * frequency * SCALE * fast) by (nonlinear_arith)
        requires
            frequency >= 0,
            slow <= fast,
    ;
    lemma_trunc_div_monotone(
        frequency * frequency * low_offset - 2 * frequency * SCALE * fast,
        frequency * frequency * high_offset - 2 * frequency * SCALE * fast,
        SCALE * SCALE,
    );
    lemma_trunc_div_monotone(
        frequency * frequency * low_offset - 2 * frequency * SCALE * fast,
        frequency * frequency * low_offset - 2 * frequency * SCALE * slow,
        SCALE * SCALE,
    );
}

/// The walking basis and its configuration.
#[derive(Clone, Copy, Debug)]
pub struct TnuaBuiltinWalk {
    /// The velocity to reach, relative to the ground. Its part along the
    /// up direction is ignored.
    pub desired_velocity: Vector3,
    /// The signed angle around the up direction, in radians, that the body
    /// still has to turn to face where it should.
    pub desired_turn: Scalar,
    /// The height above the ground at which the body rests.
    pub float_height: Scalar,
    /// How far below the float height the sensor still looks for ground.
    pub cling_distance: Scalar,
    /// The natural frequency of the spring that holds the float height, in
    /// radians per second.
    pub spring_frequency: Scalar,
    /// The largest horizontal acceleration on the ground.
    pub acceleration: Scalar,
    /// The largest horizontal acceleration in the air.
    pub air_acceleration: Scalar,
    /// The cosine of the steepest slope that the body can walk on.
    pub max_slope_cosine: Scalar,
    /// The largest angular velocity of a turn; `None` turns within one tick.
    pub turning_angvel: Option<Scalar>,
}

/// What the walking basis has learnt of the body in the last tick.
#[derive(Clone, Copy, Debug)]
pub struct TnuaBuiltinWalkState {
    /// No ground within the sensor's range.
    pub airborne: bool,
    /// The entity that the body stands on.
    pub standing_on: Option<u64>,
    /// The float height minus the proximity of the ground; zero in the air.
    pub standing_offset: Scalar,
    /// The body's velocity relative to the ground it stands on.
    pub effective_velocity: Vector3,
}

/// The accelerations that the basis asks for.
#[derive(Clone, Copy, Debug)]
pub struct TnuaBasisOutput {
    /// The acceleration along the up direction.
    pub vertical: Scalar,
    /// The acceleration perpendicular to the up direction.
    pub horizontal: Vector3,
    /// The angular acceleration around the up direction.
    pub turning: Scalar,
}

impl Default for TnuaBuiltinWalk {
    fn default() -> (walk: Self)
        ensures
            walk.desired_velocity.is_zero(),
            walk.desired_turn == 0,
            walk.float_height == 0,
            walk.cling_distance == 1000,
            walk.spring_frequency == 20000,
            walk.acceleration == 60000,
            walk.air_acceleration == 20000,
            walk.max_slope_cosine == 0,
            walk.turning_angvel is None,
    {
        TnuaBuiltinWalk {
            desired_velocity: Vector3::zero(),
            desired_turn: 0,
            float_height: 0,
            cling_distance: 1000,
            spring_frequency: 20000,
            acceleration: 60000,
            air_acceleration: 20000,
            max_slope_cosine: 0,
            turning_angvel: None,
        }
    }
}

impl Default for TnuaBuiltinWalkState {
    fn default() -> (state: Self)
        ensures
            state.airborne,
            state.standing_on is None,
            state.standing_offset == 0,
            state.effective_velocity.is_zero(),
    {
        TnuaBuiltinWalkState {
            airborne: true,
            standing_on: None,
            standing_offset: 0,
            effective_velocity: Vector3::zero(),
        }
    }
}

/// The direction against the cast.
pub open spec fn up_direction(sensor: TnuaProximitySensor) -> Vector3 {
    sensor.cast_direction.spec_negated()
}

/// The sensor has found ground within its range.
pub open spec fn grounded(sensor: TnuaProximitySensor) -> bool {
    sensor.output matches Some(hit) && hit.proximity <= sensor.cast_range
}

/// The velocity of the ground under the body; zero in the air.
pub open spec fn ground_velocity(sensor: TnuaProximitySensor) -> Vector3 {
    if grounded(sensor) {
        sensor.output->0.entity_linvel
    } else {
        Vector3 { x: 0, y: 0, z: 0 }
    }
}

/// The angular velocity of the ground under the body; zero in the air.
pub open spec fn ground_angvel(sensor: TnuaProximitySensor) -> Vector3 {
    if grounded(sensor) {
        sensor.output->0.entity_angvel
    } else {
        Vector3 { x: 0, y: 0, z: 0 }
    }
}

/// The body's velocity relative to the ground.
pub open spec fn relative_velocity(tracker: TnuaRigidBodyTracker, sensor: TnuaProximitySensor)
    -> Vector3 {
    tracker.velocity.spec_minus(ground_velocity(sensor))
}

impl TnuaBuiltinWalk {
    /// The range that the sensor needs for this basis.
    pub open spec fn spec_sensor_range(self) -> int {
        saturate(self.float_height + self.cling_distance)
    }

    /// The height that the spring holds, with `float_offset` added to the
    /// configured float height, minus the proximity of the ground.
    pub open spec fn spec_standing_offset(self, sensor: TnuaProximitySensor, float_offset: int)
        -> int {
        if grounded(sensor) {
            saturate(saturate(self.float_height + float_offset) - sensor.output->0.proximity)
        } else {
            0
        }
    }

    /// The floor correction: the spring's acceleration along the up
    /// direction on the ground, nothing in the air.
    pub open spec fn spec_vertical(
        self,
        tracker: TnuaRigidBodyTracker,
        sensor: TnuaProximitySensor,
        float_offset: int,
    ) -> int {
        if grounded(sensor) {
            saturate(
                spring_acceleration(
                    self.spring_frequency as int,
                    self.spec_standing_offset(sensor, float_offset),
                    relative_velocity(tracker, sensor).spec_along(up_direction(sensor)),
                ),
            )
        } else {
            0
        }
    }

    /// The ground under the body is no steeper than the configured slope.
    pub open spec fn spec_walkable(self, sensor: TnuaProximitySensor) -> bool {
        grounded(sensor) ==> sensor.output->0.normal.spec_dot(up_direction(sensor))
            >= self.max_slope_cosine * SCALE
    }

    /// The bound on the horizontal acceleration.
    pub open spec fn spec_acceleration_limit(self, sensor: TnuaProximitySensor) -> int {
        if grounded(sensor) {
            self.acceleration as int
        } else {
            self.air_acceleration as int
        }
    }

    /// The horizontal acceleration that would reach the desired velocity
    /// within this tick, before it is bounded.
    pub open spec fn spec_horizontal_demand(
        self,
        tracker: TnuaRigidBodyTracker,
        sensor: TnuaProximitySensor,
        millis: int,
    ) -> Vector3 {
        let up = up_direction(sensor);
        self.desired_velocity.spec_across(up).spec_minus(
            relative_velocity(tracker, sensor).spec_across(up),
        ).spec_over_time(millis)
    }

    /// The horizontal acceleration: the demand bounded by the acceleration
    /// limit, and nothing on ground that is too steep.
    pub open spec fn spec_horizontal(
        self,
        tracker: TnuaRigidBodyTracker,
        sensor: TnuaProximitySensor,
        millis: int,
    ) -> Vector3 {
        if self.spec_walkable(sensor) {
            self.spec_horizontal_demand(tracker, sensor, millis).spec_limit_length(
                self.spec_acceleration_limit(sensor),
            )
        } else {
            Vector3 { x: 0, y: 0, z: 0 }
        }
    }

    /// The angular velocity around the up direction that the turn asks for.
    pub open spec fn spec_turn_rate(self, millis: int) -> int {
        let whole = saturate(per_time(self.desired_turn as int, millis));
        match self.turning_angvel {
            None => whole,
            Some(cap) => clamp_symmetric(whole, cap as int),
        }
    }

    /// The angular acceleration around the up direction that reaches the
    /// turn rate within this tick.
    pub open spec fn spec_turning(
        self,
        tracker: TnuaRigidBodyTracker,
        sensor: TnuaProximitySensor,
        millis: int,
    ) -> int {
        let existing = tracker.angvel.spec_minus(ground_angvel(sensor)).spec_along(
            up_direction(sensor),
        );
        saturate(per_time(saturate(self.spec_turn_rate(millis) - existing), millis))
    }

    pub open spec fn spec_apply(
        self,
        tracker: TnuaRigidBodyTracker,
        sensor: TnuaProximitySensor,
        millis: int,
    ) -> TnuaBasisOutput {
        TnuaBasisOutput {
            vertical: self.spec_vertical(tracker, sensor, 0) as i32,
            horizontal: self.spec_horizontal(tracker, sensor, millis),
            turning: self.spec_turning(tracker, sensor, millis) as i32,
        }
    }

    pub open spec fn spec_sense(self, tracker: TnuaRigidBodyTracker, sensor: TnuaProximitySensor)
        -> TnuaBuiltinWalkState {
        TnuaBuiltinWalkState {
            airborne: !grounded(sensor),
            standing_on: if grounded(sensor) {
                Some(sensor.output->0.entity)
            } else {
                None
            },
            standing_offset: self.spec_standing_offset(sensor, 0) as i32,
            effective_velocity: relative_velocity(tracker, sensor),
        }
    }

    /// The range that the sensor needs for this basis: the float height
    /// and the cling distance below it.
    pub fn sensor_range(&self) -> (range: Scalar)
        ensures
            range as int == self.spec_sensor_range(),
    {
        narrow(self.float_height as i128 + self.cling_distance as i128)
    }

    /// The floor correction with `float_offset` added to the float height.
    pub fn vertical_correction(
        &self,
        tracker: &TnuaRigidBodyTracker,
        sensor: &TnuaProximitySensor,
        float_offset: Scalar,
    ) -> (acceleration: Scalar)
        ensures
            acceleration as int == self.spec_vertical(*tracker, *sensor, float_offset as int),
            !grounded(*sensor) ==> acceleration == 0,
    {
        match ground_hit(sensor) {
            None => 0,
            Some(hit) => {
                let target: Scalar = narrow(self.float_height as i128 + float_offset as i128);
                let offset: Scalar = sat_sub(target, hit.proximity);
                let up: Vector3 = sensor.cast_direction.negated();
                let velocity: Scalar = tracker.velocity.minus(&hit.entity_linvel).along(&up);
                float_spring(self.spring_frequency, offset, velocity)
            },
        }
    }

    /// The horizontal acceleration toward the desired velocity.
    pub fn horizontal_correction(
        &self,
        tracker: &TnuaRigidBodyTracker,
        sensor: &TnuaProximitySensor,
        millis: u32,
    ) -> (acceleration: Vector3)
        ensures
            acceleration == self.spec_horizontal(*tracker, *sensor, millis as int),
            !self.spec_walkable(*sensor) ==> acceleration.is_zero(),
            self.spec_acceleration_limit(*sensor) >= 0 ==> acceleration.spec_norm_squared()
                <= self.spec_acceleration_limit(*sensor) * self.spec_acceleration_limit(*sensor),
    {
        let up: Vector3 = sensor.cast_direction.negated();
        let ground: Option<TnuaProximitySensorOutput> = ground_hit(sensor);
        let (ground_linvel, limit, walkable): (Vector3, Scalar, bool) = match ground {
            None => (Vector3::zero(), self.air_acceleration, true),
            Some(hit) => {
                let steepness: i128 = hit.normal.dot(&up);
                let least: i128 = (self.max_slope_cosine as i128) * 1000;
                (hit.entity_linvel, self.acceleration, steepness >= least)
            },
        };
        if walkable {
            let wanted: Vector3 = self.desired_velocity.across(&up);
            let current: Vector3 = tracker.velocity.minus(&ground_linvel).across(&up);
            wanted.minus(&current).over_time(millis).limit_length(limit)
        } else {
            proof {
                assert(0int * 0int == 0) by (nonlinear_arith);
                assert(self.spec_acceleration_limit(*sensor) * self.spec_acceleration_limit(
                    *sensor,
                ) >= 0) by (nonlinear_arith);
            }
            Vector3::zero()
        }
    }

    /// The angular acceleration around the up direction that performs the
    /// desired turn.
    pub fn turning_correction(
        &self,
        tracker: &TnuaRigidBodyTracker,
        sensor: &TnuaProximitySensor,
        millis: u32,
    ) -> (acceleration: Scalar)
        ensures
            acceleration as int == self.spec_turning(*tracker, *sensor, millis as int),
    {
        let up: Vector3 = sensor.cast_direction.negated();
        let ground_spin: Vector3 = match ground_hit(sensor) {
            None => Vector3::zero(),
            Some(hit) => hit.entity_angvel,
        };
        let existing: Scalar = tracker.angvel.minus(&ground_spin).along(&up);
        let whole: Scalar = rate(self.desired_turn, millis);
        let wanted: Scalar = match self.turning_angvel {
            None => whole,
            Some(cap) => {
                if cap <= 0 {
                    0
                } else if whole > cap {
                    cap
                } else if whole < -cap {
                    -cap
                } else {
                    whole
                }
            },
        };
        rate(sat_sub(wanted, existing), millis)
    }

    /// The accelerations that the basis asks for in this tick.
    pub fn apply(&self, tracker: &TnuaRigidBodyTracker, sensor: &TnuaProximitySensor, millis: u32)
        -> (output: TnuaBasisOutput)
        ensures
            output == self.spec_apply(*tracker, *sensor, millis as int),
            !grounded(*sensor) ==> output.vertical == 0,
    {
        TnuaBasisOutput {
            vertical: self.vertical_correction(tracker, sensor, 0),
            horizontal: self.horizontal_correction(tracker, sensor, millis),
            turning: self.turning_correction(tracker, sensor, millis),
        }
    }

    /// What the basis learns of the body in this tick.
    pub fn sense(&self, tracker: &TnuaRigidBodyTracker, sensor: &TnuaProximitySensor) -> (state:
        TnuaBuiltinWalkState)
        ensures
            state == self.spec_sense(*tracker, *sensor),
    {
        match ground_hit(sensor) {
            None => TnuaBuiltinWalkState {
                airborne: true,
                standing_on: None,
                standing_offset: 0,
                effective_velocity: tracker.velocity.minus(&Vector3::zero()),
            },
            Some(hit) => TnuaBuiltinWalkState {
                airborne: false,
                standing_on: Some(hit.entity),
                standing_offset: sat_sub(narrow(self.float_height as i128), hit.proximity),
                effective_velocity: tracker.velocity.minus(&hit.entity_linvel),
            },
        }
    }
}

/// The ground that the sensor has found within its range.
pub fn ground_hit(sensor: &TnuaProximitySensor) -> (hit: Option<TnuaProximitySensorOutput>)
    ensures
        hit is Some <==> grounded(*sensor),
        hit is Some ==> hit == sensor.output,
{
    match sensor.output {
        None => None,
        Some(hit) => {
            if hit.proximity <= sensor.cast_range {
                Some(hit)
            } else {
                None
            }
        },
    }
}

/// The acceleration of the critically damped float spring, saturating.
pub fn float_spring(frequency: Scalar, offset: Scalar, velocity: Scalar) -> (acceleration: Scalar)
    ensures
        acceleration as int == saturate(
            spring_acceleration(frequency as int, offset as int, velocity as int),
        ),
{
    proof {
        lemma_product_bound(frequency as int, frequency as int, 0x8000_0000, 0x8000_0000);
        lemma_product_bound(
            frequency * frequency,
            offset as int,
            0x4000_0000_0000_0000int,
            0x8000_0000,
        );
        lemma_product_bound(2 * frequency * SCALE, velocity as int, 4294967296000int, 0x8000_0000);
    }
    let f: i128 = frequency as i128;
    let pull: i128 = f * f * (offset as i128);
    let drag: i128 = 2 * f * 1000 * (velocity as i128);
    narrow(quotient(pull - drag, 1000000))
}

/// A body at rest relative to the floor, with the floor at the float
/// height, gets no floor correction: the spring is in its steady state.
pub proof fn lemma_walk_steady_state(
    walk: TnuaBuiltinWalk,
    tracker: TnuaRigidBodyTracker,
    sensor: TnuaProximitySensor,
)
    requires
        grounded(sensor),
        sensor.output->0.proximity == walk.float_height,
        tracker.velocity == sensor.output->0.entity_linvel,
    ensures
        walk.spec_vertical(tracker, sensor, 0) == 0,
        walk.spec_apply(tracker, sensor, 0).vertical == 0,
        forall|millis: int| (#[trigger] walk.spec_apply(tracker, sensor, millis)).vertical == 0,
{
    let up = up_direction(sensor);
    let rest = relative_velocity(tracker, sensor);
    assert(rest == Vector3 { x: 0, y: 0, z: 0 });
    assert(rest.spec_dot(up) == 0) by (nonlinear_arith)
        requires
            rest.x == 0,
            rest.y == 0,
            rest.z == 0,
            rest.spec_dot(up) == rest.x * up.x + rest.y * up.y + rest.z * up.z,
    ;
    assert(rest.spec_along(up) == 0);
    assert(walk.spec_standing_offset(sensor, 0) == 0);
    lemma_spring_steady_state(walk.spring_frequency as int);
}

/// A body at rest relative to the floor that is nearer to the floor than
/// the float height is never pushed down, and is pushed up as soon as
/// `spring_frequency^2` times the missing height amounts to a thousandth
/// of a unit.
pub proof fn lemma_walk_pushes_up(
    walk: TnuaBuiltinWalk,
    tracker: TnuaRigidBodyTracker,
    sensor: TnuaProximitySensor,
)
    requires
        grounded(sensor),
        sensor.output->0.proximity < walk.float_height,
        tracker.velocity == sensor.output->0.entity_linvel,
    ensures
        walk.spec_vertical(tracker, sensor, 0) >= 0,
        walk.spring_frequency * walk.spring_frequency * walk.spec_standing_offset(sensor, 0)
            >= SCALE * SCALE ==> walk.spec_vertical(tracker, sensor, 0) >= 1,
{
    let up = up_direction(sensor);
    let rest = relative_velocity(tracker, sensor);
    assert(rest == Vector3 { x: 0, y: 0, z: 0 });
    assert(rest.spec_dot(up) == 0) by (nonlinear_arith)
        requires
            rest.x == 0,
            rest.y == 0,
            rest.z == 0,
            rest.spec_dot(up) == rest.x * up.x + rest.y * up.y + rest.z * up.z,
    ;
    assert(rest.spec_along(up) == 0);
    let offset = walk.spec_standing_offset(sensor, 0);
    assert(offset > 0);
    lemma_spring_restores(walk.spring_frequency as int, offset);
}

/// In the air the basis corrects no height: the vertical motion is
/// gravity's.
pub proof fn lemma_walk_airborne_defers_to_gravity(
    walk: TnuaBuiltinWalk,
    tracker: TnuaRigidBodyTracker,
    sensor: TnuaProximitySensor,
    float_offset: int,
)
    requires
        !grounded(sensor),
    ensures
        walk.spec_vertical(tracker, sensor, float_offset) == 0,
        walk.spec_sense(tracker, sensor).airborne,
{
}

} // verus!
