//! What is decided once, when a body and its backend are set up.

use vstd::prelude::*;
use crate::action::{TnuaBuiltinCrouch, TnuaBuiltinDash, TnuaBuiltinJump};
use crate::fixed::Scalar;
use crate::vector::Vector3;
use crate::walk::TnuaBuiltinWalk;

verus! {

/// The pass of the host's loop in which the controller and the physics
/// backend run.
#[derive(Clone, Copy, Debug, PartialEq, Eq, Structural)]
pub enum ScheduleToUse {
    Update,
    FixedUpdate,
    /// The physics engine's own schedule, which only the XPBD backend has.
    PhysicsSchedule,
}

/// A physics backend.
#[derive(Clone, Copy, Debug, PartialEq, Eq, Structural)]
pub enum TnuaBackend {
    Rapier3d,
    Xpbd3d,
}

/// Why a setup is refused.
#[derive(Clone, Copy, Debug, PartialEq, Eq, Structural)]
pub enum TnuaSetupError {
    /// Two physics backends are configured for one controller.
    ConflictingBackends,
    /// The physics engine's own schedule is asked for without the backend
    /// that has it.
    PhysicsScheduleWithoutXpbd,
}

/// What the host has to assemble.
#[derive(Clone, Copy, Debug, PartialEq, Eq, Structural)]
pub struct TnuaBackendPlan {
    /// The backend to add, if one is configured.
    pub backend: Option<TnuaBackend>,
    pub schedule: ScheduleToUse,
    /// The fixed rate of the physics engine's own schedule, in ticks per
    /// second.
    pub physics_hz: Option<u32>,
}

/// The plan for the configured backends and schedule.
///
/// Two backends at once are refused, and so is the physics engine's own
/// schedule together with the Rapier backend, which can only be asked for
/// where the XPBD backend is configured too. That schedule runs at 144
/// ticks per second.
pub open spec fn spec_plan_backend(rapier3d: bool, xpbd3d: bool, schedule: ScheduleToUse) -> Result<
    TnuaBackendPlan,
    TnuaSetupError,
> {
    if rapier3d && (xpbd3d || schedule == ScheduleToUse::PhysicsSchedule) {
        Err(TnuaSetupError::ConflictingBackends)
    } else if schedule == ScheduleToUse::PhysicsSchedule && !xpbd3d {
        Err(TnuaSetupError::PhysicsScheduleWithoutXpbd)
    } else {
        Ok(
            TnuaBackendPlan {
                backend: if rapier3d {
                    Some(TnuaBackend::Rapier3d)
                } else if xpbd3d {
                    Some(TnuaBackend::Xpbd3d)
                } else {
                    None
                },
                schedule,
                physics_hz: if schedule == ScheduleToUse::PhysicsSchedule {
                    Some(144u32)
                } else {
                    None
                },
            },
        )
    }
}

pub fn plan_backend(rapier3d: bool, xpbd3d: bool, schedule: ScheduleToUse) -> (plan: Result<
    TnuaBackendPlan,
    TnuaSetupError,
>)
    ensures
        plan == spec_plan_backend(rapier3d, xpbd3d, schedule),
        rapier3d && xpbd3d ==> plan == Err::<TnuaBackendPlan, TnuaSetupError>(
            TnuaSetupError::ConflictingBackends,
        ),
{
    let physics: bool = match schedule {
        ScheduleToUse::PhysicsSchedule => true,
        _ => false,
    };
    if rapier3d && (xpbd3d || physics) {
        Err(TnuaSetupError::ConflictingBackends)
    } else if physics && !xpbd3d {
        Err(TnuaSetupError::PhysicsScheduleWithoutXpbd)
    } else {
        let backend: Option<TnuaBackend> = if rapier3d {
            Some(TnuaBackend::Rapier3d)
        } else if xpbd3d {
            Some(TnuaBackend::Xpbd3d)
        } else {
            None
        };
        let physics_hz: Option<u32> = if physics {
            Some(144)
        } else {
            None
        };
        Ok(TnuaBackendPlan { backend, schedule, physics_hz })
    }
}

/// The shape that the backend casts for the proximity sensor.
#[derive(Clone, Copy, Debug, PartialEq, Eq, Structural)]
pub enum TnuaSensorShape {
    /// A ray. It misses a floor that only a part of the body is above.
    Ray,
    Cylinder { half_height: Scalar, radius: Scalar },
    Ball { radius: Scalar },
}

/// What the backend adapter is told of a body when it is created.
#[derive(Clone, Copy, Debug, PartialEq, Eq, Structural)]
pub struct TnuaBackendConfig {
    /// The shape that is cast for the body's own sensor.
    pub sensor_shape: TnuaSensorShape,
    /// The shape that is cast for the crouch enforcer's probe.
    pub enforcer_shape: TnuaSensorShape,
    /// Let the physics engine prevent every rotation but turning.
    pub lock_tilt: bool,
    /// Put the body in the collision group that passes through the
    /// platforms made for it.
    pub phase_through_collision_groups: bool,
    /// The same for the groups of the constraint solver, where the backend
    /// has them.
    pub phase_through_solver_groups: bool,
}

/// The number of sensor shapes on offer.
pub const SENSOR_SHAPE_CHOICES: usize = 6;

/// The sensor shape with the number `choice`: no shape, a flat cylinder
/// that is narrower than the body, as wide, or wider, and a ball that is
/// narrower or as wide. The body's radius is half a unit.
pub open spec fn spec_sensor_shape_choice(choice: int) -> Option<TnuaSensorShape> {
    if choice == 0 {
        Some(TnuaSensorShape::Ray)
    } else if choice == 1 {
        Some(TnuaSensorShape::Cylinder { half_height: 0, radius: 490 })
    } else if choice == 2 {
        Some(TnuaSensorShape::Cylinder { half_height: 0, radius: 500 })
    } else if choice == 3 {
        Some(TnuaSensorShape::Cylinder { half_height: 0, radius: 510 })
    } else if choice == 4 {
        Some(TnuaSensorShape::Ball { radius: 490 })
    } else if choice == 5 {
        Some(TnuaSensorShape::Ball { radius: 500 })
    } else {
        None
    }
}

pub fn sensor_shape_choice(choice: usize) -> (shape: Option<TnuaSensorShape>)
    ensures
        shape == spec_sensor_shape_choice(choice as int),
        shape is Some <==> choice < SENSOR_SHAPE_CHOICES,
{
    match choice {
        0 => Some(TnuaSensorShape::Ray),
        1 => Some(TnuaSensorShape::Cylinder { half_height: 0, radius: 490 }),
        2 => Some(TnuaSensorShape::Cylinder { half_height: 0, radius: 500 }),
        3 => Some(TnuaSensorShape::Cylinder { half_height: 0, radius: 510 }),
        4 => Some(TnuaSensorShape::Ball { radius: 490 }),
        5 => Some(TnuaSensorShape::Ball { radius: 500 }),
        _ => None,
    }
}

impl Default for TnuaBackendConfig {
    fn default() -> (config: Self)
        ensures
            Some(config.sensor_shape) == spec_sensor_shape_choice(1),
            Some(config.enforcer_shape) == spec_sensor_shape_choice(2),
            config.lock_tilt,
            config.phase_through_collision_groups,
            config.phase_through_solver_groups,
    {
        TnuaBackendConfig {
            sensor_shape: TnuaSensorShape::Cylinder { half_height: 0, radius: 490 },
            enforcer_shape: TnuaSensorShape::Cylinder { half_height: 0, radius: 500 },
            lock_tilt: true,
            phase_through_collision_groups: true,
            phase_through_solver_groups: true,
        }
    }
}

/// How the body falls through one-way platforms.
#[derive(Clone, Copy, Debug, PartialEq, Eq, Structural)]
pub enum FallingThroughControlScheme {
    JumpThroughOnly,
    WithoutHelper,
    SingleFall,
    KeepFalling,
}

/// The motion of a character: its basis, its actions and their limits.
#[derive(Clone, Copy, Debug)]
pub struct TnuaCharacterMotionConfig {
    /// The speed of walking.
    pub speed: Scalar,
    pub walk: TnuaBuiltinWalk,
    /// How many jumps and dashes may start in the air.
    pub actions_in_air: u32,
    pub jump: TnuaBuiltinJump,
    pub crouch: TnuaBuiltinCrouch,
    /// How far a dash goes.
    pub dash_distance: Scalar,
    pub dash: TnuaBuiltinDash,
    /// How far below the body a ghost platform must be to stand on it.
    pub one_way_platforms_min_proximity: Scalar,
    pub falling_through: FallingThroughControlScheme,
    /// Where the crouch enforcer's probe starts.
    pub crouch_enforcer_offset: Vector3,
}

impl Default for TnuaCharacterMotionConfig {
    /// A character that floats two units above the ground, walks slopes
    /// of up to an eighth of a turn, turns at once, jumps four units high,
    /// crouches by nine tenths of a unit and dashes ten units.
    fn default() -> (config: Self)
        ensures
            config.speed == 20000,
            config.walk.float_height == 2000,
            config.walk.max_slope_cosine == 707,
            config.walk.turning_angvel is None,
            config.walk.cling_distance == 1000,
            config.walk.spring_frequency == 20000,
            config.walk.acceleration == 60000,
            config.walk.air_acceleration == 20000,
            config.walk.desired_velocity.is_zero(),
            config.walk.desired_turn == 0,
            config.actions_in_air == 1,
            config.jump.height == 4000,
            config.jump.shorten_extra_gravity == 60000,
            config.jump.fall_extra_gravity == 20000,
            config.crouch.float_offset == -900,
            config.dash_distance == 10000,
            config.dash.displacement.is_zero(),
            config.dash.duration == 100,
            config.one_way_platforms_min_proximity == 1000,
            config.falling_through == FallingThroughControlScheme::SingleFall,
            config.crouch_enforcer_offset == (Vector3 { x: 0, y: 500i32, z: 0 }),
    {
        let walk: TnuaBuiltinWalk = TnuaBuiltinWalk {
            float_height: 2000,
            max_slope_cosine: 707,
            turning_angvel: None,
            ..TnuaBuiltinWalk::default()
        };
        TnuaCharacterMotionConfig {
            speed: 20000,
            walk,
            actions_in_air: 1,
            jump: TnuaBuiltinJump {
                height: 4000,
                shorten_extra_gravity: 60000,
                fall_extra_gravity: 20000,
            },
            crouch: TnuaBuiltinCrouch { float_offset: -900 },
            dash_distance: 10000,
            dash: TnuaBuiltinDash { displacement: Vector3::zero(), duration: 100 },
            one_way_platforms_min_proximity: 1000,
            falling_through: FallingThroughControlScheme::SingleFall,
            crouch_enforcer_offset: Vector3::new(0, 500, 0),
        }
    }
}

} // verus!
