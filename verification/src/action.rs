//! The transient actions and their state machines.
//!
//! An action lives while it is fed, tick after tick. One that is no longer
//! fed is not removed at once: it moves toward its end as its own state
//! machine says, so that gravity can finish the arc of a jump.
//!
//! The kinds are ordered by priority: a dash goes before a jump, and a jump
//! before a crouch. Where two actions take over the same axis of the motor
//! instruction, the one of the higher priority counts.
//!
//! An action in its course may keep other actions from starting:
//!
//! - a jump, until it has given its impulse;
//! - a dash, while time is left of it;
//! - a crouch, while something obstructs standing up.

use vstd::prelude::*;
use crate::data_for_backends::{TnuaProximitySensor, TnuaRigidBodyTracker};
use crate::fixed::{
    during, floor_sqrt, is_floor_sqrt, isqrt, lemma_product_bound, lemma_rate_applied_over_its_tick,
    magnitude, narrow, per_time, rate, sat_neg, sat_sub, saturate, Scalar,
};
use crate::vector::Vector3;
use crate::walk::{grounded, relative_velocity, up_direction, ground_hit, TnuaBuiltinWalk};

verus! {

/// The kinds of action.
#[derive(Clone, Copy, Debug, PartialEq, Eq, Structural)]
pub enum TnuaActionKind {
    Crouch,
    Jump,
    Dash,
}

impl TnuaActionKind {
    /// The rank of the kind; the action with the higher rank goes first.
    pub open spec fn spec_priority(self) -> int {
        match self {
            TnuaActionKind::Crouch => 0,
            TnuaActionKind::Jump => 1,
            TnuaActionKind::Dash => 2,
        }
    }

    /// Whether the number of actions of this kind is limited in the air.
    pub open spec fn spec_is_air_action(self) -> bool {
        self != TnuaActionKind::Crouch
    }

    pub fn priority(&self) -> (rank: u8)
        ensures
            rank as int == self.spec_priority(),
    {
        match self {
            TnuaActionKind::Crouch => 0,
            TnuaActionKind::Jump => 1,
            TnuaActionKind::Dash => 2,
        }
    }

    pub fn is_air_action(&self) -> (limited: bool)
        ensures
            limited == self.spec_is_air_action(),
    {
        match self {
            TnuaActionKind::Crouch => false,
            _ => true,
        }
    }
}

/// The priorities order the kinds totally: two kinds of the same priority
/// are the same kind.
pub proof fn lemma_priority_orders_the_kinds(first: TnuaActionKind, second: TnuaActionKind)
    ensures
        first.spec_priority() == second.spec_priority() <==> first == second,
        0 <= first.spec_priority() <= 2,
{
}

/// What an action sees of the body and the world in one tick.
#[derive(Clone, Copy, Debug)]
pub struct TnuaActionContext {
    pub basis: TnuaBuiltinWalk,
    pub tracker: TnuaRigidBodyTracker,
    pub sensor: TnuaProximitySensor,
    /// The distance to the nearest obstruction above the body that the
    /// clearance probe reports, if it reports one.
    pub clearance: Option<Scalar>,
    /// The duration of the tick in milliseconds.
    pub millis: u32,
}

impl TnuaActionContext {
    pub open spec fn spec_up(self) -> Vector3 {
        up_direction(self.sensor)
    }

    /// The body's velocity along the up direction, relative to the ground.
    pub open spec fn spec_vertical_velocity(self) -> int {
        relative_velocity(self.tracker, self.sensor).spec_along(self.spec_up())
    }

    /// The strength of gravity against the up direction.
    pub open spec fn spec_gravity(self) -> int {
        saturate(-self.tracker.gravity.spec_along(self.spec_up()))
    }

    pub open spec fn spec_airborne(self) -> bool {
        !grounded(self.sensor)
    }

    /// The ground is at the float height or nearer.
    pub open spec fn spec_landed(self) -> bool {
        grounded(self.sensor) && self.sensor.output->0.proximity <= self.basis.float_height
    }

    pub fn up(&self) -> (up: Vector3)
        ensures
            up == self.spec_up(),
    {
        self.sensor.cast_direction.negated()
    }

    pub fn relative_velocity(&self) -> (velocity: Vector3)
        ensures
            velocity == relative_velocity(self.tracker, self.sensor),
    {
        match ground_hit(&self.sensor) {
            None => self.tracker.velocity.minus(&Vector3::zero()),
            Some(hit) => self.tracker.velocity.minus(&hit.entity_linvel),
        }
    }

    pub fn vertical_velocity(&self) -> (velocity: Scalar)
        ensures
            velocity as int == self.spec_vertical_velocity(),
    {
        self.relative_velocity().along(&self.up())
    }

    pub fn gravity(&self) -> (strength: Scalar)
        ensures
            strength as int == self.spec_gravity(),
    {
        sat_neg(self.tracker.gravity.along(&self.up()))
    }

    pub fn airborne(&self) -> (airborne: bool)
        ensures
            airborne == self.spec_airborne(),
    {
        ground_hit(&self.sensor).is_none()
    }

    pub fn landed(&self) -> (landed: bool)
        ensures
            landed == self.spec_landed(),
    {
        match ground_hit(&self.sensor) {
            None => false,
            Some(hit) => hit.proximity <= self.basis.float_height,
        }
    }
}

/// The parts of the motor instruction that an action takes over in a tick.
/// What it leaves open falls to the actions below it and at last to the basis.
#[derive(Clone, Copy, Debug)]
pub struct TnuaActionOutput {
    /// The acceleration along the up direction.
    pub vertical: Option<Scalar>,
    /// The acceleration perpendicular to the up direction.
    pub horizontal: Option<Vector3>,
}

impl TnuaActionOutput {
    pub open spec fn nothing() -> TnuaActionOutput {
        TnuaActionOutput { vertical: None, horizontal: None }
    }
}

// ---------------------------------------------------------------------------
// Jump
// ---------------------------------------------------------------------------
/// A jump and its configuration.
#[derive(Clone, Copy, Debug, PartialEq, Eq, Structural)]
pub struct TnuaBuiltinJump {
    /// The height that the jump reaches.
    pub height: Scalar,
    /// Added to gravity while the jump ascends without being fed, to cut it
    /// short.
    pub shorten_extra_gravity: Scalar,
    /// Added to gravity while the jump falls.
    pub fall_extra_gravity: Scalar,
}

/// Where a jump is in its course.
#[derive(Clone, Copy, Debug, PartialEq, Eq, Structural)]
pub enum TnuaJumpPhase {
    /// Fed, the impulse not yet given.
    Started,
    /// Rising; the apex is expected within `remaining` milliseconds.
    Ascending { remaining: u32 },
    Falling,
    /// Landed; the action leaves the stack.
    Ended,
}

/// The speed at which a body must leave the ground to rise by `height`
/// against the gravity `gravity`: the square root of `2 * gravity * height`,
/// rounded down. Without gravity or height there is no jump.
pub open spec fn takeoff_speed(gravity: int, height: int) -> int {
    if gravity > 0 && height > 0 {
        saturate(floor_sqrt(2 * gravity * height))
    } else {
        0
    }
}

/// The milliseconds that a body launched at `speed` rises against `gravity`.
pub open spec fn ascent_millis(speed: int, gravity: int) -> int {
    if gravity > 0 && speed > 0 {
        if speed * 1000 / gravity > u32::MAX {
            u32::MAX as int
        } else {
            speed * 1000 / gravity
        }
    } else {
        0
    }
}

/// What is left of a timer after `millis` milliseconds.
pub open spec fn timer_after(remaining: int, millis: int) -> int {
    if remaining > millis {
        remaining - millis
    } else {
        0
    }
}

/// A body that leaves the ground at the takeoff speed `v` for `height`
/// rises, against the constant gravity `gravity`, by `v^2 / (2 * gravity)`:
/// never above `height`, and short of it by less than
/// `(2 * v + 1) / (2 * gravity)`.
pub proof fn lemma_jump_reaches_height(gravity: int, height: int)
    requires
        0 < gravity <= i32::MAX,
        0 < height <= i32::MAX,
        2 * gravity * height < 0x4000_0000_0000_0000,
    ensures
        0 <= takeoff_speed(gravity, height) <= i32::MAX,
        takeoff_speed(gravity, height) * takeoff_speed(gravity, height) <= 2 * gravity * height,
        2 * gravity * height < takeoff_speed(gravity, height) * takeoff_speed(gravity, height) + 2
            * takeoff_speed(gravity, height) + 1,
{
    let n = 2 * gravity * height;
    assert(n >= 0) by (nonlinear_arith)
        requires
            n == 2 * gravity * height,
            gravity > 0,
            height > 0,
    ;
    lemma_floor_sqrt_exists(n);
    let r = floor_sqrt(n);
    assert(is_floor_sqrt(r, n));
    assert(r < 0x8000_0000) by (nonlinear_arith)
        requires
            r >= 0,
            r * r <= n,
            n < 0x4000_0000_0000_0000,
    {
        if r >= 0x8000_0000 {
            assert(r * r >= 0x8000_0000 * 0x8000_0000);
        }
    }
    assert((r + 1) * (r + 1) == r * r + 2 * r + 1) by (nonlinear_arith);
}

/// Every natural number has a floor square root.
pub proof fn lemma_floor_sqrt_exists(n: int)
    requires
        n >= 0,
    ensures
        is_floor_sqrt(floor_sqrt(n), n),
    decreases n,
{
    if n == 0 {
        assert(is_floor_sqrt(0, 0));
    } else {
        lemma_floor_sqrt_exists(n - 1);
        let r = floor_sqrt(n - 1);
        assert(is_floor_sqrt(r, n - 1));
        if n < (r + 1) * (r + 1) {
            assert(is_floor_sqrt(r, n));
        } else {
            assert(n == (r + 1) * (r + 1));
            assert((r + 2) * (r + 2) > (r + 1) * (r + 1)) by (nonlinear_arith)
                requires
                    r >= 0,
            ;
            assert(is_floor_sqrt(r + 1, n));
        }
    }
}

impl TnuaBuiltinJump {
    /// One tick of a jump: the phase that follows and the vertical
    /// acceleration that the jump takes over.
    ///
    /// A started jump gives the impulse that brings the vertical velocity to
    /// the takeoff speed, and ascends. An ascending jump leaves the body to
    /// gravity, with the shortening gravity added when it is no longer fed,
    /// and falls once the vertical velocity is no longer upward or the apex
    /// timer has run out. A falling jump ends when the body has landed.
    pub open spec fn spec_step(self, phase: TnuaJumpPhase, fed: bool, ctx: TnuaActionContext) -> (
        TnuaJumpPhase,
        TnuaActionOutput,
    ) {
        match phase {
            TnuaJumpPhase::Started => {
                if ctx.millis == 0 {
                    (TnuaJumpPhase::Started, TnuaActionOutput::nothing())
                } else {
                    let speed = takeoff_speed(ctx.spec_gravity(), self.height as int);
                    let impulse = saturate(
                        per_time(
                            saturate(speed - ctx.spec_vertical_velocity()),
                            ctx.millis as int,
                        ),
                    );
                    (
                        TnuaJumpPhase::Ascending {
                            remaining: ascent_millis(speed, ctx.spec_gravity()) as u32,
                        },
                        TnuaActionOutput { vertical: Some(impulse as i32), horizontal: None },
                    )
                }
            },
            TnuaJumpPhase::Ascending { remaining } => {
                let left = timer_after(remaining as int, ctx.millis as int);
                let next = if ctx.spec_vertical_velocity() <= 0 || left == 0 {
                    TnuaJumpPhase::Falling
                } else {
                    TnuaJumpPhase::Ascending { remaining: left as u32 }
                };
                let pull = if fed {
                    0
                } else {
                    saturate(-self.shorten_extra_gravity)
                };
                (next, TnuaActionOutput { vertical: Some(pull as i32), horizontal: None })
            },
            TnuaJumpPhase::Falling => {
                if ctx.spec_landed() {
                    (TnuaJumpPhase::Ended, TnuaActionOutput::nothing())
                } else {
                    (
                        TnuaJumpPhase::Falling,
                        TnuaActionOutput {
                            vertical: Some(saturate(-self.fall_extra_gravity) as i32),
                            horizontal: None,
                        },
                    )
                }
            },
            TnuaJumpPhase::Ended => (TnuaJumpPhase::Ended, TnuaActionOutput::nothing()),
        }
    }

    /// A jump cannot be interrupted before it has given its impulse.
    pub open spec fn spec_interruptible(phase: TnuaJumpPhase) -> bool {
        phase != TnuaJumpPhase::Started
    }

    pub fn step(&self, phase: TnuaJumpPhase, fed: bool, ctx: &TnuaActionContext) -> (next: (
        TnuaJumpPhase,
        TnuaActionOutput,
    ))
        ensures
            next == self.spec_step(phase, fed, *ctx),
    {
        match phase {
            TnuaJumpPhase::Started => {
                if ctx.millis == 0 {
                    (TnuaJumpPhase::Started, TnuaActionOutput { vertical: None, horizontal: None })
                } else {
                    let gravity: Scalar = ctx.gravity();
                    let speed: Scalar = jump_takeoff_speed(gravity, self.height);
                    let impulse: Scalar = rate(sat_sub(speed, ctx.vertical_velocity()), ctx.millis);
                    (
                        TnuaJumpPhase::Ascending { remaining: jump_ascent_millis(speed, gravity) },
                        TnuaActionOutput { vertical: Some(impulse), horizontal: None },
                    )
                }
            },
            TnuaJumpPhase::Ascending { remaining } => {
                let left: u32 = if remaining > ctx.millis {
                    remaining - ctx.millis
                } else {
                    0
                };
                let next: TnuaJumpPhase = if ctx.vertical_velocity() <= 0 || left == 0 {
                    TnuaJumpPhase::Falling
                } else {
                    TnuaJumpPhase::Ascending { remaining: left }
                };
                let pull: Scalar = if fed {
                    0
                } else {
                    sat_neg(self.shorten_extra_gravity)
                };
                (next, TnuaActionOutput { vertical: Some(pull), horizontal: None })
            },
            TnuaJumpPhase::Falling => {
                if ctx.landed() {
                    (TnuaJumpPhase::Ended, TnuaActionOutput { vertical: None, horizontal: None })
                } else {
                    (
                        TnuaJumpPhase::Falling,
                        TnuaActionOutput {
                            vertical: Some(sat_neg(self.fall_extra_gravity)),
                            horizontal: None,
                        },
                    )
                }
            },
            TnuaJumpPhase::Ended => (
                TnuaJumpPhase::Ended,
                TnuaActionOutput { vertical: None, horizontal: None },
            ),
        }
    }
}

/// The impulse of a started jump, applied by the backend over the tick,
/// brings the body's vertical velocity to the takeoff speed up to the
/// rounding, where nothing saturates: the velocity changes by no more than
/// it lacks, and by less than one thousandth and the tick's share of a
/// second too little.
pub proof fn lemma_jump_impulse_reaches_takeoff_speed(
    jump: TnuaBuiltinJump,
    fed: bool,
    ctx: TnuaActionContext,
)
    requires
        ctx.millis > 0,
        i32::MIN <= takeoff_speed(ctx.spec_gravity(), jump.height as int)
            - ctx.spec_vertical_velocity() <= i32::MAX,
        i32::MIN <= per_time(
            takeoff_speed(ctx.spec_gravity(), jump.height as int) - ctx.spec_vertical_velocity(),
            ctx.millis as int,
        ) <= i32::MAX,
    ensures
        ({
            let lacking = takeoff_speed(ctx.spec_gravity(), jump.height as int)
                - ctx.spec_vertical_velocity();
            let next = jump.spec_step(TnuaJumpPhase::Started, fed, ctx);
            let gained = during(next.1.vertical->0 as int, ctx.millis as int);
            &&& next.0 is Ascending
            &&& next.1.vertical is Some
            &&& magnitude(gained) <= magnitude(lacking)
            &&& magnitude(lacking) * 1000 < (magnitude(gained) + 1) * 1000 + ctx.millis
        }),
{
    lemma_rate_applied_over_its_tick(
        takeoff_speed(ctx.spec_gravity(), jump.height as int) - ctx.spec_vertical_velocity(),
        ctx.millis as int,
    );
}

/// The takeoff speed of a jump of `height` against `gravity`.
pub fn jump_takeoff_speed(gravity: Scalar, height: Scalar) -> (speed: Scalar)
    ensures
        speed as int == takeoff_speed(gravity as int, height as int),
        speed >= 0,
{
    if gravity > 0 && height > 0 {
        proof {
            lemma_product_bound(2 * gravity, height as int, 0xffff_fffe, 0x7fff_ffff);
            assert(2 * gravity * height > 0) by (nonlinear_arith)
                requires
                    gravity > 0,
                    height > 0,
            ;
        }
        let n: u64 = 2 * (gravity as u64) * (height as u64);
        let root: u32 = isqrt(n);
        narrow(root as i128)
    } else {
        0
    }
}

/// The milliseconds that a body launched at `speed` rises against `gravity`.
pub fn jump_ascent_millis(speed: Scalar, gravity: Scalar) -> (millis: u32)
    ensures
        millis as int == ascent_millis(speed as int, gravity as int),
{
    if gravity > 0 && speed > 0 {
        let t: u64 = (speed as u64) * 1000 / (gravity as u64);
        if t > 0xffff_ffff {
            0xffff_ffff
        } else {
            t as u32
        }
    } else {
        0
    }
}

// ---------------------------------------------------------------------------
// Crouch
// ---------------------------------------------------------------------------
/// A crouch and its configuration.
#[derive(Clone, Copy, Debug, PartialEq, Eq, Structural)]
pub struct TnuaBuiltinCrouch {
    /// Added to the float height while crouching; negative to get lower.
    pub float_offset: Scalar,
}

/// Where a crouch is in its course.
#[derive(Clone, Copy, Debug, PartialEq, Eq, Structural)]
pub enum TnuaCrouchPhase {
    Crouching,
    /// Standing again; the action leaves the stack.
    Ended,
}

impl TnuaBuiltinCrouch {
    /// The clearance probe reports an obstruction nearer than the
    /// height that the body gains by standing up.
    pub open spec fn spec_obstructed(self, clearance: Option<Scalar>) -> bool {
        clearance matches Some(distance) && distance + self.float_offset < 0
    }

    /// One tick of a crouch. While it crouches, the float spring holds the
    /// float height with the offset added. The crouch ends when it is no
    /// longer fed and nothing obstructs standing up.
    pub open spec fn spec_step(self, phase: TnuaCrouchPhase, fed: bool, ctx: TnuaActionContext)
        -> (TnuaCrouchPhase, TnuaActionOutput) {
        match phase {
            TnuaCrouchPhase::Crouching => {
                if fed || self.spec_obstructed(ctx.clearance) {
                    (
                        TnuaCrouchPhase::Crouching,
                        TnuaActionOutput {
                            vertical: Some(
                                ctx.basis.spec_vertical(
                                    ctx.tracker,
                                    ctx.sensor,
                                    self.float_offset as int,
                                ) as i32,
                            ),
                            horizontal: None,
                        },
                    )
                } else {
                    (TnuaCrouchPhase::Ended, TnuaActionOutput::nothing())
                }
            },
            TnuaCrouchPhase::Ended => (TnuaCrouchPhase::Ended, TnuaActionOutput::nothing()),
        }
    }

    /// A crouch under an obstruction cannot be interrupted.
    pub open spec fn spec_interruptible(self, phase: TnuaCrouchPhase, ctx: TnuaActionContext)
        -> bool {
        !(phase == TnuaCrouchPhase::Crouching && self.spec_obstructed(ctx.clearance))
    }

    pub fn obstructed(&self, clearance: Option<Scalar>) -> (obstructed: bool)
        ensures
            obstructed == self.spec_obstructed(clearance),
    {
        match clearance {
            None => false,
            Some(distance) => (distance as i64) + (self.float_offset as i64) < 0,
        }
    }

    pub fn step(&self, phase: TnuaCrouchPhase, fed: bool, ctx: &TnuaActionContext) -> (next: (
        TnuaCrouchPhase,
        TnuaActionOutput,
    ))
        ensures
            next == self.spec_step(phase, fed, *ctx),
    {
        match phase {
            TnuaCrouchPhase::Crouching => {
                if fed || self.obstructed(ctx.clearance) {
                    let hold: Scalar = ctx.basis.vertical_correction(
                        &ctx.tracker,
                        &ctx.sensor,
                        self.float_offset,
                    );
                    (
                        TnuaCrouchPhase::Crouching,
                        TnuaActionOutput { vertical: Some(hold), horizontal: None },
                    )
                } else {
                    (TnuaCrouchPhase::Ended, TnuaActionOutput { vertical: None, horizontal: None })
                }
            },
            TnuaCrouchPhase::Ended => (
                TnuaCrouchPhase::Ended,
                TnuaActionOutput { vertical: None, horizontal: None },
            ),
        }
    }
}

/// A crouch does not end while standing up is obstructed, whether or not it
/// is fed; and a crouch that is neither obstructed nor fed ends in that tick.
pub proof fn lemma_crouch_ends_only_when_clear(
    crouch: TnuaBuiltinCrouch,
    fed: bool,
    ctx: TnuaActionContext,
)
    ensures
        crouch.spec_obstructed(ctx.clearance) ==> crouch.spec_step(
            TnuaCrouchPhase::Crouching,
            fed,
            ctx,
        ).0 == TnuaCrouchPhase::Crouching,
        !crouch.spec_obstructed(ctx.clearance) && !fed ==> crouch.spec_step(
            TnuaCrouchPhase::Crouching,
            fed,
            ctx,
        ).0 == TnuaCrouchPhase::Ended,
        crouch.spec_step(TnuaCrouchPhase::Crouching, fed, ctx).0 == TnuaCrouchPhase::Ended <==> !fed
            && !crouch.spec_obstructed(ctx.clearance),
{
}

// ---------------------------------------------------------------------------
// Dash
// ---------------------------------------------------------------------------
/// A dash and its configuration.
#[derive(Clone, Copy, Debug, PartialEq, Eq, Structural)]
pub struct TnuaBuiltinDash {
    /// The direction and the distance of the dash.
    pub displacement: Vector3,
    /// The milliseconds that the dash takes.
    pub duration: u32,
}

/// Where a dash is in its course.
#[derive(Clone, Copy, Debug, PartialEq, Eq, Structural)]
pub enum TnuaDashPhase {
    /// Moving; `remaining` milliseconds are left.
    Dashing { remaining: u32 },
    /// Over; the action leaves the stack.
    Ended,
}

impl TnuaBuiltinDash {
    /// The velocity that covers the displacement in the duration.
    pub open spec fn spec_velocity(self) -> Vector3 {
        self.displacement.spec_over_time(self.duration as int)
    }

    /// One tick of a dash. While time is left, the dash takes over both
    /// axes with the accelerations that bring the body to the dash velocity
    /// within the tick. It ends when its time has run out, fed or not.
    pub open spec fn spec_step(self, phase: TnuaDashPhase, ctx: TnuaActionContext) -> (
        TnuaDashPhase,
        TnuaActionOutput,
    ) {
        match phase {
            TnuaDashPhase::Dashing { remaining } => {
                if remaining == 0 {
                    (TnuaDashPhase::Ended, TnuaActionOutput::nothing())
                } else {
                    let up = ctx.spec_up();
                    let current = relative_velocity(ctx.tracker, ctx.sensor);
                    let left = timer_after(remaining as int, ctx.millis as int);
                    (
                        if left == 0 {
                            TnuaDashPhase::Ended
                        } else {
                            TnuaDashPhase::Dashing { remaining: left as u32 }
                        },
                        TnuaActionOutput {
                            vertical: Some(
                                saturate(
                                    per_time(
                                        saturate(
                                            self.spec_velocity().spec_along(up)
                                                - current.spec_along(up),
                                        ),
                                        ctx.millis as int,
                                    ),
                                ) as i32,
                            ),
                            horizontal: Some(
                                self.spec_velocity().spec_across(up).spec_minus(
                                    current.spec_across(up),
                                ).spec_over_time(ctx.millis as int),
                            ),
                        },
                    )
                }
            },
            TnuaDashPhase::Ended => (TnuaDashPhase::Ended, TnuaActionOutput::nothing()),
        }
    }

    /// A dash cannot be interrupted while time is left.
    pub open spec fn spec_interruptible(phase: TnuaDashPhase) -> bool {
        !(phase matches TnuaDashPhase::Dashing { remaining } && remaining > 0)
    }

    pub fn velocity(&self) -> (velocity: Vector3)
        ensures
            velocity == self.spec_velocity(),
    {
        self.displacement.over_time(self.duration)
    }

    pub fn step(&self, phase: TnuaDashPhase, ctx: &TnuaActionContext) -> (next: (
        TnuaDashPhase,
        TnuaActionOutput,
    ))
        ensures
            next == self.spec_step(phase, *ctx),
    {
        match phase {
            TnuaDashPhase::Dashing { remaining } => {
                if remaining == 0 {
                    (TnuaDashPhase::Ended, TnuaActionOutput { vertical: None, horizontal: None })
                } else {
                    let up: Vector3 = ctx.up();
                    let current: Vector3 = ctx.relative_velocity();
                    let wanted: Vector3 = self.velocity();
                    let left: u32 = if remaining > ctx.millis {
                        remaining - ctx.millis
                    } else {
                        0
                    };
                    let lift: Scalar = rate(
                        sat_sub(wanted.along(&up), current.along(&up)),
                        ctx.millis,
                    );
                    let push: Vector3 = wanted.across(&up).minus(&current.across(&up)).over_time(
                        ctx.millis,
                    );
                    (
                        if left == 0 {
                            TnuaDashPhase::Ended
                        } else {
                            TnuaDashPhase::Dashing { remaining: left }
                        },
                        TnuaActionOutput { vertical: Some(lift), horizontal: Some(push) },
                    )
                }
            },
            TnuaDashPhase::Ended => (
                TnuaDashPhase::Ended,
                TnuaActionOutput { vertical: None, horizontal: None },
            ),
        }
    }
}

} // verus!
