//! The action stack: which actions are active, which wait, and what they
//! take over of the motor instruction.
//!
//! The stack has one slot for each kind of action, in the order of their
//! priority. An action that is fed while its kind is not active starts in
//! that tick, unless an active action cannot be interrupted: then it waits
//! in its slot until no action stands in its way. Each tick every active
//! action makes one step; of the accelerations that they take over, the one
//! of the action with the highest priority counts on each axis.

use vstd::prelude::*;
use crate::action::{
    TnuaActionContext, TnuaActionKind, TnuaActionOutput, TnuaBuiltinCrouch, TnuaBuiltinDash,
    TnuaBuiltinJump, TnuaCrouchPhase, TnuaDashPhase, TnuaJumpPhase,
};

verus! {

/// A request for an action: its kind and its parameters.
#[derive(Clone, Copy, Debug)]
pub enum TnuaAction {
    Crouch(TnuaBuiltinCrouch),
    Jump(TnuaBuiltinJump),
    Dash(TnuaBuiltinDash),
}

/// An action in its course.
#[derive(Clone, Copy, Debug)]
pub enum TnuaActiveAction {
    Crouch(TnuaBuiltinCrouch, TnuaCrouchPhase),
    Jump(TnuaBuiltinJump, TnuaJumpPhase),
    Dash(TnuaBuiltinDash, TnuaDashPhase),
}

impl TnuaAction {
    pub open spec fn spec_kind(self) -> TnuaActionKind {
        match self {
            TnuaAction::Crouch(_) => TnuaActionKind::Crouch,
            TnuaAction::Jump(_) => TnuaActionKind::Jump,
            TnuaAction::Dash(_) => TnuaActionKind::Dash,
        }
    }

    /// The action at its beginning.
    pub open spec fn spec_start(self) -> TnuaActiveAction {
        match self {
            TnuaAction::Crouch(crouch) => TnuaActiveAction::Crouch(
                crouch,
                TnuaCrouchPhase::Crouching,
            ),
            TnuaAction::Jump(jump) => TnuaActiveAction::Jump(jump, TnuaJumpPhase::Started),
            TnuaAction::Dash(dash) => TnuaActiveAction::Dash(
                dash,
                TnuaDashPhase::Dashing { remaining: dash.duration },
            ),
        }
    }

    pub fn kind(&self) -> (kind: TnuaActionKind)
        ensures
            kind == self.spec_kind(),
    {
        match self {
            TnuaAction::Crouch(_) => TnuaActionKind::Crouch,
            TnuaAction::Jump(_) => TnuaActionKind::Jump,
            TnuaAction::Dash(_) => TnuaActionKind::Dash,
        }
    }

    pub fn start(&self) -> (active: TnuaActiveAction)
        ensures
            active == self.spec_start(),
            active.spec_kind() == self.spec_kind(),
    {
        match self {
            TnuaAction::Crouch(crouch) => TnuaActiveAction::Crouch(
                *crouch,
                TnuaCrouchPhase::Crouching,
            ),
            TnuaAction::Jump(jump) => TnuaActiveAction::Jump(*jump, TnuaJumpPhase::Started),
            TnuaAction::Dash(dash) => TnuaActiveAction::Dash(
                *dash,
                TnuaDashPhase::Dashing { remaining: dash.duration },
            ),
        }
    }
}

impl TnuaActiveAction {
    pub open spec fn spec_kind(self) -> TnuaActionKind {
        match self {
            TnuaActiveAction::Crouch(_, _) => TnuaActionKind::Crouch,
            TnuaActiveAction::Jump(_, _) => TnuaActionKind::Jump,
            TnuaActiveAction::Dash(_, _) => TnuaActionKind::Dash,
        }
    }

    /// The action has reached the end of its course.
    pub open spec fn spec_ended(self) -> bool {
        match self {
            TnuaActiveAction::Crouch(_, phase) => phase == TnuaCrouchPhase::Ended,
            TnuaActiveAction::Jump(_, phase) => phase == TnuaJumpPhase::Ended,
            TnuaActiveAction::Dash(_, phase) => phase == TnuaDashPhase::Ended,
        }
    }

    /// A newly fed action of another kind may start beside this one.
    pub open spec fn spec_interruptible(self, ctx: TnuaActionContext) -> bool {
        match self {
            TnuaActiveAction::Crouch(crouch, phase) => crouch.spec_interruptible(phase, ctx),
            TnuaActiveAction::Jump(_, phase) => TnuaBuiltinJump::spec_interruptible(phase),
            TnuaActiveAction::Dash(_, phase) => TnuaBuiltinDash::spec_interruptible(phase),
        }
    }

    /// One tick of the action, by its kind.
    pub open spec fn spec_step(self, fed: bool, ctx: TnuaActionContext) -> (
        TnuaActiveAction,
        TnuaActionOutput,
    ) {
        match self {
            TnuaActiveAction::Crouch(crouch, phase) => {
                let next = crouch.spec_step(phase, fed, ctx);
                (TnuaActiveAction::Crouch(crouch, next.0), next.1)
            },
            TnuaActiveAction::Jump(jump, phase) => {
                let next = jump.spec_step(phase, fed, ctx);
                (TnuaActiveAction::Jump(jump, next.0), next.1)
            },
            TnuaActiveAction::Dash(dash, phase) => {
                let next = dash.spec_step(phase, ctx);
                (TnuaActiveAction::Dash(dash, next.0), next.1)
            },
        }
    }

    pub fn kind(&self) -> (kind: TnuaActionKind)
        ensures
            kind == self.spec_kind(),
    {
        match self {
            TnuaActiveAction::Crouch(_, _) => TnuaActionKind::Crouch,
            TnuaActiveAction::Jump(_, _) => TnuaActionKind::Jump,
            TnuaActiveAction::Dash(_, _) => TnuaActionKind::Dash,
        }
    }

    pub fn ended(&self) -> (ended: bool)
        ensures
            ended == self.spec_ended(),
    {
        match self {
            TnuaActiveAction::Crouch(_, phase) => match phase {
                TnuaCrouchPhase::Ended => true,
                _ => false,
            },
            TnuaActiveAction::Jump(_, phase) => match phase {
                TnuaJumpPhase::Ended => true,
                _ => false,
            },
            TnuaActiveAction::Dash(_, phase) => match phase {
                TnuaDashPhase::Ended => true,
                _ => false,
            },
        }
    }

    pub fn interruptible(&self, ctx: &TnuaActionContext) -> (interruptible: bool)
        ensures
            interruptible == self.spec_interruptible(*ctx),
    {
        match self {
            TnuaActiveAction::Crouch(crouch, phase) => match phase {
                TnuaCrouchPhase::Crouching => !crouch.obstructed(ctx.clearance),
                TnuaCrouchPhase::Ended => true,
            },
            TnuaActiveAction::Jump(_, phase) => match phase {
                TnuaJumpPhase::Started => false,
                _ => true,
            },
            TnuaActiveAction::Dash(_, phase) => match phase {
                TnuaDashPhase::Dashing { remaining } => *remaining == 0,
                TnuaDashPhase::Ended => true,
            },
        }
    }

    pub fn step(&self, fed: bool, ctx: &TnuaActionContext) -> (next: (
        TnuaActiveAction,
        TnuaActionOutput,
    ))
        ensures
            next == self.spec_step(fed, *ctx),
            next.0.spec_kind() == self.spec_kind(),
    {
        match self {
            TnuaActiveAction::Crouch(crouch, phase) => {
                let (phase, output): (TnuaCrouchPhase, TnuaActionOutput) = crouch.step(
                    *phase,
                    fed,
                    ctx,
                );
                (TnuaActiveAction::Crouch(*crouch, phase), output)
            },
            TnuaActiveAction::Jump(jump, phase) => {
                let (phase, output): (TnuaJumpPhase, TnuaActionOutput) = jump.step(
                    *phase,
                    fed,
                    ctx,
                );
                (TnuaActiveAction::Jump(*jump, phase), output)
            },
            TnuaActiveAction::Dash(dash, phase) => {
                let (phase, output): (TnuaDashPhase, TnuaActionOutput) = dash.step(*phase, ctx);
                (TnuaActiveAction::Dash(*dash, phase), output)
            },
        }
    }
}

/// The place of one kind of action in the stack.
#[derive(Clone, Copy, Debug)]
pub struct TnuaActionSlot {
    /// The action of this kind that is in its course.
    pub active: Option<TnuaActiveAction>,
    /// The request that was fed since the last tick.
    pub fed: Option<TnuaAction>,
    /// The request that waits for an action that cannot be interrupted.
    pub queued: Option<TnuaAction>,
}

/// What one tick makes of a slot.
#[derive(Clone, Copy, Debug)]
pub struct TnuaSlotAdvance {
    pub slot: TnuaActionSlot,
    /// What the slot's action takes over in this tick.
    pub output: TnuaActionOutput,
    /// An action has started in this tick.
    pub started: bool,
}

impl TnuaActionSlot {
    pub open spec fn empty() -> TnuaActionSlot {
        TnuaActionSlot { active: None, fed: None, queued: None }
    }

    /// The request that asks to start: the one fed in this tick, else the
    /// one that waits.
    pub open spec fn spec_request(self) -> Option<TnuaAction> {
        if self.fed is Some {
            self.fed
        } else {
            self.queued
        }
    }

    /// The slot holds an action that cannot be interrupted.
    pub open spec fn spec_blocks(self, ctx: TnuaActionContext) -> bool {
        self.active matches Some(action) && !action.spec_interruptible(ctx)
    }

    /// The slot after a step of the action `action`, and what the action
    /// takes over. An action that has ended leaves the slot.
    pub open spec fn spec_stepped(
        action: TnuaActiveAction,
        fed: bool,
        started: bool,
        ctx: TnuaActionContext,
    ) -> TnuaSlotAdvance {
        let next = action.spec_step(fed, ctx);
        TnuaSlotAdvance {
            slot: TnuaActionSlot {
                active: if next.0.spec_ended() {
                    None
                } else {
                    Some(next.0)
                },
                fed: None,
                queued: None,
            },
            output: next.1,
            started,
        }
    }

    /// One tick of the slot.
    ///
    /// An active action makes its step, fed or not. Where none is active, a
    /// request starts and makes its first step, unless the stack is blocked,
    /// in which case the request waits, or the limit of actions in the air
    /// forbids it, in which case the request is dropped.
    pub open spec fn spec_advance(self, blocked: bool, air_allowed: bool, ctx: TnuaActionContext)
        -> TnuaSlotAdvance {
        match self.active {
            Some(action) => Self::spec_stepped(action, self.fed is Some, false, ctx),
            None => match self.spec_request() {
                None => TnuaSlotAdvance {
                    slot: Self::empty(),
                    output: TnuaActionOutput::nothing(),
                    started: false,
                },
                Some(request) => {
                    if blocked {
                        TnuaSlotAdvance {
                            slot: TnuaActionSlot { active: None, fed: None, queued: Some(request) },
                            output: TnuaActionOutput::nothing(),
                            started: false,
                        }
                    } else if !air_allowed {
                        TnuaSlotAdvance {
                            slot: Self::empty(),
                            output: TnuaActionOutput::nothing(),
                            started: false,
                        }
                    } else {
                        Self::spec_stepped(request.spec_start(), self.fed is Some, true, ctx)
                    }
                },
            },
        }
    }

    pub fn new() -> (slot: TnuaActionSlot)
        ensures
            slot == Self::empty(),
    {
        TnuaActionSlot { active: None, fed: None, queued: None }
    }

    pub fn blocks(&self, ctx: &TnuaActionContext) -> (blocks: bool)
        ensures
            blocks == self.spec_blocks(*ctx),
    {
        match &self.active {
            None => false,
            Some(action) => !action.interruptible(ctx),
        }
    }

    fn stepped(action: &TnuaActiveAction, fed: bool, started: bool, ctx: &TnuaActionContext) -> (advance:
        TnuaSlotAdvance)
        ensures
            advance == Self::spec_stepped(*action, fed, started, *ctx),
    {
        let (next, output): (TnuaActiveAction, TnuaActionOutput) = action.step(fed, ctx);
        let active: Option<TnuaActiveAction> = if next.ended() {
            None
        } else {
            Some(next)
        };
        TnuaSlotAdvance {
            slot: TnuaActionSlot { active, fed: None, queued: None },
            output,
            started,
        }
    }

    pub fn advance(&self, blocked: bool, air_allowed: bool, ctx: &TnuaActionContext) -> (advance:
        TnuaSlotAdvance)
        ensures
            advance == self.spec_advance(blocked, air_allowed, *ctx),
    {
        let fed: bool = self.fed.is_some();
        match &self.active {
            Some(action) => Self::stepped(action, fed, false, ctx),
            None => {
                let request: Option<TnuaAction> = if fed {
                    self.fed
                } else {
                    self.queued
                };
                match request {
                    None => TnuaSlotAdvance {
                        slot: TnuaActionSlot { active: None, fed: None, queued: None },
                        output: TnuaActionOutput { vertical: None, horizontal: None },
                        started: false,
                    },
                    Some(request) => {
                        if blocked {
                            TnuaSlotAdvance {
                                slot: TnuaActionSlot {
                                    active: None,
                                    fed: None,
                                    queued: Some(request),
                                },
                                output: TnuaActionOutput { vertical: None, horizontal: None },
                                started: false,
                            }
                        } else if !air_allowed {
                            TnuaSlotAdvance {
                                slot: TnuaActionSlot { active: None, fed: None, queued: None },
                                output: TnuaActionOutput { vertical: None, horizontal: None },
                                started: false,
                            }
                        } else {
                            let action: TnuaActiveAction = request.start();
                            Self::stepped(&action, fed, true, ctx)
                        }
                    },
                }
            },
        }
    }
}

/// Counts the actions that have started since the body left the ground.
#[derive(Clone, Copy, Debug)]
pub struct TnuaSimpleAirActionsCounter {
    pub air_actions_count: u32,
}

impl TnuaSimpleAirActionsCounter {
    /// The count with which a tick begins: on the ground it starts anew.
    pub open spec fn spec_at_tick(self, airborne: bool) -> int {
        if airborne {
            self.air_actions_count as int
        } else {
            0
        }
    }

    /// Whether an action of the kind `kind` may start, `count` actions
    /// having started in the air.
    pub open spec fn spec_allows(kind: TnuaActionKind, airborne: bool, count: int, limit: int)
        -> bool {
        !kind.spec_is_air_action() || !airborne || count < limit
    }

    /// The count after an action of the kind `kind` has started or not.
    pub open spec fn spec_counted(kind: TnuaActionKind, airborne: bool, count: int, started: bool)
        -> int {
        if started && airborne && kind.spec_is_air_action() && count < u32::MAX {
            count + 1
        } else {
            count
        }
    }

    pub fn allows(kind: TnuaActionKind, airborne: bool, count: u32, limit: u32) -> (allowed: bool)
        ensures
            allowed == Self::spec_allows(kind, airborne, count as int, limit as int),
    {
        !kind.is_air_action() || !airborne || count < limit
    }

    pub fn counted(kind: TnuaActionKind, airborne: bool, count: u32, started: bool) -> (next: u32)
        ensures
            next as int == Self::spec_counted(kind, airborne, count as int, started),
    {
        if started && airborne && kind.is_air_action() && count < 0xffff_ffff {
            count + 1
        } else {
            count
        }
    }
}

impl Default for TnuaSimpleAirActionsCounter {
    fn default() -> (counter: Self)
        ensures
            counter.air_actions_count == 0,
    {
        TnuaSimpleAirActionsCounter { air_actions_count: 0 }
    }
}

/// The actions of one body.
#[derive(Clone, Copy, Debug)]
pub struct TnuaActionStack {
    pub dash: TnuaActionSlot,
    pub jump: TnuaActionSlot,
    pub crouch: TnuaActionSlot,
    pub air_counter: TnuaSimpleAirActionsCounter,
    /// How many jumps and dashes may start before the body lands again.
    pub air_actions_limit: u32,
}

/// Of two accelerations that were taken over, the first; the second where
/// the first was left open.
pub open spec fn first_of<T>(first: Option<T>, second: Option<T>) -> Option<T> {
    if first is Some {
        first
    } else {
        second
    }
}

/// What the actions take over together, that of `high` before that of `low`.
pub open spec fn spec_overlay(high: TnuaActionOutput, low: TnuaActionOutput) -> TnuaActionOutput {
    TnuaActionOutput {
        vertical: first_of(high.vertical, low.vertical),
        horizontal: first_of(high.horizontal, low.horizontal),
    }
}

pub fn overlay(high: &TnuaActionOutput, low: &TnuaActionOutput) -> (merged: TnuaActionOutput)
    ensures
        merged == spec_overlay(*high, *low),
{
    TnuaActionOutput {
        vertical: if high.vertical.is_some() {
            high.vertical
        } else {
            low.vertical
        },
        horizontal: if high.horizontal.is_some() {
            high.horizontal
        } else {
            low.horizontal
        },
    }
}

impl TnuaActionStack {
    /// Every slot holds actions and requests of its own kind only, no
    /// request waits for a kind that is active, and no more actions have
    /// started in the air than the limit allows.
    pub open spec fn wf(self) -> bool {
        &&& Self::slot_wf(self.dash, TnuaActionKind::Dash)
        &&& Self::slot_wf(self.jump, TnuaActionKind::Jump)
        &&& Self::slot_wf(self.crouch, TnuaActionKind::Crouch)
        &&& self.air_counter.air_actions_count <= self.air_actions_limit
    }

    pub open spec fn slot_wf(slot: TnuaActionSlot, kind: TnuaActionKind) -> bool {
        &&& slot.active matches Some(action) ==> action.spec_kind() == kind && !action.spec_ended()
        &&& slot.fed matches Some(request) ==> request.spec_kind() == kind
        &&& slot.queued matches Some(request) ==> request.spec_kind() == kind
        &&& slot.active is Some ==> slot.queued is None
    }

    pub open spec fn spec_slot(self, kind: TnuaActionKind) -> TnuaActionSlot {
        match kind {
            TnuaActionKind::Dash => self.dash,
            TnuaActionKind::Jump => self.jump,
            TnuaActionKind::Crouch => self.crouch,
        }
    }

    /// An active action cannot be interrupted, so that no other starts.
    pub open spec fn spec_blocked(self, ctx: TnuaActionContext) -> bool {
        self.dash.spec_blocks(ctx) || self.jump.spec_blocks(ctx) || self.crouch.spec_blocks(ctx)
    }

    /// The count of actions in the air with which the slot of `kind` is
    /// advanced: the slots are advanced in the order of their priority, and
    /// the count starts anew on the ground.
    pub open spec fn spec_count_before(self, kind: TnuaActionKind, ctx: TnuaActionContext) -> int {
        let airborne = ctx.spec_airborne();
        match kind {
            TnuaActionKind::Dash => self.air_counter.spec_at_tick(airborne),
            TnuaActionKind::Jump => self.spec_count_after(TnuaActionKind::Dash, ctx),
            TnuaActionKind::Crouch => self.spec_count_after(TnuaActionKind::Jump, ctx),
        }
    }

    /// The count of actions in the air once the slot of `kind` has advanced.
    pub open spec fn spec_count_after(self, kind: TnuaActionKind, ctx: TnuaActionContext) -> int
        decreases 2 - kind.spec_priority(), 1int,
    {
        TnuaSimpleAirActionsCounter::spec_counted(
            kind,
            ctx.spec_airborne(),
            match kind {
                TnuaActionKind::Dash => self.air_counter.spec_at_tick(ctx.spec_airborne()),
                TnuaActionKind::Jump => self.spec_count_after(TnuaActionKind::Dash, ctx),
                TnuaActionKind::Crouch => self.spec_count_after(TnuaActionKind::Jump, ctx),
            },
            self.spec_advance_slot(kind, ctx).started,
        )
    }

    /// What the tick makes of the slot of `kind`.
    pub open spec fn spec_advance_slot(self, kind: TnuaActionKind, ctx: TnuaActionContext)
        -> TnuaSlotAdvance
        decreases 2 - kind.spec_priority(), 0int,
    {
        self.spec_slot(kind).spec_advance(
            self.spec_blocked(ctx),
            TnuaSimpleAirActionsCounter::spec_allows(
                kind,
                ctx.spec_airborne(),
                match kind {
                    TnuaActionKind::Dash => self.air_counter.spec_at_tick(ctx.spec_airborne()),
                    TnuaActionKind::Jump => self.spec_count_after(TnuaActionKind::Dash, ctx),
                    TnuaActionKind::Crouch => self.spec_count_after(TnuaActionKind::Jump, ctx),
                },
                self.air_actions_limit as int,
            ),
            ctx,
        )
    }

    /// The stack after the tick.
    pub open spec fn spec_advance(self, ctx: TnuaActionContext) -> TnuaActionStack {
        TnuaActionStack {
            dash: self.spec_advance_slot(TnuaActionKind::Dash, ctx).slot,
            jump: self.spec_advance_slot(TnuaActionKind::Jump, ctx).slot,
            crouch: self.spec_advance_slot(TnuaActionKind::Crouch, ctx).slot,
            air_counter: TnuaSimpleAirActionsCounter {
                air_actions_count: self.spec_count_after(TnuaActionKind::Crouch, ctx) as u32,
            },
            air_actions_limit: self.air_actions_limit,
        }
    }

    /// What the actions take over in the tick: on each axis the
    /// acceleration of the action with the highest priority that takes that
    /// axis over.
    pub open spec fn spec_output(self, ctx: TnuaActionContext) -> TnuaActionOutput {
        spec_overlay(
            self.spec_advance_slot(TnuaActionKind::Dash, ctx).output,
            spec_overlay(
                self.spec_advance_slot(TnuaActionKind::Jump, ctx).output,
                self.spec_advance_slot(TnuaActionKind::Crouch, ctx).output,
            ),
        )
    }

    /// A stack without actions.
    pub fn new(air_actions_limit: u32) -> (stack: TnuaActionStack)
        ensures
            stack.wf(),
            stack.dash == TnuaActionSlot::empty(),
            stack.jump == TnuaActionSlot::empty(),
            stack.crouch == TnuaActionSlot::empty(),
            stack.air_counter.air_actions_count == 0,
            stack.air_actions_limit == air_actions_limit,
    {
        TnuaActionStack {
            dash: TnuaActionSlot::new(),
            jump: TnuaActionSlot::new(),
            crouch: TnuaActionSlot::new(),
            air_counter: TnuaSimpleAirActionsCounter { air_actions_count: 0 },
            air_actions_limit,
        }
    }

    /// Feeds an action for the coming tick. Of several requests of one
    /// kind the last counts.
    pub fn feed(&mut self, action: TnuaAction)
        ensures
            *final(self) == spec_fed(*old(self), action),
            old(self).wf() ==> final(self).wf(),
    {
        match action {
            TnuaAction::Crouch(_) => {
                self.crouch.fed = Some(action);
            },
            TnuaAction::Jump(_) => {
                self.jump.fed = Some(action);
            },
            TnuaAction::Dash(_) => {
                self.dash.fed = Some(action);
            },
        }
    }

    /// The action of the kind `kind` that is in its course.
    pub fn active(&self, kind: TnuaActionKind) -> (action: Option<TnuaActiveAction>)
        ensures
            action == self.spec_slot(kind).active,
    {
        match kind {
            TnuaActionKind::Dash => self.dash.active,
            TnuaActionKind::Jump => self.jump.active,
            TnuaActionKind::Crouch => self.crouch.active,
        }
    }

    /// Whether a request of the kind `kind` waits.
    pub fn is_queued(&self, kind: TnuaActionKind) -> (queued: bool)
        ensures
            queued == self.spec_slot(kind).queued is Some,
    {
        match kind {
            TnuaActionKind::Dash => self.dash.queued.is_some(),
            TnuaActionKind::Jump => self.jump.queued.is_some(),
            TnuaActionKind::Crouch => self.crouch.queued.is_some(),
        }
    }

    pub fn blocked(&self, ctx: &TnuaActionContext) -> (blocked: bool)
        ensures
            blocked == self.spec_blocked(*ctx),
    {
        self.dash.blocks(ctx) || self.jump.blocks(ctx) || self.crouch.blocks(ctx)
    }

    /// One tick of the stack: every slot advances, in the order of
    /// priority, and what the actions take over is merged.
    pub fn advance(&mut self, ctx: &TnuaActionContext) -> (output: TnuaActionOutput)
        ensures
            *final(self) == old(self).spec_advance(*ctx),
            output == old(self).spec_output(*ctx),
            old(self).wf() ==> final(self).wf(),
    {
        let blocked: bool = self.blocked(ctx);
        let airborne: bool = ctx.airborne();
        let limit: u32 = self.air_actions_limit;
        let count: u32 = if airborne {
            self.air_counter.air_actions_count
        } else {
            0
        };
        let dash: TnuaSlotAdvance = self.dash.advance(
            blocked,
            TnuaSimpleAirActionsCounter::allows(TnuaActionKind::Dash, airborne, count, limit),
            ctx,
        );
        let count: u32 = TnuaSimpleAirActionsCounter::counted(
            TnuaActionKind::Dash,
            airborne,
            count,
            dash.started,
        );
        let jump: TnuaSlotAdvance = self.jump.advance(
            blocked,
            TnuaSimpleAirActionsCounter::allows(TnuaActionKind::Jump, airborne, count, limit),
            ctx,
        );
        let count: u32 = TnuaSimpleAirActionsCounter::counted(
            TnuaActionKind::Jump,
            airborne,
            count,
            jump.started,
        );
        let crouch: TnuaSlotAdvance = self.crouch.advance(
            blocked,
            TnuaSimpleAirActionsCounter::allows(TnuaActionKind::Crouch, airborne, count, limit),
            ctx,
        );
        let count: u32 = TnuaSimpleAirActionsCounter::counted(
            TnuaActionKind::Crouch,
            airborne,
            count,
            crouch.started,
        );
        self.dash = dash.slot;
        self.jump = jump.slot;
        self.crouch = crouch.slot;
        self.air_counter.air_actions_count = count;
        overlay(&dash.output, &overlay(&jump.output, &crouch.output))
    }
}

/// While an active action cannot be interrupted, no action starts: a slot
/// without an active action stays without one, takes nothing over in that
/// tick, and keeps its request waiting.
pub proof fn lemma_blocked_stack_starts_nothing(
    stack: TnuaActionStack,
    ctx: TnuaActionContext,
    kind: TnuaActionKind,
)
    requires
        stack.spec_blocked(ctx),
        stack.spec_slot(kind).active is None,
    ensures
        stack.spec_advance(ctx).spec_slot(kind).active is None,
        stack.spec_advance(ctx).spec_slot(kind).queued == stack.spec_slot(kind).spec_request(),
        stack.spec_advance_slot(kind, ctx).output == TnuaActionOutput::nothing(),
        !stack.spec_advance_slot(kind, ctx).started,
{
}

/// The stack `stack` with `request` fed to the slot of its kind.
pub open spec fn spec_fed(stack: TnuaActionStack, request: TnuaAction) -> TnuaActionStack {
    match request.spec_kind() {
        TnuaActionKind::Dash => TnuaActionStack {
            dash: TnuaActionSlot { fed: Some(request), ..stack.dash },
            ..stack
        },
        TnuaActionKind::Jump => TnuaActionStack {
            jump: TnuaActionSlot { fed: Some(request), ..stack.jump },
            ..stack
        },
        TnuaActionKind::Crouch => TnuaActionStack {
            crouch: TnuaActionSlot { fed: Some(request), ..stack.crouch },
            ..stack
        },
    }
}

/// An action that is fed while an active action of another kind cannot be
/// interrupted changes nothing of what the stack takes over in that tick,
/// whatever its priority, and leaves the active actions as they would have
/// been without it. It waits.
pub proof fn lemma_blocked_request_takes_nothing_over(
    stack: TnuaActionStack,
    ctx: TnuaActionContext,
    request: TnuaAction,
)
    requires
        stack.spec_blocked(ctx),
        stack.spec_slot(request.spec_kind()).active is None,
    ensures
        spec_fed(stack, request).spec_output(ctx) == stack.spec_output(ctx),
        forall|kind: TnuaActionKind| #[trigger]
            spec_fed(stack, request).spec_advance(ctx).spec_slot(kind).active
                == stack.spec_advance(ctx).spec_slot(kind).active,
        spec_fed(stack, request).spec_advance(ctx).spec_slot(request.spec_kind()).queued == Some(
            request,
        ),
        spec_fed(stack, request).spec_advance(ctx).air_counter == stack.spec_advance(
            ctx,
        ).air_counter,
{
    let fed = spec_fed(stack, request);
    assert(fed.spec_blocked(ctx));
    assert(fed.spec_advance_slot(TnuaActionKind::Dash, ctx).output == stack.spec_advance_slot(
        TnuaActionKind::Dash,
        ctx,
    ).output);
    assert(fed.spec_advance_slot(TnuaActionKind::Dash, ctx).started == stack.spec_advance_slot(
        TnuaActionKind::Dash,
        ctx,
    ).started);
    assert(fed.spec_advance_slot(TnuaActionKind::Jump, ctx).output == stack.spec_advance_slot(
        TnuaActionKind::Jump,
        ctx,
    ).output);
    assert(fed.spec_advance_slot(TnuaActionKind::Jump, ctx).started == stack.spec_advance_slot(
        TnuaActionKind::Jump,
        ctx,
    ).started);
    assert(fed.spec_advance_slot(TnuaActionKind::Crouch, ctx).output == stack.spec_advance_slot(
        TnuaActionKind::Crouch,
        ctx,
    ).output);
    assert(fed.spec_advance_slot(TnuaActionKind::Crouch, ctx).started == stack.spec_advance_slot(
        TnuaActionKind::Crouch,
        ctx,
    ).started);
    assert forall|kind: TnuaActionKind| #[trigger]
        fed.spec_advance(ctx).spec_slot(kind).active == stack.spec_advance(ctx).spec_slot(
            kind,
        ).active by {
        assert(fed.spec_advance_slot(kind, ctx).slot.active == stack.spec_advance_slot(
            kind,
            ctx,
        ).slot.active);
    }
}

/// As soon as no active action stands in its way, a request that was fed
/// or has waited starts, if the limit of actions in the air allows it: it
/// makes its first step in that tick and takes over what that step says.
pub proof fn lemma_unblocked_request_starts(
    stack: TnuaActionStack,
    ctx: TnuaActionContext,
    kind: TnuaActionKind,
)
    requires
        !stack.spec_blocked(ctx),
        stack.spec_slot(kind).active is None,
        stack.spec_slot(kind).spec_request() is Some,
        TnuaSimpleAirActionsCounter::spec_allows(
            kind,
            ctx.spec_airborne(),
            stack.spec_count_before(kind, ctx),
            stack.air_actions_limit as int,
        ),
    ensures
        stack.spec_advance_slot(kind, ctx) == TnuaActionSlot::spec_stepped(
            stack.spec_slot(kind).spec_request()->0.spec_start(),
            stack.spec_slot(kind).fed is Some,
            true,
            ctx,
        ),
{
}

/// On each axis the stack takes over what the action with the highest
/// priority takes over there; an axis that no action takes over is left
/// open.
pub proof fn lemma_highest_priority_wins(stack: TnuaActionStack, ctx: TnuaActionContext)
    ensures
        ({
            let dash = stack.spec_advance_slot(TnuaActionKind::Dash, ctx).output;
            let jump = stack.spec_advance_slot(TnuaActionKind::Jump, ctx).output;
            let crouch = stack.spec_advance_slot(TnuaActionKind::Crouch, ctx).output;
            let merged = stack.spec_output(ctx);
            &&& dash.vertical is Some ==> merged.vertical == dash.vertical
            &&& dash.vertical is None && jump.vertical is Some ==> merged.vertical == jump.vertical
            &&& dash.vertical is None && jump.vertical is None ==> merged.vertical
                == crouch.vertical
            &&& dash.horizontal is Some ==> merged.horizontal == dash.horizontal
            &&& dash.horizontal is None && jump.horizontal is Some ==> merged.horizontal
                == jump.horizontal
            &&& dash.horizontal is None && jump.horizontal is None ==> merged.horizontal
                == crouch.horizontal
        }),
{
}

/// A crouch in the stack stays in the stack through every tick in which
/// the clearance probe reports an obstruction nearer than the crouch's
/// offset is deep, fed or not; a crouch that is neither fed nor obstructed
/// leaves the stack in that tick.
pub proof fn lemma_obstructed_crouch_stays_in_stack(
    stack: TnuaActionStack,
    ctx: TnuaActionContext,
    crouch: TnuaBuiltinCrouch,
)
    requires
        stack.crouch.active == Some(TnuaActiveAction::Crouch(crouch, TnuaCrouchPhase::Crouching)),
    ensures
        crouch.spec_obstructed(ctx.clearance) ==> stack.spec_advance(ctx).crouch.active == Some(
            TnuaActiveAction::Crouch(crouch, TnuaCrouchPhase::Crouching),
        ),
        !crouch.spec_obstructed(ctx.clearance) && stack.crouch.fed is None ==> stack.spec_advance(
            ctx,
        ).crouch.active is None,
{
}

/// A tick keeps the stack well formed, and leaves no request behind but
/// those that wait: in particular, however the actions are fed, never more
/// of them have started in the air than the limit allows.
pub proof fn lemma_advance_keeps_the_stack_well_formed(
    stack: TnuaActionStack,
    ctx: TnuaActionContext,
)
    requires
        stack.wf(),
    ensures
        stack.spec_advance(ctx).wf(),
        stack.spec_advance(ctx).air_counter.air_actions_count <= stack.air_actions_limit,
        forall|kind: TnuaActionKind| (#[trigger] stack.spec_advance(ctx).spec_slot(kind)).fed is None,
{
    assert forall|kind: TnuaActionKind| (#[trigger] stack.spec_advance(ctx).spec_slot(
        kind,
    )).fed is None by {
        assert(stack.spec_advance(ctx).spec_slot(kind) == stack.spec_advance_slot(kind, ctx).slot);
    }
}

} // verus!
