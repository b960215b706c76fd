//! A character motion controller that is independent of the physics engine.
//!
//! Each tick the controller reads a kinematic snapshot of a rigid body and the
//! result of a proximity cast, resolves one persistent basis and a stack of
//! transient actions, and writes one motor instruction for a physics backend
//! to apply.
//!
//! All quantities are fixed-point numbers ([`fixed`]): an `i32` counts
//! thousandths of a unit, and a duration is a number of milliseconds. The
//! results are therefore the same on every machine.
//!
//! A tick of one body ([`character`]) goes through three stages:
//!
//! 1. the backend writes the tracker and hands over what its casts have
//!    met; the sensor keeps the closest hit that qualifies
//!    ([`data_for_backends`]), the ghost sensor the ghost platforms above it
//!    ([`fall_through`]);
//! 2. the controlling code requests the basis ([`walk`]) and feeds the
//!    actions ([`action`]), and the resolver ([`controller`]) advances the
//!    action stack ([`action_stack`]) and merges what the basis asks for
//!    with what the actions take over;
//! 3. the backend takes the motor instruction and applies it.

pub mod fixed;
pub mod vector;
pub mod data_for_backends;
pub mod walk;
pub mod action;
pub mod action_stack;
pub mod controller;
pub mod fall_through;
pub mod crouch_enforcer;
pub mod setup;
pub mod camera;
pub mod character;
