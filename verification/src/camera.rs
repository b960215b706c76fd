//! What the host's camera and pointer handling decide.
//!
//! The pointer is either free, and then visible, or grabbed, and then it
//! steers the camera. Angles are in thousandths of a radian, pointer
//! movements in thousandths of a pixel.

use vstd::prelude::*;
use crate::fixed::{narrow, quotient, saturate, trunc_div, Scalar};

verus! {

/// A change of the pointer's state.
#[derive(Clone, Copy, Debug, PartialEq, Eq, Structural)]
pub enum TnuaCursorChange {
    /// Lock the pointer and hide it.
    Grab,
    /// Free the pointer and show it.
    Release,
}

/// What a frame's input makes of the pointer.
///
/// A visible pointer is grabbed by a press of the left button that is not
/// meant for the user interface under it. A grabbed pointer is released by
/// letting go of the escape key, or by a press of the left button.
pub open spec fn spec_cursor_change(
    cursor_visible: bool,
    left_just_pressed: bool,
    escape_just_released: bool,
    pointer_over_ui: bool,
) -> Option<TnuaCursorChange> {
    if cursor_visible {
        if left_just_pressed && !pointer_over_ui {
            Some(TnuaCursorChange::Grab)
        } else {
            None
        }
    } else if escape_just_released || left_just_pressed {
        Some(TnuaCursorChange::Release)
    } else {
        None
    }
}

pub fn cursor_change(
    cursor_visible: bool,
    left_just_pressed: bool,
    escape_just_released: bool,
    pointer_over_ui: bool,
) -> (change: Option<TnuaCursorChange>)
    ensures
        change == spec_cursor_change(
            cursor_visible,
            left_just_pressed,
            escape_just_released,
            pointer_over_ui,
        ),
{
    if cursor_visible {
        if left_just_pressed && !pointer_over_ui {
            Some(TnuaCursorChange::Grab)
        } else {
            None
        }
    } else if escape_just_released || left_just_pressed {
        Some(TnuaCursorChange::Release)
    } else {
        None
    }
}

/// Whether the pointer steers the camera: there is a window, and its
/// pointer is hidden.
pub fn mouse_controls_camera(cursor_visible: Option<bool>) -> (controls: bool)
    ensures
        controls == (cursor_visible == Some(false)),
{
    match cursor_visible {
        Some(visible) => !visible,
        None => false,
    }
}

/// A quarter turn, rounded down.
pub const QUARTER_TURN: Scalar = 1570;

/// The angle by which the camera turns around the up direction for a
/// pointer movement of `delta_x`: a hundredth of a radian for each pixel,
/// against the movement.
pub open spec fn spec_camera_yaw(delta_x: int) -> int {
    saturate(trunc_div(-10 * delta_x, 1000))
}

/// The camera's pitch after a pointer movement of `delta_y`: five
/// thousandths of a radian for each pixel, kept within a quarter turn up
/// and down.
pub open spec fn spec_camera_pitch(pitch: int, delta_y: int) -> int {
    let raised = pitch + trunc_div(5 * delta_y, 1000);
    if raised < -QUARTER_TURN {
        -QUARTER_TURN
    } else if raised > QUARTER_TURN {
        QUARTER_TURN as int
    } else {
        raised
    }
}

pub fn camera_yaw(delta_x: Scalar) -> (yaw: Scalar)
    ensures
        yaw as int == spec_camera_yaw(delta_x as int),
{
    let moved: i128 = delta_x as i128;
    let turned: i128 = moved * 10;
    narrow(quotient(-turned, 1000))
}

pub fn camera_pitch(pitch: Scalar, delta_y: Scalar) -> (next: Scalar)
    ensures
        next as int == spec_camera_pitch(pitch as int, delta_y as int),
        -QUARTER_TURN <= next <= QUARTER_TURN,
{
    let moved: i128 = delta_y as i128;
    let raised: i128 = (pitch as i128) + quotient(moved * 5, 1000);
    if raised < -1570 {
        -1570
    } else if raised > 1570 {
        1570
    } else {
        raised as i32
    }
}

} // verus!
