//! How high the camera hangs over the table.

use vstd::prelude::*;

verus! {

/// What the mouse wheel did, once enough turning has added up to a notch.
#[derive(Clone, Copy, PartialEq, Eq, Structural, Debug)]
pub enum Wheel {
    /// A whole notch away from the table.
    Up,
    /// A whole notch towards the table.
    Down,
    /// Less than a notch either way.
    Still,
}

/// The step that a notch of the wheel asks for.
pub open spec fn wheel_step(wheel: Wheel) -> int {
    match wheel {
        Wheel::Up => 1,
        Wheel::Down => -1,
        Wheel::Still => 0,
    }
}

/// The level `height`, brought into the three levels that the camera has:
/// low (`-1`), middle (`0`) and high (`1`).
pub open spec fn camera_level(height: int) -> int {
    if height < -1 {
        -1
    } else if height > 1 {
        1
    } else {
        height
    }
}

/// The camera's level after the wheel has moved: one level up or down, but
/// never beyond the highest or the lowest.
pub fn move_camera(view_height: i8, wheel: Wheel) -> (r: i8)
    ensures
        r == camera_level(view_height + wheel_step(wheel)),
        -1 <= r <= 1,
{
    match wheel {
        Wheel::Up => if view_height >= 0 {
            1
        } else if view_height < -2 {
            -1
        } else {
            view_height + 1
        },
        Wheel::Down => if view_height <= 0 {
            -1
        } else if view_height > 2 {
            1
        } else {
            view_height - 1
        },
        Wheel::Still => if view_height < -1 {
            -1
        } else if view_height > 1 {
            1
        } else {
            view_height
        },
    }
}

} // verus!
