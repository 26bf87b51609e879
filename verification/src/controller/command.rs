//! What the engine asks its host to do.

use vstd::prelude::*;
use crate::controller::action_manager::ActionDistance;
use crate::keys::{Key, MouseButton};

verus! {

/// Which stick gives the direction of a cursor move.
#[derive(Clone, Copy, Debug, PartialEq, Eq, Structural)]
pub enum Heading {
    /// The angle of the walking stick.
    Walk,
    /// The angle of the aiming stick.
    Aim,
}

/// Where the cursor is to go. The engine names the place; the host, which
/// knows the angles of the sticks, works out the coordinates.
#[derive(Clone, Copy, Debug, PartialEq, Eq, Structural)]
pub enum CursorTarget {
    /// On a circle around the character: the circle of a distance tier, or
    /// the walking circle for [`ActionDistance::Unset`], at the angle of one
    /// of the sticks.
    Circle { distance: ActionDistance, toward: Heading },
    /// Away from where the cursor is now, by the pull of the aiming stick.
    FreeAim,
}

/// One step for the host to carry out. The steps of a frame are carried out
/// in the order given.
#[derive(Clone, Copy, Debug, PartialEq, Eq, Structural)]
pub enum Command {
    KeyPress(Key),
    KeyRelease(Key),
    ButtonPress(MouseButton),
    ButtonRelease(MouseButton),
    /// Wait for so many milliseconds before the next step.
    Sleep(u64),
    MoveCursor(CursorTarget),
}

impl Command {
    /// Whether this step presses a key or a mouse button.
    pub open spec fn is_press(self) -> bool {
        self is KeyPress || self is ButtonPress
    }
}

} // verus!
