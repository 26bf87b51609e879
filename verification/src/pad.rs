//! Logical controller buttons and axes, and the names that settings give them.

use vstd::prelude::*;
use crate::text::{chars_of, lowercase_of, spells, to_lowercase};

verus! {

/// A button of the controller, named by where it sits rather than by what a
/// vendor prints on it.
#[derive(Clone, Copy, Debug, PartialEq, Eq, Hash, Structural)]
pub enum PadButton {
    South,
    East,
    West,
    North,
    LeftTrigger,
    RightTrigger,
    LeftTrigger2,
    RightTrigger2,
    Start,
    Select,
    DPadDown,
    DPadLeft,
    DPadRight,
    DPadUp,
    LeftThumb,
    RightThumb,
    /// Any button that the engine does not track.
    Unknown,
}

/// An axis of one of the two sticks.
#[derive(Clone, Copy, Debug, PartialEq, Eq, Hash, Structural)]
pub enum PadAxis {
    LeftStickX,
    LeftStickY,
    RightStickX,
    RightStickY,
    /// Any axis that the engine does not track.
    Unknown,
}

/// How many buttons the engine tracks.
pub const TRACKED_BUTTONS: usize = 16;

/// How many of the tracked buttons can carry an ability: the first ones in
/// the order of [`PadButton::spec_index`].
pub const ABILITY_BUTTONS: usize = 8;

impl PadButton {
    /// The position of a tracked button in the engine's tables;
    /// [`TRACKED_BUTTONS`] for an untracked one.
    pub open spec fn spec_index(self) -> nat {
        match self {
            PadButton::South => 0,
            PadButton::East => 1,
            PadButton::West => 2,
            PadButton::North => 3,
            PadButton::LeftTrigger => 4,
            PadButton::RightTrigger => 5,
            PadButton::LeftTrigger2 => 6,
            PadButton::RightTrigger2 => 7,
            PadButton::Start => 8,
            PadButton::Select => 9,
            PadButton::DPadDown => 10,
            PadButton::DPadLeft => 11,
            PadButton::DPadRight => 12,
            PadButton::DPadUp => 13,
            PadButton::LeftThumb => 14,
            PadButton::RightThumb => 15,
            PadButton::Unknown => 16,
        }
    }

    /// The button at a position; the untracked one past the last position.
    pub open spec fn spec_at(index: nat) -> PadButton {
        if index == 0 {
            PadButton::South
        } else if index == 1 {
            PadButton::East
        } else if index == 2 {
            PadButton::West
        } else if index == 3 {
            PadButton::North
        } else if index == 4 {
            PadButton::LeftTrigger
        } else if index == 5 {
            PadButton::RightTrigger
        } else if index == 6 {
            PadButton::LeftTrigger2
        } else if index == 7 {
            PadButton::RightTrigger2
        } else if index == 8 {
            PadButton::Start
        } else if index == 9 {
            PadButton::Select
        } else if index == 10 {
            PadButton::DPadDown
        } else if index == 11 {
            PadButton::DPadLeft
        } else if index == 12 {
            PadButton::DPadRight
        } else if index == 13 {
            PadButton::DPadUp
        } else if index == 14 {
            PadButton::LeftThumb
        } else if index == 15 {
            PadButton::RightThumb
        } else {
            PadButton::Unknown
        }
    }

    /// Whether the engine tracks this button.
    pub open spec fn is_tracked(self) -> bool {
        self != PadButton::Unknown
    }

    /// Whether this button can carry an ability: a face button, a bumper or
    /// a trigger.
    pub open spec fn is_ability(self) -> bool {
        self.spec_index() < ABILITY_BUTTONS
    }

    /// The position of this button in the engine's tables.
    pub fn index(self) -> (r: usize)
        ensures
            r == self.spec_index(),
            r <= TRACKED_BUTTONS,
            PadButton::spec_at(r as nat) == self,
    {
        match self {
            PadButton::South => 0,
            PadButton::East => 1,
            PadButton::West => 2,
            PadButton::North => 3,
            PadButton::LeftTrigger => 4,
            PadButton::RightTrigger => 5,
            PadButton::LeftTrigger2 => 6,
            PadButton::RightTrigger2 => 7,
            PadButton::Start => 8,
            PadButton::Select => 9,
            PadButton::DPadDown => 10,
            PadButton::DPadLeft => 11,
            PadButton::DPadRight => 12,
            PadButton::DPadUp => 13,
            PadButton::LeftThumb => 14,
            PadButton::RightThumb => 15,
            PadButton::Unknown => 16,
        }
    }

    /// The button at a position of the engine's tables.
    pub fn at(index: usize) -> (r: PadButton)
        ensures
            r == PadButton::spec_at(index as nat),
            index < TRACKED_BUTTONS ==> r.spec_index() == index,
            index >= TRACKED_BUTTONS ==> r == PadButton::Unknown,
    {
        match index {
            0 => PadButton::South,
            1 => PadButton::East,
            2 => PadButton::West,
            3 => PadButton::North,
            4 => PadButton::LeftTrigger,
            5 => PadButton::RightTrigger,
            6 => PadButton::LeftTrigger2,
            7 => PadButton::RightTrigger2,
            8 => PadButton::Start,
            9 => PadButton::Select,
            10 => PadButton::DPadDown,
            11 => PadButton::DPadLeft,
            12 => PadButton::DPadRight,
            13 => PadButton::DPadUp,
            14 => PadButton::LeftThumb,
            15 => PadButton::RightThumb,
            _ => PadButton::Unknown,
        }
    }

    /// Tells whether this button can carry an ability.
    pub fn is_ability_button(self) -> (r: bool)
        ensures
            r == self.is_ability(),
    {
        self.index() < ABILITY_BUTTONS
    }
}

/// The button that a lowercase name stands for; the untracked button for a
/// name that stands for none.
pub open spec fn pad_button_named(s: Seq<char>) -> PadButton {
    if s == "a"@ || s == "cross"@ {
        PadButton::South
    } else if s == "b"@ || s == "circle"@ {
        PadButton::East
    } else if s == "x"@ || s == "square"@ {
        PadButton::West
    } else if s == "y"@ || s == "triangle"@ {
        PadButton::North
    } else if s == "start"@ || s == "options"@ {
        PadButton::Start
    } else if s == "back"@ || s == "select"@ || s == "share"@ {
        PadButton::Select
    } else if s == "dpad_down"@ {
        PadButton::DPadDown
    } else if s == "dpad_left"@ {
        PadButton::DPadLeft
    } else if s == "dpad_right"@ {
        PadButton::DPadRight
    } else if s == "dpad_up"@ {
        PadButton::DPadUp
    } else if s == "left_analog"@ || s == "l3"@ {
        PadButton::LeftThumb
    } else if s == "right_analog"@ || s == "r3"@ {
        PadButton::RightThumb
    } else if s == "bumper_left"@ || s == "l1"@ {
        PadButton::LeftTrigger
    } else if s == "bumper_right"@ || s == "r1"@ {
        PadButton::RightTrigger
    } else if s == "trigger_left"@ || s == "l2"@ {
        PadButton::LeftTrigger2
    } else if s == "trigger_right"@ || s == "r2"@ {
        PadButton::RightTrigger2
    } else {
        PadButton::Unknown
    }
}

/// Reads a lowercase button name.
pub fn parse_lowercase_button(lower: &str) -> (r: PadButton)
    ensures
        r == pad_button_named(lower@),
{
    let chars = chars_of(lower);
    let n = chars.len();
    assert(chars@.subrange(0, n as int) =~= chars@);
    if spells(&chars, n, "a") || spells(&chars, n, "cross") {
        PadButton::South
    } else if spells(&chars, n, "b") || spells(&chars, n, "circle") {
        PadButton::East
    } else if spells(&chars, n, "x") || spells(&chars, n, "square") {
        PadButton::West
    } else if spells(&chars, n, "y") || spells(&chars, n, "triangle") {
        PadButton::North
    } else if spells(&chars, n, "start") || spells(&chars, n, "options") {
        PadButton::Start
    } else if spells(&chars, n, "back") || spells(&chars, n, "select") || spells(
        &chars,
        n,
        "share",
    ) {
        PadButton::Select
    } else if spells(&chars, n, "dpad_down") {
        PadButton::DPadDown
    } else if spells(&chars, n, "dpad_left") {
        PadButton::DPadLeft
    } else if spells(&chars, n, "dpad_right") {
        PadButton::DPadRight
    } else if spells(&chars, n, "dpad_up") {
        PadButton::DPadUp
    } else if spells(&chars, n, "left_analog") || spells(&chars, n, "l3") {
        PadButton::LeftThumb
    } else if spells(&chars, n, "right_analog") || spells(&chars, n, "r3") {
        PadButton::RightThumb
    } else if spells(&chars, n, "bumper_left") || spells(&chars, n, "l1") {
        PadButton::LeftTrigger
    } else if spells(&chars, n, "bumper_right") || spells(&chars, n, "r1") {
        PadButton::RightTrigger
    } else if spells(&chars, n, "trigger_left") || spells(&chars, n, "l2") {
        PadButton::LeftTrigger2
    } else if spells(&chars, n, "trigger_right") || spells(&chars, n, "r2") {
        PadButton::RightTrigger2
    } else {
        PadButton::Unknown
    }
}

/// Reads a button name, whatever its case. Both the positional names and
/// the names that vendors print are understood; any other name gives the
/// untracked button.
pub fn string_to_controller_button(name: &str) -> (r: PadButton)
    ensures
        r == pad_button_named(lowercase_of(name@)),
{
    let lower = to_lowercase(name);
    parse_lowercase_button(lower.as_str())
}

} // verus!
