//! The keys and mouse buttons that a binding can name.

use vstd::prelude::*;

verus! {

/// A mouse button that the engine can press and release.
#[derive(Clone, Copy, Debug, PartialEq, Eq, Hash, Structural)]
pub enum MouseButton {
    Left,
    Middle,
    Right,
}

/// A keyboard key that the engine can press and release.
#[derive(Clone, Copy, Debug, PartialEq, Eq, Hash, Structural)]
pub enum Key {
    Alt,
    Backspace,
    ControlLeft,
    Delete,
    DownArrow,
    Escape,
    F1,
    F2,
    F3,
    F4,
    F5,
    F6,
    F7,
    F8,
    F9,
    F10,
    F11,
    F12,
    LeftArrow,
    RightArrow,
    ShiftLeft,
    Space,
    Tab,
    UpArrow,
    BackQuote,
    Num0,
    Num1,
    Num2,
    Num3,
    Num4,
    Num5,
    Num6,
    Num7,
    Num8,
    Num9,
    Equal,
    LeftBracket,
    RightBracket,
    SemiColon,
    Comma,
    Slash,
    KeyA,
    KeyB,
    KeyC,
    KeyD,
    KeyE,
    KeyF,
    KeyG,
    KeyH,
    KeyI,
    KeyJ,
    KeyK,
    KeyL,
    KeyM,
    KeyN,
    KeyO,
    KeyP,
    KeyQ,
    KeyR,
    KeyS,
    KeyT,
    KeyU,
    KeyV,
    KeyW,
    KeyX,
    KeyY,
    KeyZ,
}

impl Key {
    /// Whether this key is one of the five ability keys.
    pub open spec fn is_ability(self) -> bool {
        self == Key::KeyQ || self == Key::KeyW || self == Key::KeyE || self == Key::KeyR || self
            == Key::KeyT
    }

    /// Tells whether this key is one of the five ability keys.
    pub fn is_ability_key(self) -> (r: bool)
        ensures
            r == self.is_ability(),
    {
        self == Key::KeyQ || self == Key::KeyW || self == Key::KeyE || self == Key::KeyR || self
            == Key::KeyT
    }
}

} // verus!
