//! Binding targets and the grammar of their configured names.
//!
//! A binding name is read without regard to case. It is empty (no action),
//! the name of a key, the name of a mouse button, or the name of a key
//! followed by the name of a mouse button, which makes a chord: the key is
//! the modifier, the button the primary action.

use vstd::prelude::*;
use crate::keys::{Key, MouseButton};
use crate::text::{
    chars_of,
    ends_with,
    lowercase_of,
    prefix_ends_with,
    spells,
    to_lowercase,
    trim_end,
    trimmed_len,
};

verus! {

/// What a logical controller button is bound to.
#[derive(Clone, Copy, Debug, PartialEq, Eq, Hash, Structural)]
pub enum ButtonOrKey {
    /// A mouse button.
    Button(MouseButton),
    /// A keyboard key.
    Key(Key),
    /// A mouse button pressed while a modifier key is down.
    ButtonKeyChord(MouseButton, Key),
    /// No action.
    Empty,
}

/// The key that a lowercase name stands for, if any.
pub open spec fn key_named(s: Seq<char>) -> Option<Key> {
    if s == "f1"@ {
        Some(Key::F1)
    } else if s == "f2"@ {
        Some(Key::F2)
    } else if s == "f3"@ {
        Some(Key::F3)
    } else if s == "f4"@ {
        Some(Key::F4)
    } else if s == "f5"@ {
        Some(Key::F5)
    } else if s == "f6"@ {
        Some(Key::F6)
    } else if s == "f7"@ {
        Some(Key::F7)
    } else if s == "f8"@ {
        Some(Key::F8)
    } else if s == "f9"@ {
        Some(Key::F9)
    } else if s == "f10"@ {
        Some(Key::F10)
    } else if s == "f11"@ {
        Some(Key::F11)
    } else if s == "f12"@ {
        Some(Key::F12)
    } else if s == "a"@ {
        Some(Key::KeyA)
    } else if s == "b"@ {
        Some(Key::KeyB)
    } else if s == "c"@ {
        Some(Key::KeyC)
    } else if s == "d"@ {
        Some(Key::KeyD)
    } else if s == "e"@ {
        Some(Key::KeyE)
    } else if s == "f"@ {
        Some(Key::KeyF)
    } else if s == "g"@ {
        Some(Key::KeyG)
    } else if s == "h"@ {
        Some(Key::KeyH)
    } else if s == "i"@ {
        Some(Key::KeyI)
    } else if s == "j"@ {
        Some(Key::KeyJ)
    } else if s == "k"@ {
        Some(Key::KeyK)
    } else if s == "l"@ {
        Some(Key::KeyL)
    } else if s == "m"@ {
        Some(Key::KeyM)
    } else if s == "n"@ {
        Some(Key::KeyN)
    } else if s == "o"@ {
        Some(Key::KeyO)
    } else if s == "p"@ {
        Some(Key::KeyP)
    } else if s == "q"@ {
        Some(Key::KeyQ)
    } else if s == "r"@ {
        Some(Key::KeyR)
    } else if s == "s"@ {
        Some(Key::KeyS)
    } else if s == "t"@ {
        Some(Key::KeyT)
    } else if s == "u"@ {
        Some(Key::KeyU)
    } else if s == "v"@ {
        Some(Key::KeyV)
    } else if s == "w"@ {
        Some(Key::KeyW)
    } else if s == "x"@ {
        Some(Key::KeyX)
    } else if s == "y"@ {
        Some(Key::KeyY)
    } else if s == "z"@ {
        Some(Key::KeyZ)
    } else if s == "0"@ {
        Some(Key::Num0)
    } else if s == "1"@ {
        Some(Key::Num1)
    } else if s == "2"@ {
        Some(Key::Num2)
    } else if s == "3"@ {
        Some(Key::Num3)
    } else if s == "4"@ {
        Some(Key::Num4)
    } else if s == "5"@ {
        Some(Key::Num5)
    } else if s == "6"@ {
        Some(Key::Num6)
    } else if s == "7"@ {
        Some(Key::Num7)
    } else if s == "8"@ {
        Some(Key::Num8)
    } else if s == "9"@ {
        Some(Key::Num9)
    } else if s == "`"@ {
        Some(Key::BackQuote)
    } else if s == "["@ {
        Some(Key::LeftBracket)
    } else if s == "]"@ {
        Some(Key::RightBracket)
    } else if s == ";"@ {
        Some(Key::SemiColon)
    } else if s == "/"@ {
        Some(Key::Slash)
    } else if s == ","@ {
        Some(Key::Comma)
    } else if s == "="@ {
        Some(Key::Equal)
    } else if s == "escape"@ {
        Some(Key::Escape)
    } else if s == "space"@ {
        Some(Key::Space)
    } else if s == "tab"@ {
        Some(Key::Tab)
    } else if s == "backspace"@ {
        Some(Key::Backspace)
    } else if s == "delete"@ {
        Some(Key::Delete)
    } else if s == "uparrow"@ {
        Some(Key::UpArrow)
    } else if s == "downarrow"@ {
        Some(Key::DownArrow)
    } else if s == "leftarrow"@ {
        Some(Key::LeftArrow)
    } else if s == "rightarrow"@ {
        Some(Key::RightArrow)
    } else if s == "alt"@ {
        Some(Key::Alt)
    } else if s == "shift"@ {
        Some(Key::ShiftLeft)
    } else if s == "control"@ {
        Some(Key::ControlLeft)
    } else {
        None
    }
}

/// The lowercase name of a mouse button.
pub open spec fn click_name(button: MouseButton) -> Seq<char> {
    match button {
        MouseButton::Left => "leftclick"@,
        MouseButton::Middle => "middleclick"@,
        MouseButton::Right => "rightclick"@,
    }
}

/// The binding that a single lowercase word stands for: a mouse button, a
/// key, or nothing at all for the empty word.
pub open spec fn binding_of_word(s: Seq<char>) -> Option<ButtonOrKey> {
    if s == click_name(MouseButton::Left) {
        Some(ButtonOrKey::Button(MouseButton::Left))
    } else if s == click_name(MouseButton::Middle) {
        Some(ButtonOrKey::Button(MouseButton::Middle))
    } else if s == click_name(MouseButton::Right) {
        Some(ButtonOrKey::Button(MouseButton::Right))
    } else if s.len() == 0 {
        Some(ButtonOrKey::Empty)
    } else {
        match key_named(s) {
            Some(key) => Some(ButtonOrKey::Key(key)),
            None => None,
        }
    }
}

/// Whether a lowercase text is longer than the name of `button` and ends
/// with it, so that it can only be read as a chord on that button.
pub open spec fn is_chord_text(s: Seq<char>, button: MouseButton) -> bool {
    ends_with(s, click_name(button)) && s.len() > click_name(button).len()
}

/// The chord on `button` that a lowercase text stands for: what precedes the
/// trailing button name, however often that name is repeated, must name the
/// modifier key.
pub open spec fn chord_of_text(s: Seq<char>, button: MouseButton) -> Option<ButtonOrKey> {
    match key_named(trim_end(s, click_name(button))) {
        Some(key) => Some(ButtonOrKey::ButtonKeyChord(button, key)),
        None => None,
    }
}

/// The binding that a lowercase text stands for, or `None` where the text is
/// not a binding name.
pub open spec fn binding_of_text(s: Seq<char>) -> Option<ButtonOrKey> {
    if is_chord_text(s, MouseButton::Left) {
        chord_of_text(s, MouseButton::Left)
    } else if is_chord_text(s, MouseButton::Right) {
        chord_of_text(s, MouseButton::Right)
    } else if is_chord_text(s, MouseButton::Middle) {
        chord_of_text(s, MouseButton::Middle)
    } else {
        binding_of_word(s)
    }
}

/// Looks up the key named by the first `len` characters of `chars`.
fn find_key(chars: &Vec<char>, len: usize) -> (r: Option<Key>)
    requires
        len <= chars.len(),
    ensures
        r == key_named(chars@.subrange(0, len as int)),
{
    if spells(chars, len, "f1") {
        return Some(Key::F1);
    }
    if spells(chars, len, "f2") {
        return Some(Key::F2);
    }
    if spells(chars, len, "f3") {
        return Some(Key::F3);
    }
    if spells(chars, len, "f4") {
        return Some(Key::F4);
    }
    if spells(chars, len, "f5") {
        return Some(Key::F5);
    }
    if spells(chars, len, "f6") {
        return Some(Key::F6);
    }
    if spells(chars, len, "f7") {
        return Some(Key::F7);
    }
    if spells(chars, len, "f8") {
        return Some(Key::F8);
    }
    if spells(chars, len, "f9") {
        return Some(Key::F9);
    }
    if spells(chars, len, "f10") {
        return Some(Key::F10);
    }
    if spells(chars, len, "f11") {
        return Some(Key::F11);
    }
    if spells(chars, len, "f12") {
        return Some(Key::F12);
    }
    if spells(chars, len, "a") {
        return Some(Key::KeyA);
    }
    if spells(chars, len, "b") {
        return Some(Key::KeyB);
    }
    if spells(chars, len, "c") {
        return Some(Key::KeyC);
    }
    if spells(chars, len, "d") {
        return Some(Key::KeyD);
    }
    if spells(chars, len, "e") {
        return Some(Key::KeyE);
    }
    if spells(chars, len, "f") {
        return Some(Key::KeyF);
    }
    if spells(chars, len, "g") {
        return Some(Key::KeyG);
    }
    if spells(chars, len, "h") {
        return Some(Key::KeyH);
    }
    if spells(chars, len, "i") {
        return Some(Key::KeyI);
    }
    if spells(chars, len, "j") {
        return Some(Key::KeyJ);
    }
    if spells(chars, len, "k") {
        return Some(Key::KeyK);
    }
    if spells(chars, len, "l") {
        return Some(Key::KeyL);
    }
    if spells(chars, len, "m") {
        return Some(Key::KeyM);
    }
    if spells(chars, len, "n") {
        return Some(Key::KeyN);
    }
    if spells(chars, len, "o") {
        return Some(Key::KeyO);
    }
    if spells(chars, len, "p") {
        return Some(Key::KeyP);
    }
    if spells(chars, len, "q") {
        return Some(Key::KeyQ);
    }
    if spells(chars, len, "r") {
        return Some(Key::KeyR);
    }
    if spells(chars, len, "s") {
        return Some(Key::KeyS);
    }
    if spells(chars, len, "t") {
        return Some(Key::KeyT);
    }
    if spells(chars, len, "u") {
        return Some(Key::KeyU);
    }
    if spells(chars, len, "v") {
        return Some(Key::KeyV);
    }
    if spells(chars, len, "w") {
        return Some(Key::KeyW);
    }
    if spells(chars, len, "x") {
        return Some(Key::KeyX);
    }
    if spells(chars, len, "y") {
        return Some(Key::KeyY);
    }
    if spells(chars, len, "z") {
        return Some(Key::KeyZ);
    }
    if spells(chars, len, "0") {
        return Some(Key::Num0);
    }
    if spells(chars, len, "1") {
        return Some(Key::Num1);
    }
    if spells(chars, len, "2") {
        return Some(Key::Num2);
    }
    if spells(chars, len, "3") {
        return Some(Key::Num3);
    }
    if spells(chars, len, "4") {
        return Some(Key::Num4);
    }
    if spells(chars, len, "5") {
        return Some(Key::Num5);
    }
    if spells(chars, len, "6") {
        return Some(Key::Num6);
    }
    if spells(chars, len, "7") {
        return Some(Key::Num7);
    }
    if spells(chars, len, "8") {
        return Some(Key::Num8);
    }
    if spells(chars, len, "9") {
        return Some(Key::Num9);
    }
    if spells(chars, len, "`") {
        return Some(Key::BackQuote);
    }
    if spells(chars, len, "[") {
        return Some(Key::LeftBracket);
    }
    if spells(chars, len, "]") {
        return Some(Key::RightBracket);
    }
    if spells(chars, len, ";") {
        return Some(Key::SemiColon);
    }
    if spells(chars, len, "/") {
        return Some(Key::Slash);
    }
    if spells(chars, len, ",") {
        return Some(Key::Comma);
    }
    if spells(chars, len, "=") {
        return Some(Key::Equal);
    }
    if spells(chars, len, "escape") {
        return Some(Key::Escape);
    }
    if spells(chars, len, "space") {
        return Some(Key::Space);
    }
    if spells(chars, len, "tab") {
        return Some(Key::Tab);
    }
    if spells(chars, len, "backspace") {
        return Some(Key::Backspace);
    }
    if spells(chars, len, "delete") {
        return Some(Key::Delete);
    }
    if spells(chars, len, "uparrow") {
        return Some(Key::UpArrow);
    }
    if spells(chars, len, "downarrow") {
        return Some(Key::DownArrow);
    }
    if spells(chars, len, "leftarrow") {
        return Some(Key::LeftArrow);
    }
    if spells(chars, len, "rightarrow") {
        return Some(Key::RightArrow);
    }
    if spells(chars, len, "alt") {
        return Some(Key::Alt);
    }
    if spells(chars, len, "shift") {
        return Some(Key::ShiftLeft);
    }
    if spells(chars, len, "control") {
        return Some(Key::ControlLeft);
    }
    None
}

/// The lowercase name of a mouse button.
fn click_word(button: MouseButton) -> (r: &'static str)
    ensures
        r@ == click_name(button),
{
    match button {
        MouseButton::Left => "leftclick",
        MouseButton::Middle => "middleclick",
        MouseButton::Right => "rightclick",
    }
}

/// Reads `chars` as a chord on `button`. The outer `None` says that the text
/// is not of that shape; the inner one that its modifier names no key.
fn find_chord(chars: &Vec<char>, button: MouseButton) -> (r: Option<Option<ButtonOrKey>>)
    ensures
        r is Some == is_chord_text(chars@, button),
        r is Some ==> r->0 == chord_of_text(chars@, button),
{
    let word = click_word(button);
    let n = chars.len();
    assert(chars@.subrange(0, n as int) =~= chars@);
    if !prefix_ends_with(chars, n, word) || n <= word.unicode_len() {
        return None;
    }
    let stem = trimmed_len(chars, n, word);
    match find_key(chars, stem) {
        Some(key) => Some(Some(ButtonOrKey::ButtonKeyChord(button, key))),
        None => Some(None),
    }
}

/// Reads a lowercase binding name.
pub fn parse_lowercase_binding(lower: &str) -> (r: Option<ButtonOrKey>)
    ensures
        r == binding_of_text(lower@),
{
    let chars = chars_of(lower);
    let n = chars.len();
    assert(chars@.subrange(0, n as int) =~= chars@);
    if let Some(chord) = find_chord(&chars, MouseButton::Left) {
        return chord;
    }
    if let Some(chord) = find_chord(&chars, MouseButton::Right) {
        return chord;
    }
    if let Some(chord) = find_chord(&chars, MouseButton::Middle) {
        return chord;
    }
    if spells(&chars, n, click_word(MouseButton::Left)) {
        return Some(ButtonOrKey::Button(MouseButton::Left));
    }
    if spells(&chars, n, click_word(MouseButton::Middle)) {
        return Some(ButtonOrKey::Button(MouseButton::Middle));
    }
    if spells(&chars, n, click_word(MouseButton::Right)) {
        return Some(ButtonOrKey::Button(MouseButton::Right));
    }
    if n == 0 {
        return Some(ButtonOrKey::Empty);
    }
    match find_key(&chars, n) {
        Some(key) => Some(ButtonOrKey::Key(key)),
        None => None,
    }
}

/// Reads a binding name, whatever its case. `None` says that the name is
/// not recognized.
pub fn string_to_buttonorkey(name: &str) -> (r: Option<ButtonOrKey>)
    ensures
        r == binding_of_text(lowercase_of(name@)),
{
    let lower = to_lowercase(name);
    parse_lowercase_binding(lower.as_str())
}

} // verus!
