use exile_controller::binding::{parse_lowercase_binding, string_to_buttonorkey, ButtonOrKey};
use exile_controller::keys::{Key, MouseButton};
use exile_controller::pad::{
    parse_lowercase_button, string_to_controller_button, PadButton, ABILITY_BUTTONS,
    TRACKED_BUTTONS,
};

#[test]
fn empty_name_binds_nothing() {
    assert_eq!(string_to_buttonorkey(""), Some(ButtonOrKey::Empty));
}

#[test]
fn mouse_button_names() {
    assert_eq!(
        string_to_buttonorkey("leftclick"),
        Some(ButtonOrKey::Button(MouseButton::Left))
    );
    assert_eq!(
        string_to_buttonorkey("middleclick"),
        Some(ButtonOrKey::Button(MouseButton::Middle))
    );
    assert_eq!(
        string_to_buttonorkey("rightclick"),
        Some(ButtonOrKey::Button(MouseButton::Right))
    );
}

#[test]
fn binding_names_ignore_case() {
    assert_eq!(string_to_buttonorkey("Q"), Some(ButtonOrKey::Key(Key::KeyQ)));
    assert_eq!(string_to_buttonorkey("q"), Some(ButtonOrKey::Key(Key::KeyQ)));
    assert_eq!(
        string_to_buttonorkey("LeftClick"),
        Some(ButtonOrKey::Button(MouseButton::Left))
    );
    assert_eq!(string_to_buttonorkey("ESCAPE"), Some(ButtonOrKey::Key(Key::Escape)));
    assert_eq!(
        string_to_buttonorkey("AltLeftClick"),
        Some(ButtonOrKey::ButtonKeyChord(MouseButton::Left, Key::Alt))
    );
}

#[test]
fn lowercase_parser_does_not_fold_case() {
    assert_eq!(parse_lowercase_binding("q"), Some(ButtonOrKey::Key(Key::KeyQ)));
    assert_eq!(parse_lowercase_binding("Q"), None);
    assert_eq!(parse_lowercase_button("a"), PadButton::South);
    assert_eq!(parse_lowercase_button("A"), PadButton::Unknown);
}

#[test]
fn function_keys() {
    let expected = [
        ("f1", Key::F1),
        ("f2", Key::F2),
        ("f3", Key::F3),
        ("f4", Key::F4),
        ("f5", Key::F5),
        ("f6", Key::F6),
        ("f7", Key::F7),
        ("f8", Key::F8),
        ("f9", Key::F9),
        ("f10", Key::F10),
        ("f11", Key::F11),
        ("f12", Key::F12),
    ];
    for (name, key) in expected {
        assert_eq!(string_to_buttonorkey(name), Some(ButtonOrKey::Key(key)));
    }
}

#[test]
fn letter_keys() {
    let expected = [
        ("a", Key::KeyA),
        ("b", Key::KeyB),
        ("c", Key::KeyC),
        ("d", Key::KeyD),
        ("e", Key::KeyE),
        ("f", Key::KeyF),
        ("g", Key::KeyG),
        ("h", Key::KeyH),
        ("i", Key::KeyI),
        ("j", Key::KeyJ),
        ("k", Key::KeyK),
        ("l", Key::KeyL),
        ("m", Key::KeyM),
        ("n", Key::KeyN),
        ("o", Key::KeyO),
        ("p", Key::KeyP),
        ("q", Key::KeyQ),
        ("r", Key::KeyR),
        ("s", Key::KeyS),
        ("t", Key::KeyT),
        ("u", Key::KeyU),
        ("v", Key::KeyV),
        ("w", Key::KeyW),
        ("x", Key::KeyX),
        ("y", Key::KeyY),
        ("z", Key::KeyZ),
    ];
    for (name, key) in expected {
        assert_eq!(string_to_buttonorkey(name), Some(ButtonOrKey::Key(key)));
    }
}

#[test]
fn digit_and_punctuation_keys() {
    let expected = [
        ("0", Key::Num0),
        ("1", Key::Num1),
        ("2", Key::Num2),
        ("3", Key::Num3),
        ("4", Key::Num4),
        ("5", Key::Num5),
        ("6", Key::Num6),
        ("7", Key::Num7),
        ("8", Key::Num8),
        ("9", Key::Num9),
        ("`", Key::BackQuote),
        ("[", Key::LeftBracket),
        ("]", Key::RightBracket),
        (";", Key::SemiColon),
        ("/", Key::Slash),
        (",", Key::Comma),
        ("=", Key::Equal),
    ];
    for (name, key) in expected {
        assert_eq!(string_to_buttonorkey(name), Some(ButtonOrKey::Key(key)));
    }
}

#[test]
fn navigation_and_modifier_keys() {
    let expected = [
        ("escape", Key::Escape),
        ("space", Key::Space),
        ("tab", Key::Tab),
        ("backspace", Key::Backspace),
        ("delete", Key::Delete),
        ("uparrow", Key::UpArrow),
        ("downarrow", Key::DownArrow),
        ("leftarrow", Key::LeftArrow),
        ("rightarrow", Key::RightArrow),
        ("alt", Key::Alt),
        ("shift", Key::ShiftLeft),
        ("control", Key::ControlLeft),
    ];
    for (name, key) in expected {
        assert_eq!(string_to_buttonorkey(name), Some(ButtonOrKey::Key(key)));
    }
}

#[test]
fn chords_name_a_modifier_and_a_mouse_button() {
    assert_eq!(
        string_to_buttonorkey("altleftclick"),
        Some(ButtonOrKey::ButtonKeyChord(MouseButton::Left, Key::Alt))
    );
    assert_eq!(
        string_to_buttonorkey("shiftrightclick"),
        Some(ButtonOrKey::ButtonKeyChord(MouseButton::Right, Key::ShiftLeft))
    );
    assert_eq!(
        string_to_buttonorkey("controlmiddleclick"),
        Some(ButtonOrKey::ButtonKeyChord(MouseButton::Middle, Key::ControlLeft))
    );
    assert_eq!(
        string_to_buttonorkey("qleftclick"),
        Some(ButtonOrKey::ButtonKeyChord(MouseButton::Left, Key::KeyQ))
    );
}

#[test]
fn repeated_button_name_of_a_chord_is_read_once() {
    assert_eq!(
        string_to_buttonorkey("altleftclickleftclick"),
        Some(ButtonOrKey::ButtonKeyChord(MouseButton::Left, Key::Alt))
    );
}

#[test]
fn unrecognized_binding_names() {
    assert_eq!(string_to_buttonorkey("fooleftclick"), None);
    assert_eq!(string_to_buttonorkey("leftclickleftclick"), None);
    assert_eq!(string_to_buttonorkey("rightclickleftclick"), None);
    assert_eq!(string_to_buttonorkey("altrightclickleftclick"), None);
    assert_eq!(string_to_buttonorkey("leftclickalt"), None);
    assert_eq!(string_to_buttonorkey("click"), None);
    assert_eq!(string_to_buttonorkey("f13"), None);
    assert_eq!(string_to_buttonorkey("enter"), None);
    assert_eq!(string_to_buttonorkey(" "), None);
    assert_eq!(string_to_buttonorkey("q "), None);
}

#[test]
fn controller_button_names() {
    let expected = [
        ("a", PadButton::South),
        ("cross", PadButton::South),
        ("b", PadButton::East),
        ("circle", PadButton::East),
        ("x", PadButton::West),
        ("square", PadButton::West),
        ("y", PadButton::North),
        ("triangle", PadButton::North),
        ("start", PadButton::Start),
        ("options", PadButton::Start),
        ("back", PadButton::Select),
        ("select", PadButton::Select),
        ("share", PadButton::Select),
        ("dpad_down", PadButton::DPadDown),
        ("dpad_left", PadButton::DPadLeft),
        ("dpad_right", PadButton::DPadRight),
        ("dpad_up", PadButton::DPadUp),
        ("left_analog", PadButton::LeftThumb),
        ("l3", PadButton::LeftThumb),
        ("right_analog", PadButton::RightThumb),
        ("r3", PadButton::RightThumb),
        ("bumper_left", PadButton::LeftTrigger),
        ("l1", PadButton::LeftTrigger),
        ("bumper_right", PadButton::RightTrigger),
        ("r1", PadButton::RightTrigger),
        ("trigger_left", PadButton::LeftTrigger2),
        ("l2", PadButton::LeftTrigger2),
        ("trigger_right", PadButton::RightTrigger2),
        ("r2", PadButton::RightTrigger2),
    ];
    for (name, button) in expected {
        assert_eq!(string_to_controller_button(name), button);
    }
}

#[test]
fn controller_button_names_ignore_case() {
    assert_eq!(string_to_controller_button("A"), PadButton::South);
    assert_eq!(string_to_controller_button("Triangle"), PadButton::North);
    assert_eq!(string_to_controller_button("DPAD_UP"), PadButton::DPadUp);
}

#[test]
fn unknown_controller_button_names() {
    assert_eq!(string_to_controller_button(""), PadButton::Unknown);
    assert_eq!(string_to_controller_button("c"), PadButton::Unknown);
    assert_eq!(string_to_controller_button("l4"), PadButton::Unknown);
    assert_eq!(string_to_controller_button("dpad"), PadButton::Unknown);
}

#[test]
fn button_positions_round_trip() {
    for i in 0..TRACKED_BUTTONS {
        let button = PadButton::at(i);
        assert_ne!(button, PadButton::Unknown);
        assert_eq!(button.index(), i);
        assert_eq!(button.is_ability_button(), i < ABILITY_BUTTONS);
    }
    assert_eq!(PadButton::at(TRACKED_BUTTONS), PadButton::Unknown);
    assert_eq!(PadButton::at(100), PadButton::Unknown);
    assert_eq!(PadButton::Unknown.index(), TRACKED_BUTTONS);
    assert!(!PadButton::Unknown.is_ability_button());
}

#[test]
fn ability_buttons_are_face_buttons_bumpers_and_triggers() {
    let abilities = [
        PadButton::South,
        PadButton::East,
        PadButton::West,
        PadButton::North,
        PadButton::LeftTrigger,
        PadButton::RightTrigger,
        PadButton::LeftTrigger2,
        PadButton::RightTrigger2,
    ];
    for button in abilities {
        assert!(button.is_ability_button());
    }
    let others = [
        PadButton::Start,
        PadButton::Select,
        PadButton::DPadDown,
        PadButton::DPadLeft,
        PadButton::DPadRight,
        PadButton::DPadUp,
        PadButton::LeftThumb,
        PadButton::RightThumb,
    ];
    for button in others {
        assert!(!button.is_ability_button());
    }
}

#[test]
fn ability_keys() {
    for key in [Key::KeyQ, Key::KeyW, Key::KeyE, Key::KeyR, Key::KeyT] {
        assert!(key.is_ability_key());
    }
    for key in [Key::KeyA, Key::Alt, Key::Space, Key::Num1, Key::KeyY] {
        assert!(!key.is_ability_key());
    }
}
