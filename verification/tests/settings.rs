use exile_controller::binding::ButtonOrKey;
use exile_controller::controller::action_manager::ActionDistance;
use exile_controller::controller::input::{ControllerType, ControllerTypeDetection};
use exile_controller::keys::{Key, MouseButton};
use exile_controller::pad::{PadButton, TRACKED_BUTTONS};
use exile_controller::settings::{
    sanitize_settings, ControllerSettings, OverlaySettings, SettingsError, SettingsSource,
};

fn overlay() -> OverlaySettings {
    OverlaySettings {
        screen_height: 1080,
        screen_width: 1920,
        show_crosshair: true,
        show_buttons: false,
        always_show_overlay: false,
        windowed_mode: false,
    }
}

fn controller() -> ControllerSettings {
    ControllerSettings {
        controller_deadzone: 200,
        trigger_threshold: 300,
        walk_circle_radius_px: 200,
        close_circle_radius_px: 150,
        mid_circle_radius_px: 300,
        far_circle_radius_px: 450,
        controller_type: ControllerTypeDetection::Auto,
    }
}

fn mapping() -> Vec<(String, String)> {
    [
        ("a", "q"),
        ("b", "w"),
        ("x", "e"),
        ("y", "r"),
        ("bumper_left", "t"),
        ("bumper_right", "rightclick"),
        ("trigger_left", "middleclick"),
        ("trigger_right", "altleftclick"),
        ("start", "escape"),
        ("back", "tab"),
        ("dpad_down", "1"),
        ("dpad_left", "2"),
        ("dpad_right", "3"),
        ("dpad_up", "4"),
        ("left_analog", ""),
        ("right_analog", "5"),
    ]
    .iter()
    .map(|(button, target)| (String::from(*button), String::from(*target)))
    .collect()
}

fn source() -> SettingsSource {
    SettingsSource {
        overlay: overlay(),
        button_mapping: mapping(),
        aimable_buttons: vec![String::from("a"), String::from("R2")],
        action_distances: vec![
            (String::from("a"), ActionDistance::Close),
            (String::from("b"), ActionDistance::Mid),
            (String::from("l1"), ActionDistance::Far),
        ],
        controller: controller(),
    }
}

#[test]
fn sound_settings_are_taken() {
    let settings = sanitize_settings(&source()).unwrap();
    assert_eq!(settings.overlay_settings(), overlay());
    assert_eq!(settings.controller_settings(), controller());
    assert_eq!(settings.resolve(PadButton::South), ButtonOrKey::Key(Key::KeyQ));
    assert_eq!(settings.resolve(PadButton::East), ButtonOrKey::Key(Key::KeyW));
    assert_eq!(settings.resolve(PadButton::West), ButtonOrKey::Key(Key::KeyE));
    assert_eq!(settings.resolve(PadButton::North), ButtonOrKey::Key(Key::KeyR));
    assert_eq!(settings.resolve(PadButton::LeftTrigger), ButtonOrKey::Key(Key::KeyT));
    assert_eq!(
        settings.resolve(PadButton::RightTrigger),
        ButtonOrKey::Button(MouseButton::Right)
    );
    assert_eq!(
        settings.resolve(PadButton::LeftTrigger2),
        ButtonOrKey::Button(MouseButton::Middle)
    );
    assert_eq!(
        settings.resolve(PadButton::RightTrigger2),
        ButtonOrKey::ButtonKeyChord(MouseButton::Left, Key::Alt)
    );
    assert_eq!(settings.resolve(PadButton::Start), ButtonOrKey::Key(Key::Escape));
    assert_eq!(settings.resolve(PadButton::Select), ButtonOrKey::Key(Key::Tab));
    assert_eq!(settings.resolve(PadButton::DPadDown), ButtonOrKey::Key(Key::Num1));
    assert_eq!(settings.resolve(PadButton::DPadLeft), ButtonOrKey::Key(Key::Num2));
    assert_eq!(settings.resolve(PadButton::DPadRight), ButtonOrKey::Key(Key::Num3));
    assert_eq!(settings.resolve(PadButton::DPadUp), ButtonOrKey::Key(Key::Num4));
    assert_eq!(settings.resolve(PadButton::LeftThumb), ButtonOrKey::Empty);
    assert_eq!(settings.resolve(PadButton::RightThumb), ButtonOrKey::Key(Key::Num5));
    assert_eq!(settings.resolve(PadButton::Unknown), ButtonOrKey::Empty);
}

#[test]
fn tables_come_in_table_order() {
    let settings = sanitize_settings(&source()).unwrap();
    let bindings = settings.button_mapping_settings();
    assert_eq!(bindings.len(), TRACKED_BUTTONS);
    for (i, target) in bindings.iter().enumerate() {
        assert_eq!(*target, settings.resolve(PadButton::at(i)));
    }
    let distances = settings.action_distances();
    assert_eq!(distances.len(), TRACKED_BUTTONS);
    for (i, distance) in distances.iter().enumerate() {
        assert_eq!(*distance, settings.get_ability_action_distance(PadButton::at(i)));
    }
    assert_eq!(
        settings.aimable_buttons(),
        vec![PadButton::South, PadButton::RightTrigger2]
    );
}

#[test]
fn aimable_buttons_and_distances() {
    let settings = sanitize_settings(&source()).unwrap();
    assert!(settings.is_aimable(PadButton::South));
    assert!(settings.is_aimable(PadButton::RightTrigger2));
    assert!(!settings.is_aimable(PadButton::East));
    assert!(!settings.is_aimable(PadButton::Unknown));
    assert_eq!(settings.get_ability_action_distance(PadButton::South), ActionDistance::Close);
    assert_eq!(settings.get_ability_action_distance(PadButton::East), ActionDistance::Mid);
    assert_eq!(
        settings.get_ability_action_distance(PadButton::LeftTrigger),
        ActionDistance::Far
    );
    assert_eq!(settings.get_ability_action_distance(PadButton::West), ActionDistance::Unset);
    assert_eq!(settings.get_ability_action_distance(PadButton::Start), ActionDistance::Unset);
    assert_eq!(settings.get_ability_action_distance(PadButton::Unknown), ActionDistance::Unset);
}

#[test]
fn circle_radii() {
    let controller = controller();
    assert_eq!(controller.circle_radius_px(ActionDistance::Close), 150);
    assert_eq!(controller.circle_radius_px(ActionDistance::Mid), 300);
    assert_eq!(controller.circle_radius_px(ActionDistance::Far), 450);
    assert_eq!(controller.circle_radius_px(ActionDistance::Unset), 200);
    assert_eq!(controller.controller_deadzone(), 200);
    assert_eq!(controller.trigger_threshold(), 300);
    assert_eq!(controller.walk_circle_radius_px(), 200);
    assert_eq!(controller.close_circle_radius_px(), 150);
    assert_eq!(controller.mid_circle_radius_px(), 300);
    assert_eq!(controller.far_circle_radius_px(), 450);
    assert_eq!(controller.controller_type(), ControllerTypeDetection::Auto);
    let overlay = overlay();
    assert_eq!(overlay.screen_height(), 1080);
    assert_eq!(overlay.screen_width(), 1920);
    assert!(overlay.show_crosshair());
    assert!(!overlay.show_buttons());
    assert!(!overlay.always_show_overlay());
    assert!(!overlay.windowed_mode());
}

#[test]
fn ability_of_a_binding_target() {
    let settings = sanitize_settings(&source()).unwrap();
    assert_eq!(settings.ability_name_for(ButtonOrKey::Key(Key::KeyQ)), Some(PadButton::South));
    assert_eq!(
        settings.ability_name_for(ButtonOrKey::Button(MouseButton::Right)),
        Some(PadButton::RightTrigger)
    );
    assert_eq!(
        settings.ability_name_for(ButtonOrKey::ButtonKeyChord(MouseButton::Left, Key::Alt)),
        Some(PadButton::RightTrigger2)
    );
    // Bound, but not to an ability button.
    assert_eq!(settings.ability_name_for(ButtonOrKey::Key(Key::Escape)), None);
    assert_eq!(settings.ability_name_for(ButtonOrKey::Key(Key::Num5)), None);
    assert_eq!(settings.ability_name_for(ButtonOrKey::Empty), None);
    // Not bound at all.
    assert_eq!(settings.ability_name_for(ButtonOrKey::Key(Key::KeyZ)), None);
}

#[test]
fn last_ability_button_bound_to_a_target_counts() {
    let mut source = source();
    source.button_mapping[1].1 = String::from("Q");
    source.button_mapping[5].1 = String::from("q");
    let settings = sanitize_settings(&source).unwrap();
    assert_eq!(
        settings.ability_name_for(ButtonOrKey::Key(Key::KeyQ)),
        Some(PadButton::RightTrigger)
    );
    assert_eq!(settings.ability_name_for(ButtonOrKey::Key(Key::KeyW)), None);
}

#[test]
fn last_entry_for_a_button_counts() {
    let mut source = source();
    source.button_mapping.push((String::from("Cross"), String::from("z")));
    source.action_distances.push((String::from("cross"), ActionDistance::Far));
    let settings = sanitize_settings(&source).unwrap();
    assert_eq!(settings.resolve(PadButton::South), ButtonOrKey::Key(Key::KeyZ));
    assert_eq!(settings.get_ability_action_distance(PadButton::South), ActionDistance::Far);
    assert_eq!(settings.ability_name_for(ButtonOrKey::Key(Key::KeyQ)), None);
}

#[test]
fn settings_can_be_cloned() {
    let settings = sanitize_settings(&source()).unwrap();
    let copy = settings.clone();
    assert_eq!(copy.button_mapping_settings(), settings.button_mapping_settings());
    assert_eq!(copy.aimable_buttons(), settings.aimable_buttons());
    assert_eq!(copy.action_distances(), settings.action_distances());
    assert_eq!(copy.overlay_settings(), settings.overlay_settings());
    assert_eq!(copy.controller_settings(), settings.controller_settings());
}

#[test]
fn forced_controller_family_is_kept() {
    let mut source = source();
    source.controller.controller_type =
        ControllerTypeDetection::Forced(ControllerType::Playstation);
    let settings = sanitize_settings(&source).unwrap();
    assert_eq!(
        settings.controller_settings().controller_type(),
        ControllerTypeDetection::Forced(ControllerType::Playstation)
    );
}

#[test]
fn windowed_mode_with_always_shown_overlay_is_turned_down() {
    let mut source = source();
    source.overlay.always_show_overlay = true;
    source.overlay.windowed_mode = true;
    assert_eq!(sanitize_settings(&source).err(), Some(SettingsError::WindowedAlwaysShown));
    source.overlay.windowed_mode = false;
    assert!(sanitize_settings(&source).is_ok());
    source.overlay.always_show_overlay = false;
    source.overlay.windowed_mode = true;
    assert!(sanitize_settings(&source).is_ok());
}

#[test]
fn unrecognized_binding_is_turned_down() {
    let mut source = source();
    source.button_mapping[3].1 = String::from("fooleftclick");
    source.button_mapping[7].1 = String::from("bar");
    assert_eq!(sanitize_settings(&source).err(), Some(SettingsError::UnrecognizedBinding(3)));
}

#[test]
fn distance_for_a_button_without_ability_is_turned_down() {
    let mut source = source();
    source.action_distances.push((String::from("start"), ActionDistance::Close));
    source.action_distances.push((String::from("nonsense"), ActionDistance::Close));
    assert_eq!(sanitize_settings(&source).err(), Some(SettingsError::InvalidDistanceButton(3)));
    let mut source = self::source();
    source.action_distances.insert(0, (String::from("nonsense"), ActionDistance::Unset));
    assert_eq!(sanitize_settings(&source).err(), Some(SettingsError::InvalidDistanceButton(0)));
}

#[test]
fn missing_button_is_turned_down() {
    let mut source = source();
    source.button_mapping.remove(15);
    source.button_mapping.remove(2);
    assert_eq!(
        sanitize_settings(&source).err(),
        Some(SettingsError::MissingButton(PadButton::West))
    );
    let mut source = self::source();
    source.button_mapping.clear();
    assert_eq!(
        sanitize_settings(&source).err(),
        Some(SettingsError::MissingButton(PadButton::South))
    );
}

#[test]
fn entry_for_an_untracked_button_is_turned_down() {
    let mut source = source();
    source.button_mapping.insert(4, (String::from("paddle"), String::from("q")));
    source.button_mapping.push((String::from("other"), String::from("q")));
    assert_eq!(sanitize_settings(&source).err(), Some(SettingsError::UnexpectedButton(4)));
}

#[test]
fn aimable_button_without_ability_is_turned_down() {
    let mut source = source();
    source.aimable_buttons.push(String::from("dpad_up"));
    assert_eq!(sanitize_settings(&source).err(), Some(SettingsError::InvalidAimableButton(2)));
    let mut source = self::source();
    source.aimable_buttons.insert(1, String::from("nonsense"));
    assert_eq!(sanitize_settings(&source).err(), Some(SettingsError::InvalidAimableButton(1)));
}

#[test]
fn first_fault_is_reported() {
    let mut source = source();
    source.aimable_buttons.push(String::from("dpad_up"));
    source.button_mapping.push((String::from("other"), String::from("q")));
    assert_eq!(sanitize_settings(&source).err(), Some(SettingsError::UnexpectedButton(16)));
    source.button_mapping.remove(0);
    assert_eq!(
        sanitize_settings(&source).err(),
        Some(SettingsError::MissingButton(PadButton::South))
    );
    source.action_distances.push((String::from("start"), ActionDistance::Close));
    assert_eq!(sanitize_settings(&source).err(), Some(SettingsError::InvalidDistanceButton(3)));
    source.button_mapping[0].1 = String::from("??");
    assert_eq!(sanitize_settings(&source).err(), Some(SettingsError::UnrecognizedBinding(0)));
    source.overlay.always_show_overlay = true;
    source.overlay.windowed_mode = true;
    assert_eq!(sanitize_settings(&source).err(), Some(SettingsError::WindowedAlwaysShown));
}
