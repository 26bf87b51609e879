use exile_controller::binding::ButtonOrKey;
use exile_controller::controller::action_manager::{ActionDistance, ActionManager};
use exile_controller::controller::command::{Command, CursorTarget, Heading};
use exile_controller::controller::input::{
    load_gamepad_manager, AnalogStick, ControllerButton, ControllerInfo, ControllerState,
    ControllerTypeDetection, GamepadEvent, GamepadEventKind, Reaction,
};
use exile_controller::game_window_tracker::GameWindowTracker;
use exile_controller::keys::{Key, MouseButton};
use exile_controller::pad::{PadAxis, PadButton, TRACKED_BUTTONS};
use exile_controller::settings::{
    sanitize_settings, ControllerSettings, OverlaySettings, SettingsSource,
};

const DEADZONE: i32 = 200;

fn manager_with(
    bindings: &[(&str, &str)],
    aimable: &[&str],
    distances: &[(&str, ActionDistance)],
) -> ActionManager {
    manager_with_radii(bindings, aimable, distances, (200, 150, 300, 450))
}

/// The radii are those of the walking circle and of the close, mid and far
/// tiers.
fn manager_with_radii(
    bindings: &[(&str, &str)],
    aimable: &[&str],
    distances: &[(&str, ActionDistance)],
    radii: (i32, i32, i32, i32),
) -> ActionManager {
    let names = [
        "a", "b", "x", "y", "bumper_left", "bumper_right", "trigger_left", "trigger_right",
        "start", "back", "dpad_down", "dpad_left", "dpad_right", "dpad_up", "left_analog",
        "right_analog",
    ];
    let mut button_mapping: Vec<(String, String)> =
        names.iter().map(|n| (String::from(*n), String::new())).collect();
    for (button, target) in bindings {
        button_mapping.push((String::from(*button), String::from(*target)));
    }
    let source = SettingsSource {
        overlay: OverlaySettings {
            screen_height: 1080,
            screen_width: 1920,
            show_crosshair: false,
            show_buttons: false,
            always_show_overlay: false,
            windowed_mode: false,
        },
        button_mapping,
        aimable_buttons: aimable.iter().map(|n| String::from(*n)).collect(),
        action_distances: distances.iter().map(|(n, d)| (String::from(*n), *d)).collect(),
        controller: ControllerSettings {
            controller_deadzone: DEADZONE,
            trigger_threshold: 300,
            walk_circle_radius_px: radii.0,
            close_circle_radius_px: radii.1,
            mid_circle_radius_px: radii.2,
            far_circle_radius_px: radii.3,
            controller_type: ControllerTypeDetection::Auto,
        },
    };
    let settings = sanitize_settings(&source).unwrap();
    let tracker = GameWindowTracker::new(&settings);
    ActionManager::initialize(settings, tracker)
}

fn stick(x: i32, y: i32) -> AnalogStick {
    AnalogStick { stick_x: x, stick_y: y, deadzone: DEADZONE }
}

fn centered() -> AnalogStick {
    stick(0, 0)
}

fn pulled() -> AnalogStick {
    stick(500, 0)
}

fn circle(distance: ActionDistance, toward: Heading) -> Command {
    Command::MoveCursor(CursorTarget::Circle { distance, toward })
}

fn walk_circle() -> Command {
    circle(ActionDistance::Unset, Heading::Walk)
}

/// Puts the given buttons down or up and has the manager plan for them.
fn feed(manager: &mut ActionManager, state: &mut ControllerState, samples: &[(PadButton, i32)]) {
    for (button, level) in samples {
        state.changed_button_event(*button, *level);
    }
    manager.process_input_buttons(state);
}

#[test]
fn new_manager_is_idle() {
    let mut manager = manager_with(&[], &[], &[]);
    assert!(!manager.is_walking());
    assert!(!manager.is_aiming());
    assert!(!manager.is_ability_held());
    assert!(!manager.is_holding_primary_for_chord());
    assert!(manager.held_ability_identities().is_empty());
    assert!(manager.handle_character_actions().is_empty());
}

#[test]
fn walking_moves_the_cursor_to_the_walking_circle_and_clicks() {
    let mut manager = manager_with(&[("a", "q")], &[], &[]);
    manager.process_input_analogs(stick(500, 0), centered());
    assert!(manager.is_walking());
    assert!(!manager.is_aiming());
    assert_eq!(
        manager.handle_character_actions(),
        vec![walk_circle(), Command::ButtonPress(MouseButton::Left)]
    );
    assert_eq!(manager.get_attack_circle_radius(ActionDistance::Unset), 200);
    // The click is held, not repeated.
    assert_eq!(manager.handle_character_actions(), vec![walk_circle()]);
    // It is let go when the player stops.
    manager.process_input_analogs(centered(), centered());
    assert_eq!(
        manager.handle_character_actions(),
        vec![Command::ButtonRelease(MouseButton::Left)]
    );
    assert!(manager.handle_character_actions().is_empty());
}

#[test]
fn stick_on_the_edge_of_the_deadzone_does_not_walk() {
    let mut manager = manager_with(&[], &[], &[]);
    manager.process_input_analogs(stick(200, -200), stick(-200, 200));
    assert!(!manager.is_walking());
    assert!(!manager.is_aiming());
    manager.process_input_analogs(stick(0, -201), stick(201, 0));
    assert!(manager.is_walking());
    assert!(manager.is_aiming());
}

#[test]
fn aiming_without_walking_is_free_aim() {
    let mut manager = manager_with(&[], &[], &[]);
    manager.process_input_analogs(centered(), pulled());
    assert_eq!(
        manager.handle_character_actions(),
        vec![Command::MoveCursor(CursorTarget::FreeAim)]
    );
}

#[test]
fn walking_and_aiming_without_ability_uses_the_walking_circle() {
    let mut manager = manager_with(&[], &[], &[]);
    manager.process_input_analogs(pulled(), pulled());
    assert_eq!(
        manager.handle_character_actions(),
        vec![walk_circle(), Command::ButtonPress(MouseButton::Left)]
    );
}

#[test]
fn edges_are_planned_once() {
    let mut manager = manager_with(&[("dpad_up", "1")], &[], &[]);
    let mut state = ControllerState::new();
    feed(&mut manager, &mut state, &[(PadButton::DPadUp, 1)]);
    assert_eq!(
        state.button(PadButton::DPadUp),
        ControllerButton { held: true, just_pressed: false, just_unpressed: false }
    );
    assert_eq!(manager.handle_character_actions(), vec![Command::KeyPress(Key::Num1)]);
    // Nothing new happened: nothing is planned.
    manager.process_input_buttons(&mut state);
    assert!(manager.handle_character_actions().is_empty());
    feed(&mut manager, &mut state, &[(PadButton::DPadUp, 0)]);
    assert_eq!(state.button(PadButton::DPadUp), ControllerButton::new());
    assert_eq!(manager.handle_character_actions(), vec![Command::KeyRelease(Key::Num1)]);
}

#[test]
fn button_with_both_edges_is_pressed_then_released() {
    let mut manager = manager_with(&[("dpad_up", "1")], &[], &[]);
    let mut state = ControllerState::new();
    state.set_button(
        PadButton::DPadUp,
        ControllerButton { held: false, just_pressed: true, just_unpressed: true },
    );
    manager.process_input_buttons(&mut state);
    assert_eq!(
        state.button(PadButton::DPadUp),
        ControllerButton { held: false, just_pressed: false, just_unpressed: true }
    );
    assert_eq!(manager.handle_character_actions(), vec![Command::KeyPress(Key::Num1)]);
    manager.process_input_buttons(&mut state);
    assert_eq!(state.button(PadButton::DPadUp), ControllerButton::new());
    assert_eq!(manager.handle_character_actions(), vec![Command::KeyRelease(Key::Num1)]);
}

#[test]
fn button_bound_to_nothing_does_nothing() {
    let mut manager = manager_with(&[], &["a"], &[("a", ActionDistance::Far)]);
    let mut state = ControllerState::new();
    manager.process_input_analogs(pulled(), pulled());
    feed(&mut manager, &mut state, &[(PadButton::South, 1)]);
    assert_eq!(
        manager.handle_character_actions(),
        vec![walk_circle(), Command::ButtonPress(MouseButton::Left)]
    );
}

#[test]
fn planned_actions_are_carried_out_newest_first() {
    let mut manager = manager_with(&[("a", "1"), ("b", "2"), ("dpad_up", "3")], &[], &[]);
    let mut state = ControllerState::new();
    feed(
        &mut manager,
        &mut state,
        &[(PadButton::DPadUp, 1), (PadButton::East, 1), (PadButton::South, 1)],
    );
    assert_eq!(
        manager.handle_character_actions(),
        vec![
            Command::KeyPress(Key::Num3),
            Command::KeyPress(Key::Num2),
            Command::KeyPress(Key::Num1),
        ]
    );
    // What was planned in two rounds is carried out in one frame.
    feed(&mut manager, &mut state, &[(PadButton::South, 0)]);
    feed(&mut manager, &mut state, &[(PadButton::East, 0)]);
    assert_eq!(
        manager.handle_character_actions(),
        vec![Command::KeyRelease(Key::Num2), Command::KeyRelease(Key::Num1)]
    );
}

#[test]
fn aimable_press_while_walking_and_aiming_follows_the_aiming_stick() {
    let mut manager = manager_with(&[("a", "1")], &["a"], &[("a", ActionDistance::Far)]);
    let mut state = ControllerState::new();
    manager.process_input_analogs(pulled(), pulled());
    feed(&mut manager, &mut state, &[(PadButton::South, 1)]);
    assert_eq!(
        manager.handle_character_actions(),
        vec![
            circle(ActionDistance::Far, Heading::Aim),
            Command::KeyPress(Key::Num1),
            Command::ButtonPress(MouseButton::Left),
        ]
    );
    assert_eq!(manager.get_attack_circle_radius(ActionDistance::Far), 450);
}

#[test]
fn aimable_press_while_only_walking_follows_the_walking_stick() {
    let mut manager = manager_with(&[("a", "1")], &["a"], &[]);
    let mut state = ControllerState::new();
    manager.process_input_analogs(pulled(), centered());
    feed(&mut manager, &mut state, &[(PadButton::South, 1)]);
    assert_eq!(
        manager.handle_character_actions(),
        vec![walk_circle(), Command::KeyPress(Key::Num1), Command::ButtonPress(MouseButton::Left)]
    );
}

#[test]
fn aimable_press_while_standing_does_not_move_the_cursor() {
    let mut manager = manager_with(&[("a", "1")], &["a"], &[("a", ActionDistance::Far)]);
    let mut state = ControllerState::new();
    feed(&mut manager, &mut state, &[(PadButton::South, 1)]);
    assert_eq!(manager.handle_character_actions(), vec![Command::KeyPress(Key::Num1)]);
    // While only aiming, the press does not place the cursor; the free aim
    // that follows does.
    feed(&mut manager, &mut state, &[(PadButton::South, 0)]);
    assert_eq!(manager.handle_character_actions(), vec![Command::KeyRelease(Key::Num1)]);
    manager.process_input_analogs(centered(), pulled());
    feed(&mut manager, &mut state, &[(PadButton::South, 1)]);
    assert_eq!(
        manager.handle_character_actions(),
        vec![Command::KeyPress(Key::Num1), Command::MoveCursor(CursorTarget::FreeAim)]
    );
}

#[test]
fn later_sample_overwrites_an_edge_not_yet_acted_on() {
    let mut manager = manager_with(&[("a", "1")], &[], &[]);
    let mut state = ControllerState::new();
    feed(&mut manager, &mut state, &[(PadButton::South, 1)]);
    assert_eq!(manager.handle_character_actions(), vec![Command::KeyPress(Key::Num1)]);
    // Up and down again between two frames: only the press edge is left,
    // and the key is down already.
    feed(&mut manager, &mut state, &[(PadButton::South, 0), (PadButton::South, 1)]);
    assert!(manager.handle_character_actions().is_empty());
}

#[test]
fn press_with_distance_while_walking_follows_the_walking_stick() {
    let mut manager = manager_with(&[("a", "1")], &[], &[("a", ActionDistance::Close)]);
    let mut state = ControllerState::new();
    manager.process_input_analogs(pulled(), pulled());
    feed(&mut manager, &mut state, &[(PadButton::South, 1)]);
    assert_eq!(
        manager.handle_character_actions(),
        vec![
            circle(ActionDistance::Close, Heading::Walk),
            Command::KeyPress(Key::Num1),
            Command::ButtonPress(MouseButton::Left),
        ]
    );
    assert_eq!(manager.get_attack_circle_radius(ActionDistance::Close), 150);
    assert_eq!(manager.get_ability_action_distance(PadButton::South), ActionDistance::Close);
    assert_eq!(manager.get_ability_action_distance(PadButton::East), ActionDistance::Unset);
}

#[test]
fn press_without_distance_leaves_the_cursor_to_the_walking_circle() {
    let mut manager = manager_with(&[("a", "1")], &[], &[]);
    let mut state = ControllerState::new();
    manager.process_input_analogs(pulled(), pulled());
    feed(&mut manager, &mut state, &[(PadButton::South, 1)]);
    assert_eq!(
        manager.handle_character_actions(),
        vec![Command::KeyPress(Key::Num1), walk_circle(), Command::ButtonPress(MouseButton::Left)]
    );
}

#[test]
fn release_does_not_move_the_cursor() {
    let mut manager = manager_with(&[("a", "1")], &["a"], &[("a", ActionDistance::Far)]);
    let mut state = ControllerState::new();
    feed(&mut manager, &mut state, &[(PadButton::South, 1)]);
    manager.handle_character_actions();
    manager.process_input_analogs(pulled(), pulled());
    feed(&mut manager, &mut state, &[(PadButton::South, 0)]);
    assert_eq!(
        manager.handle_character_actions(),
        vec![Command::KeyRelease(Key::Num1), walk_circle(), Command::ButtonPress(MouseButton::Left)]
    );
}

#[test]
fn farthest_of_two_held_abilities_wins() {
    let mut manager = manager_with(
        &[("a", "q"), ("b", "w")],
        &["a", "b"],
        &[("a", ActionDistance::Close), ("b", ActionDistance::Mid)],
    );
    let mut state = ControllerState::new();
    manager.process_input_analogs(pulled(), pulled());
    feed(&mut manager, &mut state, &[(PadButton::South, 1), (PadButton::East, 1)]);
    assert_eq!(
        manager.handle_character_actions(),
        vec![
            circle(ActionDistance::Mid, Heading::Aim),
            Command::KeyPress(Key::KeyW),
            circle(ActionDistance::Close, Heading::Aim),
            Command::KeyPress(Key::KeyQ),
            circle(ActionDistance::Mid, Heading::Aim),
            Command::ButtonPress(MouseButton::Left),
        ]
    );
    assert!(manager.is_ability_held());
    assert_eq!(
        manager.held_ability_identities(),
        vec![ButtonOrKey::Key(Key::KeyQ), ButtonOrKey::Key(Key::KeyW)]
    );
    // While both stay held, the cursor swivels on the farther circle.
    assert_eq!(
        manager.handle_character_actions(),
        vec![circle(ActionDistance::Mid, Heading::Aim)]
    );
    assert_eq!(manager.get_attack_circle_radius(ActionDistance::Mid), 300);
    assert_eq!(manager.get_attack_circle_radius(ActionDistance::Close), 150);
    // With the farther one let go, the nearer one decides.
    feed(&mut manager, &mut state, &[(PadButton::East, 0)]);
    assert_eq!(
        manager.handle_character_actions(),
        vec![Command::KeyRelease(Key::KeyW), circle(ActionDistance::Close, Heading::Aim)]
    );
}

#[test]
fn swivel_follows_the_walking_stick_unless_aimable_and_aiming() {
    let mut manager = manager_with(
        &[("a", "q"), ("b", "w")],
        &["a"],
        &[("a", ActionDistance::Close), ("b", ActionDistance::Far)],
    );
    let mut state = ControllerState::new();
    // Held ability that is not aimable, while aiming.
    feed(&mut manager, &mut state, &[(PadButton::East, 1)]);
    manager.handle_character_actions();
    manager.process_input_analogs(pulled(), pulled());
    assert_eq!(
        manager.handle_character_actions(),
        vec![circle(ActionDistance::Far, Heading::Walk), Command::ButtonPress(MouseButton::Left)]
    );
    // An aimable ability held as well: the aiming stick decides, on the
    // farthest circle.
    feed(&mut manager, &mut state, &[(PadButton::South, 1)]);
    assert_eq!(
        manager.handle_character_actions(),
        vec![
            circle(ActionDistance::Close, Heading::Aim),
            Command::KeyPress(Key::KeyQ),
            circle(ActionDistance::Far, Heading::Aim),
        ]
    );
    // Without aiming, the walking stick decides.
    manager.process_input_analogs(pulled(), centered());
    assert_eq!(
        manager.handle_character_actions(),
        vec![circle(ActionDistance::Far, Heading::Walk)]
    );
    // Without walking there is no swivel.
    manager.process_input_analogs(centered(), pulled());
    assert_eq!(
        manager.handle_character_actions(),
        vec![
            Command::MoveCursor(CursorTarget::FreeAim),
            Command::ButtonRelease(MouseButton::Left),
        ]
    );
}

#[test]
fn held_ability_without_distance_swivels_on_the_walking_circle() {
    let mut manager = manager_with(&[("a", "q")], &[], &[]);
    let mut state = ControllerState::new();
    feed(&mut manager, &mut state, &[(PadButton::South, 1)]);
    manager.handle_character_actions();
    manager.process_input_analogs(pulled(), centered());
    assert_eq!(
        manager.handle_character_actions(),
        vec![walk_circle(), Command::ButtonPress(MouseButton::Left)]
    );
}

#[test]
fn held_ability_on_a_button_without_ability_is_passed_over() {
    // The key Q is an ability key, but the button it is bound to carries no
    // ability: it has no say in the swivel.
    let mut manager = manager_with(&[("dpad_up", "q")], &[], &[]);
    let mut state = ControllerState::new();
    feed(&mut manager, &mut state, &[(PadButton::DPadUp, 1)]);
    manager.process_input_analogs(pulled(), pulled());
    assert_eq!(
        manager.handle_character_actions(),
        vec![Command::KeyPress(Key::KeyQ), walk_circle(), Command::ButtonPress(MouseButton::Left)]
    );
    assert!(manager.is_ability_held());
}

#[test]
fn tier_with_radius_of_zero_or_less_still_counts() {
    // The walking circle only stands in where no held ability has a tier.
    let mut manager = manager_with_radii(
        &[("a", "q"), ("b", "w"), ("x", "e")],
        &[],
        &[("a", ActionDistance::Mid), ("b", ActionDistance::Close)],
        (200, 0, -300, 450),
    );
    let mut state = ControllerState::new();
    feed(&mut manager, &mut state, &[(PadButton::South, 1), (PadButton::East, 1)]);
    manager.handle_character_actions();
    manager.process_input_analogs(pulled(), centered());
    assert_eq!(
        manager.handle_character_actions(),
        vec![circle(ActionDistance::Close, Heading::Walk), Command::ButtonPress(MouseButton::Left)]
    );
    feed(&mut manager, &mut state, &[(PadButton::East, 0)]);
    assert_eq!(
        manager.handle_character_actions(),
        vec![Command::KeyRelease(Key::KeyW), circle(ActionDistance::Mid, Heading::Walk)]
    );
    feed(&mut manager, &mut state, &[(PadButton::South, 0), (PadButton::West, 1)]);
    assert_eq!(
        manager.handle_character_actions(),
        vec![Command::KeyPress(Key::KeyE), Command::KeyRelease(Key::KeyQ), walk_circle()]
    );
}

#[test]
fn first_of_two_equally_far_tiers_wins() {
    let mut manager = manager_with_radii(
        &[("a", "q"), ("b", "w"), ("x", "e")],
        &[],
        &[("a", ActionDistance::Close), ("b", ActionDistance::Far), ("x", ActionDistance::Mid)],
        (200, 100, 300, 300),
    );
    let mut state = ControllerState::new();
    feed(
        &mut manager,
        &mut state,
        &[(PadButton::South, 1), (PadButton::East, 1), (PadButton::West, 1)],
    );
    manager.handle_character_actions();
    manager.process_input_analogs(pulled(), centered());
    // Held, in order: Q (close), W (far), E (mid). Far and mid reach equally
    // far; far comes first.
    assert_eq!(
        manager.handle_character_actions(),
        vec![circle(ActionDistance::Far, Heading::Walk), Command::ButtonPress(MouseButton::Left)]
    );
    assert_eq!(
        manager.get_attack_circle_radius(ActionDistance::Far),
        manager.get_attack_circle_radius(ActionDistance::Mid)
    );
}

#[test]
fn walk_click_is_left_alone_while_a_chord_holds_its_primary() {
    let mut manager = manager_with(&[("dpad_up", "altleftclick")], &[], &[]);
    let mut state = ControllerState::new();
    feed(&mut manager, &mut state, &[(PadButton::DPadUp, 1)]);
    assert_eq!(
        manager.handle_character_actions(),
        vec![
            Command::KeyPress(Key::Alt),
            Command::Sleep(20),
            Command::ButtonPress(MouseButton::Left),
            Command::Sleep(10),
            Command::KeyRelease(Key::Alt),
        ]
    );
    assert!(manager.is_holding_primary_for_chord());
    // Standing: the left button is not let go.
    assert!(manager.handle_character_actions().is_empty());
    // Walking: the cursor moves, the left button is left as it is.
    manager.process_input_analogs(pulled(), centered());
    assert_eq!(manager.handle_character_actions(), vec![walk_circle()]);
    // The chord is let go while walking: the walk click takes over.
    feed(&mut manager, &mut state, &[(PadButton::DPadUp, 0)]);
    assert_eq!(
        manager.handle_character_actions(),
        vec![
            Command::ButtonRelease(MouseButton::Left),
            walk_circle(),
            Command::ButtonPress(MouseButton::Left),
        ]
    );
    assert!(!manager.is_holding_primary_for_chord());
}

#[test]
fn triggers_plan_actions_by_their_threshold() {
    let mut manager = manager_with(&[("l2", "middleclick")], &[], &[]);
    let mut state = ControllerState::new();
    state.trigger_left_threshold = 300;
    feed(&mut manager, &mut state, &[(PadButton::LeftTrigger2, 300)]);
    assert!(manager.handle_character_actions().is_empty());
    feed(&mut manager, &mut state, &[(PadButton::LeftTrigger2, 301)]);
    assert_eq!(
        manager.handle_character_actions(),
        vec![Command::ButtonPress(MouseButton::Middle)]
    );
    feed(&mut manager, &mut state, &[(PadButton::LeftTrigger2, 999)]);
    assert!(manager.handle_character_actions().is_empty());
    feed(&mut manager, &mut state, &[(PadButton::LeftTrigger2, 300)]);
    assert_eq!(
        manager.handle_character_actions(),
        vec![Command::ButtonRelease(MouseButton::Middle)]
    );
}

#[test]
fn disconnect_lets_go_of_everything() {
    let mut manager = manager_with(&[("a", "q"), ("b", "rightclick")], &[], &[]);
    let mut state = ControllerState::new();
    manager.process_input_analogs(pulled(), pulled());
    feed(&mut manager, &mut state, &[(PadButton::South, 1), (PadButton::East, 1)]);
    manager.handle_character_actions();
    feed(&mut manager, &mut state, &[(PadButton::South, 0)]);
    assert_eq!(
        manager.handle_disconnect(),
        vec![
            Command::ButtonRelease(MouseButton::Left),
            Command::ButtonRelease(MouseButton::Right),
            Command::KeyRelease(Key::KeyQ),
        ]
    );
    assert!(!manager.is_ability_held());
    assert!(manager.held_ability_identities().is_empty());
    assert!(!manager.is_walking());
    assert!(!manager.is_aiming());
    // What was planned before the loss is dropped.
    assert!(manager.handle_character_actions().is_empty());
    assert!(manager.handle_disconnect().is_empty());
}

#[test]
fn disconnect_clears_controller_and_engine_state() {
    let pads = vec![ControllerInfo {
        id: 1,
        name: String::from("pad"),
        os_name: String::from("pad"),
        map_name: None,
    }];
    let mut gamepad = load_gamepad_manager(300, DEADZONE, &pads);
    let mut manager = manager_with(&[("a", "q"), ("r2", "altleftclick")], &[], &[]);
    for event in [
        GamepadEventKind::ButtonChanged(PadButton::South, 1),
        GamepadEventKind::ButtonChanged(PadButton::RightTrigger2, 900),
        GamepadEventKind::AxisChanged(PadAxis::LeftStickX, 900),
    ] {
        gamepad.process_gamepad_event(&GamepadEvent { id: 1, event });
    }
    manager.process_input_buttons(&mut gamepad.controller_state);
    manager.process_input_analogs(
        gamepad.controller_state.get_left_analog_stick(),
        gamepad.controller_state.get_right_analog_stick(),
    );
    manager.handle_character_actions();
    assert!(manager.is_ability_held());
    assert!(gamepad.controller_state.button(PadButton::South).held);

    gamepad.process_gamepad_event(&GamepadEvent { id: 1, event: GamepadEventKind::Disconnected });
    assert!(!gamepad.is_controller_connected());
    let sweep = manager.handle_disconnect();
    assert_eq!(
        sweep,
        vec![Command::ButtonRelease(MouseButton::Left), Command::KeyRelease(Key::KeyQ)]
    );
    assert!(manager.held_ability_identities().is_empty());
    assert!(!manager.is_holding_primary_for_chord());
    for i in 0..TRACKED_BUTTONS {
        assert!(!gamepad.controller_state.button(PadButton::at(i)).held);
    }
    // Nothing stale is acted on after the loss.
    manager.process_input_buttons(&mut gamepad.controller_state);
    manager.process_input_analogs(
        gamepad.controller_state.get_left_analog_stick(),
        gamepad.controller_state.get_right_analog_stick(),
    );
    assert!(manager.handle_character_actions().is_empty());
}

#[test]
fn walking_scenario_from_settings_to_commands() {
    // Button "a" bound to key "q"; the left stick pulled to the right beyond
    // a deadzone of 200; nothing aimed; a walking circle of 200 pixels.
    let pads = vec![ControllerInfo {
        id: 0,
        name: String::from("pad"),
        os_name: String::from("pad"),
        map_name: None,
    }];
    let mut gamepad = load_gamepad_manager(300, DEADZONE, &pads);
    let mut manager = manager_with(&[("a", "q")], &[], &[]);
    gamepad.process_gamepad_event(&GamepadEvent {
        id: 0,
        event: GamepadEventKind::AxisChanged(PadAxis::LeftStickX, 500),
    });
    gamepad.process_gamepad_event(&GamepadEvent {
        id: 0,
        event: GamepadEventKind::AxisChanged(PadAxis::LeftStickY, 0),
    });
    manager.process_input_buttons(&mut gamepad.controller_state);
    manager.process_input_analogs(
        gamepad.controller_state.get_left_analog_stick(),
        gamepad.controller_state.get_right_analog_stick(),
    );
    assert_eq!(
        manager.handle_character_actions(),
        vec![walk_circle(), Command::ButtonPress(MouseButton::Left)]
    );
    assert_eq!(manager.get_attack_circle_radius(ActionDistance::Unset), 200);
    assert_eq!(manager.game_window_tracker().game_window_width(), 1920);
    assert_eq!(manager.game_window_tracker().game_window_height(), 1080);
    // Pressing "a" sends the key it is bound to.
    gamepad.process_gamepad_event(&GamepadEvent {
        id: 0,
        event: GamepadEventKind::ButtonChanged(PadButton::South, 1),
    });
    manager.process_input_buttons(&mut gamepad.controller_state);
    assert_eq!(
        manager.handle_character_actions(),
        vec![Command::KeyPress(Key::KeyQ), walk_circle()]
    );
}

#[test]
fn frames_send_no_event_twice() {
    // Several buttons share keys and mouse buttons, one of them as the
    // modifier and one as the primary action of a chord.
    let mut manager = manager_with(
        &[
            ("a", "q"),
            ("b", "q"),
            ("x", "alt"),
            ("y", "altleftclick"),
            ("l1", "leftclick"),
            ("r1", "rightclick"),
            ("l2", "shiftrightclick"),
            ("r2", "shift"),
        ],
        &["a", "y"],
        &[("a", ActionDistance::Close), ("b", ActionDistance::Far)],
    );
    let buttons = [
        PadButton::South,
        PadButton::East,
        PadButton::West,
        PadButton::North,
        PadButton::LeftTrigger,
        PadButton::RightTrigger,
        PadButton::LeftTrigger2,
        PadButton::RightTrigger2,
    ];
    let mut state = ControllerState::new();
    let mut keys: Vec<Key> = Vec::new();
    let mut mouse: Vec<MouseButton> = Vec::new();
    let mut seed: u32 = 2024;
    for _ in 0..3000 {
        for _ in 0..3 {
            seed = seed.wrapping_mul(1_103_515_245).wrapping_add(12_345);
            let button = buttons[(seed >> 16) as usize % buttons.len()];
            state.changed_button_event(button, ((seed >> 8) % 2) as i32 * 1000);
        }
        seed = seed.wrapping_mul(1_103_515_245).wrapping_add(12_345);
        let left = if (seed >> 10) % 2 == 0 { pulled() } else { centered() };
        let right = if (seed >> 11) % 2 == 0 { pulled() } else { centered() };
        manager.process_input_buttons(&mut state);
        manager.process_input_analogs(left, right);
        for command in manager.handle_character_actions() {
            match command {
                Command::KeyPress(key) => {
                    assert!(!keys.contains(&key));
                    keys.push(key);
                }
                Command::KeyRelease(key) => {
                    assert!(keys.contains(&key));
                    keys.retain(|k| *k != key);
                }
                Command::ButtonPress(button) => {
                    assert!(!mouse.contains(&button));
                    mouse.push(button);
                }
                Command::ButtonRelease(button) => {
                    assert!(mouse.contains(&button));
                    mouse.retain(|b| *b != button);
                }
                Command::Sleep(_) | Command::MoveCursor(_) => {}
            }
        }
        assert_eq!(manager.is_ability_held(), !manager.held_ability_identities().is_empty());
    }
    for command in manager.handle_disconnect() {
        match command {
            Command::KeyRelease(key) => {
                assert!(keys.contains(&key));
                keys.retain(|k| *k != key);
            }
            Command::ButtonRelease(button) => {
                assert!(mouse.contains(&button));
                mouse.retain(|b| *b != button);
            }
            other => panic!("the sweep only releases, but gave {:?}", other),
        }
    }
    assert!(keys.is_empty());
    assert!(mouse.is_empty());
}

#[test]
fn loss_of_the_controller_is_acted_on_at_once() {
    let pads = vec![ControllerInfo {
        id: 1,
        name: String::from("pad"),
        os_name: String::from("pad"),
        map_name: None,
    }];
    let mut gamepad = load_gamepad_manager(300, DEADZONE, &pads);
    let mut manager = manager_with(&[("a", "q"), ("r2", "altleftclick")], &[], &[]);
    for event in [
        GamepadEventKind::ButtonChanged(PadButton::South, 1),
        GamepadEventKind::ButtonChanged(PadButton::RightTrigger2, 900),
        GamepadEventKind::AxisChanged(PadAxis::LeftStickX, 900),
        GamepadEventKind::Other,
        GamepadEventKind::Connected,
    ] {
        let (reaction, sent) =
            manager.handle_gamepad_event(&mut gamepad, &GamepadEvent { id: 1, event });
        assert_eq!(reaction, Reaction::Nothing);
        assert!(sent.is_empty());
    }
    manager.process_input_buttons(&mut gamepad.controller_state);
    manager.process_input_analogs(
        gamepad.controller_state.get_left_analog_stick(),
        gamepad.controller_state.get_right_analog_stick(),
    );
    manager.handle_character_actions();
    assert!(manager.is_holding_primary_for_chord());
    // The loss of another controller is none of the engine's business.
    let other = GamepadEvent { id: 2, event: GamepadEventKind::Disconnected };
    let (reaction, sent) = manager.handle_gamepad_event(&mut gamepad, &other);
    assert_eq!(reaction, Reaction::Nothing);
    assert!(sent.is_empty());
    assert!(manager.is_ability_held());
    let lost = GamepadEvent { id: 1, event: GamepadEventKind::Disconnected };
    let (reaction, sent) = manager.handle_gamepad_event(&mut gamepad, &lost);
    assert_eq!(reaction, Reaction::ControllerLost);
    assert_eq!(
        sent,
        vec![Command::ButtonRelease(MouseButton::Left), Command::KeyRelease(Key::KeyQ)]
    );
    assert!(!gamepad.is_controller_connected());
    assert!(!manager.is_ability_held());
    assert!(manager.held_ability_identities().is_empty());
    assert!(!manager.is_holding_primary_for_chord());
    assert!(!manager.is_walking());
    for i in 0..TRACKED_BUTTONS {
        assert!(!gamepad.controller_state.button(PadButton::at(i)).held);
    }
    let (reaction, sent) = manager.handle_gamepad_event(&mut gamepad, &lost);
    assert_eq!(reaction, Reaction::Nothing);
    assert!(sent.is_empty());
    let found = GamepadEvent { id: 1, event: GamepadEventKind::Connected };
    let (reaction, sent) = manager.handle_gamepad_event(&mut gamepad, &found);
    assert_eq!(reaction, Reaction::ConnectFirstController);
    assert!(sent.is_empty());
}
