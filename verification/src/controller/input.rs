//! The controller state store: what is known of every button and stick, and
//! which controller the engine listens to.

use vstd::prelude::*;
use crate::pad::{PadAxis, PadButton, TRACKED_BUTTONS};
use crate::text::{chars_of, lowercase_of, spells, to_lowercase};

verus! {

/// The state of one button. `held` says whether the button is down;
/// `just_pressed` and `just_unpressed` are edges, which stay set until
/// whoever acts on them clears them.
#[derive(Clone, Copy, Debug, PartialEq, Eq, Structural)]
pub struct ControllerButton {
    pub held: bool,
    pub just_pressed: bool,
    pub just_unpressed: bool,
}

impl ControllerButton {
    /// A button at rest.
    pub open spec fn released() -> ControllerButton {
        ControllerButton { held: false, just_pressed: false, just_unpressed: false }
    }

    /// The state after a sample of the button's activation level: the button
    /// counts as down while the level is above `threshold`, and an edge is
    /// raised when that differs from `held` before.
    pub open spec fn after_sample(self, level: int, threshold: int) -> ControllerButton {
        ControllerButton {
            held: level > threshold,
            just_pressed: level > threshold && !self.held,
            just_unpressed: level <= threshold && self.held,
        }
    }

    /// The state once the pending edge has been acted on: the press edge if
    /// one is raised, else the release edge.
    pub open spec fn consumed(self) -> ControllerButton {
        if self.just_pressed {
            ControllerButton { just_pressed: false, ..self }
        } else if self.just_unpressed {
            ControllerButton { just_unpressed: false, ..self }
        } else {
            self
        }
    }

    /// A button at rest.
    pub fn new() -> (r: ControllerButton)
        ensures
            r == ControllerButton::released(),
    {
        ControllerButton { held: false, just_pressed: false, just_unpressed: false }
    }

    /// Takes a sample of a digital button: any level above zero is down.
    pub fn changed_button_event(&mut self, level: i32)
        ensures
            *final(self) == old(self).after_sample(level as int, 0),
    {
        self.sample(level, 0);
    }

    /// Takes a sample against a threshold.
    pub fn sample(&mut self, level: i32, threshold: i32)
        ensures
            *final(self) == old(self).after_sample(level as int, threshold as int),
    {
        let down = level > threshold;
        self.just_pressed = down && !self.held;
        self.just_unpressed = !down && self.held;
        self.held = down;
    }
}

/// A sample raises an edge exactly when it changes whether the button is
/// down: a press edge when the button goes down, a release edge when it
/// goes up, and never both.
pub proof fn law_sample_raises_edge_on_change(button: ControllerButton, level: int, threshold: int)
    ensures
        ({
            let after = button.after_sample(level, threshold);
            &&& after.held == (level > threshold)
            &&& after.just_pressed == (after.held && !button.held)
            &&& after.just_unpressed == (!after.held && button.held)
            &&& !(after.just_pressed && after.just_unpressed)
            &&& after.consumed() == (ControllerButton {
                held: after.held,
                just_pressed: false,
                just_unpressed: false,
            })
        }),
{
}

impl Default for ControllerButton {
    fn default() -> (r: ControllerButton)
        ensures
            r == ControllerButton::released(),
    {
        ControllerButton::new()
    }
}

/// Whether a sample of one axis lies inside the deadzone, bounds included.
pub open spec fn axis_at_rest(level: int, deadzone: int) -> bool {
    !(level > deadzone) && !(level < -deadzone)
}

/// A sample lies inside the deadzone exactly if it lies between the
/// negative of the deadzone and the deadzone, both included. In particular a
/// sample equal to the deadzone is no input yet.
pub proof fn law_deadzone_includes_its_bounds(level: int, deadzone: int)
    ensures
        axis_at_rest(level, deadzone) <==> -deadzone <= level <= deadzone,
        deadzone >= 0 ==> axis_at_rest(deadzone, deadzone) && axis_at_rest(-deadzone, deadzone)
            && axis_at_rest(0, deadzone),
{
}

/// The latest sample of each axis of a stick, and the deadzone within which
/// a sample counts as no input.
#[derive(Clone, Copy, Debug, PartialEq, Eq, Structural)]
pub struct AnalogStick {
    pub stick_x: i32,
    pub stick_y: i32,
    pub deadzone: i32,
}

impl AnalogStick {
    /// Whether both axes lie inside the deadzone.
    pub open spec fn in_deadzone(self) -> bool {
        axis_at_rest(self.stick_x as int, self.deadzone as int) && axis_at_rest(
            self.stick_y as int,
            self.deadzone as int,
        )
    }

    /// The stick with both axes at zero, its deadzone kept.
    pub open spec fn centered(self) -> AnalogStick {
        AnalogStick { stick_x: 0, stick_y: 0, deadzone: self.deadzone }
    }

    /// A centered stick without a deadzone.
    pub fn new() -> (r: AnalogStick)
        ensures
            r == (AnalogStick { stick_x: 0, stick_y: 0, deadzone: 0 }),
    {
        AnalogStick { stick_x: 0, stick_y: 0, deadzone: 0 }
    }

    /// Takes a sample of one axis.
    pub fn changed_axis_event(&mut self, level: i32, is_stick_x: bool)
        ensures
            is_stick_x ==> *final(self) == (AnalogStick { stick_x: level, ..*old(self) }),
            !is_stick_x ==> *final(self) == (AnalogStick { stick_y: level, ..*old(self) }),
    {
        if is_stick_x {
            self.stick_x = level;
        } else {
            self.stick_y = level;
        }
    }

    /// Sets the deadzone.
    pub fn set_joystick_deadzone(&mut self, value: i32)
        ensures
            *final(self) == (AnalogStick { deadzone: value, ..*old(self) }),
    {
        self.deadzone = value;
    }

    /// Tells whether the stick gives no input: whether both axes lie inside
    /// the deadzone, bounds included.
    pub fn joystick_in_deadzone(&self) -> (r: bool)
        ensures
            r == self.in_deadzone(),
    {
        let low: i64 = -(self.deadzone as i64);
        let high: i64 = self.deadzone as i64;
        let x: i64 = self.stick_x as i64;
        let y: i64 = self.stick_y as i64;
        !(x > high) && !(x < low) && !(y > high) && !(y < low)
    }
}

impl Default for AnalogStick {
    fn default() -> (r: AnalogStick)
        ensures
            r == (AnalogStick { stick_x: 0, stick_y: 0, deadzone: 0 }),
    {
        AnalogStick::new()
    }
}

/// Everything the engine knows of the controller: one state per tracked
/// button, in the order of the engine's tables, and the two sticks. The two
/// triggers are analog: each is read as a button that is down while it is
/// pulled beyond its threshold.
#[derive(Clone, Copy, Debug, PartialEq, Eq)]
pub struct ControllerState {
    pub buttons: [ControllerButton; TRACKED_BUTTONS],
    pub trigger_left_threshold: i32,
    pub trigger_right_threshold: i32,
    pub left_analog: AnalogStick,
    pub right_analog: AnalogStick,
}

/// The mathematical content of a [`ControllerState`].
pub ghost struct ControllerModel {
    /// One state per tracked button, in the order of the engine's tables.
    pub buttons: Seq<ControllerButton>,
    pub trigger_left_threshold: i32,
    pub trigger_right_threshold: i32,
    pub left_analog: AnalogStick,
    pub right_analog: AnalogStick,
}

impl ControllerModel {
    /// The state of a button; that of a button at rest for an untracked one.
    pub open spec fn button_of(self, which: PadButton) -> ControllerButton {
        if which.is_tracked() {
            self.buttons[which.spec_index() as int]
        } else {
            ControllerButton::released()
        }
    }

    /// The level above which a button counts as down: the configured
    /// threshold for the two triggers, zero for every other button.
    pub open spec fn threshold_of(self, which: PadButton) -> int {
        match which {
            PadButton::LeftTrigger2 => self.trigger_left_threshold as int,
            PadButton::RightTrigger2 => self.trigger_right_threshold as int,
            _ => 0,
        }
    }

    /// Whether every button is at rest and both sticks are centered.
    pub open spec fn is_idle(self) -> bool {
        &&& forall|i: int|
            0 <= i < self.buttons.len() ==> self.buttons[i] == ControllerButton::released()
        &&& self.left_analog == self.left_analog.centered()
        &&& self.right_analog == self.right_analog.centered()
    }

    /// The same thresholds and deadzones with every button at rest and both
    /// sticks centered.
    pub open spec fn idle(self) -> ControllerModel {
        ControllerModel {
            buttons: Seq::new(self.buttons.len(), |i: int| ControllerButton::released()),
            left_analog: self.left_analog.centered(),
            right_analog: self.right_analog.centered(),
            ..self
        }
    }

    /// The state with one button's state replaced. Replacing the state of an
    /// untracked button changes nothing.
    pub open spec fn with_button(
        self,
        which: PadButton,
        value: ControllerButton,
    ) -> ControllerModel {
        if which.is_tracked() {
            ControllerModel {
                buttons: self.buttons.update(which.spec_index() as int, value),
                ..self
            }
        } else {
            self
        }
    }

    /// The state after a sample of one button's activation level, read
    /// against that button's threshold. A sample of an untracked button
    /// changes nothing.
    pub open spec fn after_button_sample(self, which: PadButton, level: i32) -> ControllerModel {
        self.with_button(
            which,
            self.button_of(which).after_sample(level as int, self.threshold_of(which)),
        )
    }

    /// The state after a sample of one axis. A sample of an untracked axis
    /// changes nothing.
    pub open spec fn after_axis_sample(self, axis: PadAxis, level: i32) -> ControllerModel {
        match axis {
            PadAxis::LeftStickX => ControllerModel {
                left_analog: AnalogStick { stick_x: level, ..self.left_analog },
                ..self
            },
            PadAxis::LeftStickY => ControllerModel {
                left_analog: AnalogStick { stick_y: level, ..self.left_analog },
                ..self
            },
            PadAxis::RightStickX => ControllerModel {
                right_analog: AnalogStick { stick_x: level, ..self.right_analog },
                ..self
            },
            PadAxis::RightStickY => ControllerModel {
                right_analog: AnalogStick { stick_y: level, ..self.right_analog },
                ..self
            },
            PadAxis::Unknown => self,
        }
    }
}

impl View for ControllerState {
    type V = ControllerModel;

    open spec fn view(&self) -> ControllerModel {
        ControllerModel {
            buttons: self.buttons@,
            trigger_left_threshold: self.trigger_left_threshold,
            trigger_right_threshold: self.trigger_right_threshold,
            left_analog: self.left_analog,
            right_analog: self.right_analog,
        }
    }
}

impl ControllerState {
    /// A controller with nothing pressed, both sticks centered, and
    /// thresholds and deadzones of zero.
    pub fn new() -> (r: ControllerState)
        ensures
            r@.is_idle(),
            r@.buttons.len() == TRACKED_BUTTONS,
            r.trigger_left_threshold == 0,
            r.trigger_right_threshold == 0,
            r.left_analog.deadzone == 0,
            r.right_analog.deadzone == 0,
    {
        let rest = ControllerButton::new();
        ControllerState {
            buttons: [
                rest,
                rest,
                rest,
                rest,
                rest,
                rest,
                rest,
                rest,
                rest,
                rest,
                rest,
                rest,
                rest,
                rest,
                rest,
                rest,
            ],
            trigger_left_threshold: 0,
            trigger_right_threshold: 0,
            left_analog: AnalogStick::new(),
            right_analog: AnalogStick::new(),
        }
    }

    /// The state of a button; that of a button at rest for an untracked one.
    pub fn button(&self, which: PadButton) -> (r: ControllerButton)
        ensures
            r == self@.button_of(which),
    {
        let i = which.index();
        if i < TRACKED_BUTTONS {
            self.buttons[i]
        } else {
            ControllerButton::new()
        }
    }

    /// Replaces the state of one button, as whoever acts on its edges does
    /// to clear them.
    pub fn set_button(&mut self, which: PadButton, value: ControllerButton)
        ensures
            final(self)@ == old(self)@.with_button(which, value),
    {
        let i = which.index();
        if i < TRACKED_BUTTONS {
            self.buttons[i] = value;
        }
    }

    /// The states of all tracked buttons, each with its button, in the order
    /// of the engine's tables.
    pub fn get_all_buttons(&self) -> (r: Vec<(PadButton, ControllerButton)>)
        ensures
            r@.len() == TRACKED_BUTTONS,
            forall|i: int|
                0 <= i < TRACKED_BUTTONS ==> #[trigger] r@[i] == (
                    PadButton::spec_at(i as nat),
                    self@.buttons[i],
                ),
    {
        let mut all: Vec<(PadButton, ControllerButton)> = Vec::new();
        let mut i: usize = 0;
        while i < TRACKED_BUTTONS
            invariant
                i <= TRACKED_BUTTONS,
                all@.len() == i,
                forall|j: int|
                    0 <= j < i ==> #[trigger] all@[j] == (
                        PadButton::spec_at(j as nat),
                        self@.buttons[j],
                    ),
            decreases TRACKED_BUTTONS - i,
        {
            let which = PadButton::at(i);
            all.push((which, self.button(which)));
            i += 1;
        }
        all
    }

    /// The level above which a button counts as down.
    pub fn threshold(&self, which: PadButton) -> (r: i32)
        ensures
            r == self@.threshold_of(which),
    {
        match which {
            PadButton::LeftTrigger2 => self.trigger_left_threshold,
            PadButton::RightTrigger2 => self.trigger_right_threshold,
            _ => 0,
        }
    }

    /// Takes a sample of one button's activation level. The two triggers are
    /// read against their threshold, every other button against zero.
    pub fn changed_button_event(&mut self, which: PadButton, level: i32)
        ensures
            final(self)@ == old(self)@.after_button_sample(which, level),
    {
        let threshold = self.threshold(which);
        let mut state = self.button(which);
        state.sample(level, threshold);
        self.set_button(which, state);
    }

    /// Takes a sample of one axis.
    pub fn changed_axis_event(&mut self, axis: PadAxis, level: i32)
        ensures
            final(self)@ == old(self)@.after_axis_sample(axis, level),
    {
        match axis {
            PadAxis::LeftStickX => self.left_analog.changed_axis_event(level, true),
            PadAxis::LeftStickY => self.left_analog.changed_axis_event(level, false),
            PadAxis::RightStickX => self.right_analog.changed_axis_event(level, true),
            PadAxis::RightStickY => self.right_analog.changed_axis_event(level, false),
            PadAxis::Unknown => {},
        }
    }

    /// The left stick.
    pub fn get_left_analog_stick(&self) -> (r: AnalogStick)
        ensures
            r == self.left_analog,
    {
        self.left_analog
    }

    /// The right stick.
    pub fn get_right_analog_stick(&self) -> (r: AnalogStick)
        ensures
            r == self.right_analog,
    {
        self.right_analog
    }

    /// Forgets everything pressed or pulled, so that nothing stale is acted
    /// on later. The trigger thresholds and the deadzones stay.
    pub fn reset(&mut self)
        ensures
            final(self)@ == old(self)@.idle(),
            final(self)@.is_idle(),
    {
        let fresh = ControllerState::new();
        self.buttons = fresh.buttons;
        self.left_analog.stick_x = 0;
        self.left_analog.stick_y = 0;
        self.right_analog.stick_x = 0;
        self.right_analog.stick_y = 0;
        assert(self@.buttons =~= old(self)@.idle().buttons);
    }
}

impl Default for ControllerState {
    fn default() -> (r: ControllerState)
        ensures
            r@.is_idle(),
            r@.buttons.len() == TRACKED_BUTTONS,
            r.trigger_left_threshold == 0,
            r.trigger_right_threshold == 0,
            r.left_analog.deadzone == 0,
            r.right_analog.deadzone == 0,
    {
        ControllerState::new()
    }
}

/// The family of a controller, which decides the glyphs shown for its
/// buttons.
#[derive(Clone, Copy, Debug, PartialEq, Eq, Structural)]
pub enum ControllerType {
    Playstation,
    Xbox,
}

/// How the family of the controller is found.
#[derive(Clone, Copy, Debug, PartialEq, Eq, Structural)]
pub enum ControllerTypeDetection {
    /// Inferred from the names under which the controller reports itself.
    Auto,
    /// As configured, whatever the controller reports.
    Forced(ControllerType),
}

/// Whether a lowercase name is one under which a PlayStation controller
/// reports itself.
pub open spec fn is_playstation_name(s: Seq<char>) -> bool {
    s == "ps5 controller"@ || s == "ps4 controller"@ || s == "ps3 controller"@ || s
        == "ps2 controller"@ || s == "ps1 controller"@ || s == "playstation"@ || s == "sony"@
}

/// The family inferred from the lowercase mapping name and label of a
/// controller: PlayStation if either is a PlayStation name, Xbox otherwise.
pub open spec fn inferred_type(map_name: Seq<char>, label: Seq<char>) -> ControllerType {
    if is_playstation_name(map_name) || is_playstation_name(label) {
        ControllerType::Playstation
    } else {
        ControllerType::Xbox
    }
}

/// Tells whether a lowercase name is one under which a PlayStation
/// controller reports itself.
pub fn is_lowercase_playstation_name(lower: &str) -> (r: bool)
    ensures
        r == is_playstation_name(lower@),
{
    let chars = chars_of(lower);
    let n = chars.len();
    assert(chars@.subrange(0, n as int) =~= chars@);
    spells(&chars, n, "ps5 controller") || spells(&chars, n, "ps4 controller") || spells(
        &chars,
        n,
        "ps3 controller",
    ) || spells(&chars, n, "ps2 controller") || spells(&chars, n, "ps1 controller") || spells(
        &chars,
        n,
        "playstation",
    ) || spells(&chars, n, "sony")
}

/// Infers the family of a controller from its lowercase mapping name and
/// its lowercase label.
pub fn type_of_lowercase_names(map_name: &str, label: &str) -> (r: ControllerType)
    ensures
        r == inferred_type(map_name@, label@),
{
    if is_lowercase_playstation_name(map_name) || is_lowercase_playstation_name(label) {
        ControllerType::Playstation
    } else {
        ControllerType::Xbox
    }
}

/// Infers the family of a controller from its mapping name and its label,
/// whatever their case.
pub fn infer_controller_type(map_name: &str, label: &str) -> (r: ControllerType)
    ensures
        r == inferred_type(lowercase_of(map_name@), lowercase_of(label@)),
{
    let map_name = to_lowercase(map_name);
    let label = to_lowercase(label);
    type_of_lowercase_names(map_name.as_str(), label.as_str())
}

/// What the host knows of a connected controller.
#[derive(Debug)]
pub struct ControllerInfo {
    /// The number under which the host knows the controller.
    pub id: usize,
    /// The name of the controller.
    pub name: String,
    /// The label under which the operating system knows the controller.
    pub os_name: String,
    /// The name of the mapping in use for the controller, if it has one.
    pub map_name: Option<String>,
}

impl ControllerInfo {
    /// The name of the mapping, or `none` where there is no mapping.
    pub open spec fn map_name_or_none(self) -> Seq<char> {
        match self.map_name {
            Some(name) => name@,
            None => "none"@,
        }
    }
}

/// What a gamepad event reports.
#[derive(Clone, Copy, Debug, PartialEq, Eq, Structural)]
pub enum GamepadEventKind {
    Connected,
    Disconnected,
    /// The activation level of a button has changed.
    ButtonChanged(PadButton, i32),
    /// The level of an axis has changed.
    AxisChanged(PadAxis, i32),
    /// Anything else.
    Other,
}

/// An event of one controller.
#[derive(Clone, Copy, Debug, PartialEq, Eq, Structural)]
pub struct GamepadEvent {
    /// The number of the controller that the event comes from.
    pub id: usize,
    pub event: GamepadEventKind,
}

/// What the host is to do after it has handed over an event.
#[derive(Clone, Copy, Debug, PartialEq, Eq, Structural)]
pub enum Reaction {
    Nothing,
    /// List the connected controllers and connect to the first of them.
    ConnectFirstController,
    /// The controller is lost: let go of everything that is held.
    ControllerLost,
}

/// The mathematical content of a [`GamepadManager`].
pub ghost struct GamepadModel {
    /// The number of the controller that the engine listens to, if any.
    pub gamepad_id: Option<usize>,
    /// The family inferred for the controller last connected to, if any.
    pub controller_type: Option<ControllerType>,
    /// The label of the controller last connected to.
    pub label: Seq<char>,
    /// The mapping name of the controller last connected to.
    pub map_name: Seq<char>,
    pub controller_type_detection: ControllerTypeDetection,
    pub controller_state: ControllerModel,
}

impl GamepadModel {
    /// The state at the start: the engine listens to no controller, nothing
    /// is pressed or pulled, both triggers have the given threshold and both
    /// sticks the given deadzone, and the family of the controller is to be
    /// inferred.
    pub open spec fn fresh(gamepad_triggers_threshold: i32, analog_deadzone: i32) -> GamepadModel {
        GamepadModel {
            gamepad_id: None,
            controller_type: None,
            label: Seq::empty(),
            map_name: Seq::empty(),
            controller_type_detection: ControllerTypeDetection::Auto,
            controller_state: ControllerModel {
                buttons: Seq::new(TRACKED_BUTTONS as nat, |i: int| ControllerButton::released()),
                trigger_left_threshold: gamepad_triggers_threshold,
                trigger_right_threshold: gamepad_triggers_threshold,
                left_analog: AnalogStick { stick_x: 0, stick_y: 0, deadzone: analog_deadzone },
                right_analog: AnalogStick { stick_x: 0, stick_y: 0, deadzone: analog_deadzone },
            },
        }
    }

    /// Whether the engine listens to a controller.
    pub open spec fn connected(self) -> bool {
        self.gamepad_id is Some
    }

    /// The state after the controller is lost: the engine listens to none,
    /// and nothing counts as pressed or pulled any more.
    pub open spec fn disconnected(self) -> GamepadModel {
        if self.connected() {
            GamepadModel {
                gamepad_id: None,
                controller_state: self.controller_state.idle(),
                ..self
            }
        } else {
            self
        }
    }

    /// The state after connecting to a controller.
    pub open spec fn connected_to(self, info: ControllerInfo) -> GamepadModel {
        GamepadModel {
            gamepad_id: Some(info.id),
            controller_type: Some(
                inferred_type(lowercase_of(info.map_name_or_none()), lowercase_of(info.os_name@)),
            ),
            label: info.os_name@,
            map_name: info.map_name_or_none(),
            ..self
        }
    }

    /// The state after an event. While the engine listens to a controller,
    /// only that controller's events count: its samples are taken and its
    /// loss is acted on. While it listens to none, nothing changes.
    pub open spec fn after_event(self, event: GamepadEvent) -> GamepadModel {
        if self.gamepad_id == Some(event.id) {
            match event.event {
                GamepadEventKind::Disconnected => self.disconnected(),
                GamepadEventKind::ButtonChanged(button, level) => GamepadModel {
                    controller_state: self.controller_state.after_button_sample(button, level),
                    ..self
                },
                GamepadEventKind::AxisChanged(axis, level) => GamepadModel {
                    controller_state: self.controller_state.after_axis_sample(axis, level),
                    ..self
                },
                _ => self,
            }
        } else {
            self
        }
    }

    /// What the host is to do after an event: connect, if a controller has
    /// appeared while the engine listens to none; let go of everything, if
    /// the controller that the engine listens to is lost.
    pub open spec fn reaction_to(self, event: GamepadEvent) -> Reaction {
        if !self.connected() && event.event == GamepadEventKind::Connected {
            Reaction::ConnectFirstController
        } else if self.loses_controller(event) {
            Reaction::ControllerLost
        } else {
            Reaction::Nothing
        }
    }

    /// Whether an event reports the loss of the controller that the engine
    /// listens to.
    pub open spec fn loses_controller(self, event: GamepadEvent) -> bool {
        self.gamepad_id == Some(event.id) && event.event == GamepadEventKind::Disconnected
    }

    /// The family of the controller: as configured where it is forced, as
    /// inferred otherwise.
    pub open spec fn determined_type(self) -> Option<ControllerType> {
        match self.controller_type_detection {
            ControllerTypeDetection::Forced(controller_type) => Some(controller_type),
            ControllerTypeDetection::Auto => self.controller_type,
        }
    }
}

/// Keeps the controller state and knows which controller the engine
/// listens to.
#[derive(Debug)]
pub struct GamepadManager {
    /// The number of the controller that the engine listens to, if any.
    pub gamepad_id: Option<usize>,
    /// The family inferred for the controller last connected to, if any.
    pub controller_type: Option<ControllerType>,
    /// The label of the controller last connected to.
    pub controller_label: String,
    /// The mapping name of the controller last connected to.
    pub controller_map_name: String,
    pub controller_type_detection: ControllerTypeDetection,
    pub controller_state: ControllerState,
}

impl View for GamepadManager {
    type V = GamepadModel;

    open spec fn view(&self) -> GamepadModel {
        GamepadModel {
            gamepad_id: self.gamepad_id,
            controller_type: self.controller_type,
            label: self.controller_label@,
            map_name: self.controller_map_name@,
            controller_type_detection: self.controller_type_detection,
            controller_state: self.controller_state@,
        }
    }
}

/// Sets up the gamepad manager: nothing pressed, the trigger threshold and
/// the deadzone as given, and connected to the first of the controllers
/// that are there already, if any.
pub fn load_gamepad_manager(
    gamepad_triggers_threshold: i32,
    analog_deadzone: i32,
    connected_controllers: &Vec<ControllerInfo>,
) -> (r: GamepadManager)
    ensures
        r@ == (if connected_controllers@.len() == 0 {
            GamepadModel::fresh(gamepad_triggers_threshold, analog_deadzone)
        } else {
            GamepadModel::fresh(gamepad_triggers_threshold, analog_deadzone).connected_to(
                connected_controllers@[0],
            )
        }),
{
    let mut gamepad_manager = GamepadManager {
        gamepad_id: None,
        controller_type: None,
        controller_label: String::new(),
        controller_map_name: String::new(),
        controller_type_detection: ControllerTypeDetection::Auto,
        controller_state: ControllerState::new(),
    };
    if connected_controllers.len() > 0 {
        gamepad_manager.connect_to_controller(connected_controllers, 0);
    }
    gamepad_manager.controller_state.trigger_left_threshold = gamepad_triggers_threshold;
    gamepad_manager.controller_state.trigger_right_threshold = gamepad_triggers_threshold;
    gamepad_manager.controller_state.left_analog.set_joystick_deadzone(analog_deadzone);
    gamepad_manager.controller_state.right_analog.set_joystick_deadzone(analog_deadzone);
    assert(gamepad_manager@.controller_state.buttons =~= GamepadModel::fresh(
        gamepad_triggers_threshold,
        analog_deadzone,
    ).controller_state.buttons);
    gamepad_manager
}

impl GamepadManager {
    /// Takes one gamepad event and says what the host is to do about it.
    pub fn process_gamepad_event(&mut self, event: &GamepadEvent) -> (r: Reaction)
        ensures
            final(self)@ == old(self)@.after_event(*event),
            r == old(self)@.reaction_to(*event),
    {
        match self.gamepad_id {
            Some(gamepad_id) => {
                if event.id == gamepad_id {
                    match event.event {
                        GamepadEventKind::Disconnected => {
                            self.disconnect_connected_controller();
                            Reaction::ControllerLost
                        },
                        GamepadEventKind::ButtonChanged(button, value) => {
                            self.controller_state.changed_button_event(button, value);
                            Reaction::Nothing
                        },
                        GamepadEventKind::AxisChanged(axis, value) => {
                            self.controller_state.changed_axis_event(axis, value);
                            Reaction::Nothing
                        },
                        _ => Reaction::Nothing,
                    }
                } else {
                    Reaction::Nothing
                }
            },
            None => {
                match event.event {
                    GamepadEventKind::Connected => Reaction::ConnectFirstController,
                    _ => Reaction::Nothing,
                }
            },
        }
    }

    /// The number of the controller that the engine listens to, if any.
    pub fn gamepad_id(&self) -> (r: Option<usize>)
        ensures
            r == self@.gamepad_id,
    {
        self.gamepad_id
    }

    /// The state of the controller.
    pub fn controller_state(&self) -> (r: &ControllerState)
        ensures
            r@ == self@.controller_state,
    {
        &self.controller_state
    }

    /// Tells whether the engine listens to a controller.
    pub fn is_controller_connected(&self) -> (r: bool)
        ensures
            r == self@.connected(),
    {
        match self.gamepad_id {
            Some(_c) => true,
            None => false,
        }
    }

    /// Connects to one of the connected controllers and infers its family.
    pub fn connect_to_controller(
        &mut self,
        connected_controllers: &Vec<ControllerInfo>,
        index: usize,
    )
        requires
            index < connected_controllers@.len(),
        ensures
            final(self)@ == old(self)@.connected_to(connected_controllers@[index as int]),
    {
        let info = &connected_controllers[index];
        self.gamepad_id = Some(info.id);
        self.controller_label = info.os_name.clone();
        self.controller_map_name = match &info.map_name {
            Some(mapper) => mapper.clone(),
            None => "none".to_owned(),
        };
        self.controller_type = Some(self.infer_controller_type());
    }

    /// The label of the controller, or `none` where the engine listens to
    /// no controller.
    pub fn get_connected_controller_label(&self) -> (r: String)
        ensures
            r@ == (if self@.connected() {
                self@.label
            } else {
                "none"@
            }),
    {
        if self.is_controller_connected() {
            self.controller_label.clone()
        } else {
            "none".to_owned()
        }
    }

    /// The mapping name of the controller, or `none` where it has none or
    /// where the engine listens to no controller.
    pub fn get_connected_controller_map_name(&self) -> (r: String)
        ensures
            r@ == (if self@.connected() {
                self@.map_name
            } else {
                "none"@
            }),
    {
        if self.is_controller_connected() {
            self.controller_map_name.clone()
        } else {
            "none".to_owned()
        }
    }

    /// Stops listening to the controller, if the engine listens to one, and
    /// forgets everything pressed or pulled.
    pub fn disconnect_connected_controller(&mut self)
        ensures
            final(self)@ == old(self)@.disconnected(),
    {
        if self.is_controller_connected() {
            self.gamepad_id = None;
            self.controller_state.reset();
        }
    }

    /// Infers the family of the controller from the names it goes by.
    fn infer_controller_type(&self) -> (r: ControllerType)
        ensures
            r == inferred_type(
                lowercase_of(
                    if self@.connected() {
                        self@.map_name
                    } else {
                        "none"@
                    },
                ),
                lowercase_of(
                    if self@.connected() {
                        self@.label
                    } else {
                        "none"@
                    },
                ),
            ),
    {
        let map_name = self.get_connected_controller_map_name();
        let label = self.get_connected_controller_label();
        infer_controller_type(map_name.as_str(), label.as_str())
    }

    /// The family of the controller: as configured where it is forced, as
    /// inferred otherwise.
    pub fn determine_controller_type(&self) -> (r: ControllerType)
        requires
            self@.determined_type() is Some,
        ensures
            Some(r) == self@.determined_type(),
    {
        match self.controller_type_detection {
            ControllerTypeDetection::Forced(controller_type) => controller_type,
            ControllerTypeDetection::Auto => self.controller_type.unwrap(),
        }
    }

    /// The family inferred for the controller last connected to, if any.
    pub fn controller_type(&self) -> (r: Option<ControllerType>)
        ensures
            r == self@.controller_type,
    {
        self.controller_type
    }

    /// Sets how the family of the controller is found.
    pub fn set_controller_type_detection(
        &mut self,
        controller_type_detection: ControllerTypeDetection,
    )
        ensures
            final(self)@ == (GamepadModel {
                controller_type_detection,
                ..old(self)@
            }),
    {
        self.controller_type_detection = controller_type_detection;
    }
}

} // verus!
