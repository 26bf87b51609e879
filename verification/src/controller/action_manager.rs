//! The per-frame planner: turns the edges of the controller's buttons into
//! planned actions, decides where the cursor goes, and has the command
//! synthesis press and release what the bindings name.
//!
//! Where several rules could place the cursor, the order is: an aimable
//! action while aiming, an aimable action while only walking, an action with
//! a distance tier while walking, the walking circle. Among abilities held
//! at once, the one that reaches farthest decides the distance.

use vstd::prelude::*;
use crate::binding::ButtonOrKey;
use crate::controller::action_handler::{
    law_events_are_in_order,
    law_held_state_stays_distinct,
    law_sweep_lets_go_of_everything,
    ActionHandler,
    ActionType,
    HeldState,
    Pressed,
};
use crate::controller::command::{Command, CursorTarget, Heading};
use crate::controller::input::{
    AnalogStick,
    ControllerButton,
    ControllerModel,
    ControllerState,
    GamepadEvent,
    GamepadManager,
    GamepadModel,
    Reaction,
};
use crate::game_window_tracker::{GameWindowTracker, WindowChromeInsets, WindowPosition};
use crate::keys::MouseButton;
use crate::pad::{PadButton, TRACKED_BUTTONS};
use crate::settings::{ApplicationSettings, SettingsModel};

verus! {

/// A distance tier: how far from the character an ability is aimed.
#[derive(Clone, Copy, Debug, PartialEq, Eq, Structural)]
pub enum ActionDistance {
    Close,
    Mid,
    Far,
    /// No tier: the walking circle.
    Unset,
}

/// What the planner means to do about one edge of one button.
#[derive(Clone, Copy, Debug, PartialEq, Eq, Structural)]
pub struct PlannedAction {
    pub button: PadButton,
    /// Whether the button went down; it went up otherwise.
    pub just_pressed: bool,
    /// Whether the action follows the aiming stick.
    pub aimable: bool,
    pub distance: ActionDistance,
}

/// What the basic attack is bound to: pressed while walking, it makes the
/// character walk to where the cursor is.
pub open spec fn basic_attack() -> ButtonOrKey {
    ButtonOrKey::Button(MouseButton::Left)
}

/// The action planned for a button in a given state: a press for a press
/// edge, else a release for a release edge, else none.
pub open spec fn planned_for(
    settings: SettingsModel,
    button: PadButton,
    state: ControllerButton,
) -> Option<PlannedAction> {
    if state.just_pressed {
        Some(
            PlannedAction {
                button,
                just_pressed: true,
                aimable: settings.is_aimable(button),
                distance: settings.distance_of(button),
            },
        )
    } else if state.just_unpressed {
        Some(
            PlannedAction {
                button,
                just_pressed: false,
                aimable: false,
                distance: ActionDistance::Unset,
            },
        )
    } else {
        None
    }
}

/// The actions planned for the first `count` buttons of the engine's
/// tables, in that order.
pub open spec fn planned_from(
    settings: SettingsModel,
    buttons: Seq<ControllerButton>,
    count: nat,
) -> Seq<PlannedAction>
    decreases count,
{
    if count == 0 {
        Seq::empty()
    } else {
        let before = planned_from(settings, buttons, (count - 1) as nat);
        match planned_for(settings, PadButton::spec_at((count - 1) as nat), buttons[count - 1]) {
            Some(action) => before.push(action),
            None => before,
        }
    }
}

/// The states of all buttons once their pending edges have been acted on.
pub open spec fn all_consumed(buttons: Seq<ControllerButton>) -> Seq<ControllerButton> {
    Seq::new(buttons.len(), |i: int| buttons[i].consumed())
}

/// The ability buttons that the given binding targets belong to, in the
/// order of the targets; a target that belongs to none is passed over.
pub open spec fn ability_buttons(settings: SettingsModel, targets: Seq<ButtonOrKey>) -> Seq<
    PadButton,
>
    decreases targets.len(),
{
    if targets.len() == 0 {
        Seq::empty()
    } else {
        let before = ability_buttons(settings, targets.drop_last());
        match settings.ability_name_for(targets.last()) {
            Some(button) => before.push(button),
            None => before,
        }
    }
}

/// Whether one of the buttons follows the aiming stick.
pub open spec fn any_aimable(settings: SettingsModel, buttons: Seq<PadButton>) -> bool {
    exists|i: int| 0 <= i < buttons.len() && settings.is_aimable(#[trigger] buttons[i])
}

/// The tier that reaches farthest among those of the first `count` buttons:
/// of the tiers set for them, the first of the largest radius, whatever that
/// radius is; no tier where none of them has one.
pub open spec fn farthest_of(
    settings: SettingsModel,
    buttons: Seq<PadButton>,
    count: nat,
) -> ActionDistance
    decreases count,
{
    if count == 0 {
        ActionDistance::Unset
    } else {
        let best = farthest_of(settings, buttons, (count - 1) as nat);
        let distance = settings.distance_of(buttons[count - 1]);
        if distance != ActionDistance::Unset && (best == ActionDistance::Unset
            || settings.controller.radius_of(distance) > settings.controller.radius_of(best)) {
            distance
        } else {
            best
        }
    }
}

/// The tier that reaches farthest among those of the buttons; no tier, which
/// stands for the walking circle, where none of them has a tier.
pub open spec fn farthest(settings: SettingsModel, buttons: Seq<PadButton>) -> ActionDistance {
    farthest_of(settings, buttons, buttons.len())
}

/// The mathematical content of an [`ActionManager`].
pub ghost struct ManagerModel {
    pub held: HeldState,
    /// The actions planned and not yet carried out, oldest first.
    pub planned: Seq<PlannedAction>,
    pub tracker: GameWindowTracker,
    pub settings: SettingsModel,
    /// Whether the walking stick is out of its deadzone.
    pub holding_walk: bool,
    /// Whether the aiming stick is out of its deadzone.
    pub holding_aim: bool,
    /// Whether an ability was held at the end of the last frame.
    pub holding_ability: bool,
}

impl ManagerModel {
    /// Where a planned press places the cursor, if anywhere: an aimable
    /// action on its circle toward the aiming stick while walking and
    /// aiming, toward the walking stick while only walking; any other action
    /// with a distance tier on its circle toward the walking stick while
    /// walking.
    pub open spec fn press_target(self, action: PlannedAction) -> Option<CursorTarget> {
        if action.aimable {
            if self.holding_walk && self.holding_aim {
                Some(CursorTarget::Circle { distance: action.distance, toward: Heading::Aim })
            } else if self.holding_walk {
                Some(CursorTarget::Circle { distance: action.distance, toward: Heading::Walk })
            } else {
                None
            }
        } else if action.distance != ActionDistance::Unset && self.holding_walk {
            Some(CursorTarget::Circle { distance: action.distance, toward: Heading::Walk })
        } else {
            None
        }
    }

    /// Whether carrying out a planned action moves the cursor.
    pub open spec fn moves_cursor(self, action: PlannedAction) -> bool {
        &&& self.settings.resolve(action.button) != ButtonOrKey::Empty
        &&& action.just_pressed
        &&& self.press_target(action) is Some
    }

    /// The steps that carrying out a planned action takes, given what is
    /// held: none for a button bound to nothing; for a press the cursor
    /// move, if any, and then the press of the button's target; the release
    /// of the target otherwise.
    pub open spec fn planned_commands(self, held: HeldState, action: PlannedAction) -> Seq<
        Command,
    > {
        let target = self.settings.resolve(action.button);
        if target == ButtonOrKey::Empty {
            Seq::empty()
        } else if action.just_pressed {
            (match self.press_target(action) {
                Some(place) => seq![Command::MoveCursor(place)],
                None => Seq::empty(),
            }) + held.action_commands(ActionType::Press, target)
        } else {
            held.action_commands(ActionType::Release, target)
        }
    }

    /// What is held after a planned action has been carried out.
    pub open spec fn held_after_planned(self, held: HeldState, action: PlannedAction) -> HeldState {
        held.after_action(
            if action.just_pressed {
                ActionType::Press
            } else {
                ActionType::Release
            },
            self.settings.resolve(action.button),
        )
    }

    /// Carrying out the planned actions, the newest first: what is held
    /// afterwards, the steps taken, and whether the cursor was moved.
    pub open spec fn run_planned(self, held: HeldState, planned: Seq<PlannedAction>) -> (
        HeldState,
        Seq<Command>,
        bool,
    )
        decreases planned.len(),
    {
        if planned.len() == 0 {
            (held, Seq::empty(), false)
        } else {
            let action = planned.last();
            let rest = self.run_planned(
                self.held_after_planned(held, action),
                planned.drop_last(),
            );
            (
                rest.0,
                self.planned_commands(held, action) + rest.1,
                self.moves_cursor(action) || rest.2,
            )
        }
    }

    /// Where the cursor swivels to while an ability is held and the player
    /// walks: on the circle of the held ability that reaches farthest,
    /// toward the aiming stick if one of the held abilities is aimable and
    /// the player aims, toward the walking stick otherwise.
    pub open spec fn swivel_target(self, held: HeldState) -> Option<CursorTarget> {
        if held.ability_held() && self.holding_walk {
            let buttons = ability_buttons(self.settings, held.held_abilities());
            Some(
                CursorTarget::Circle {
                    distance: farthest(self.settings, buttons),
                    toward: if any_aimable(self.settings, buttons) && self.holding_aim {
                        Heading::Aim
                    } else {
                        Heading::Walk
                    },
                },
            )
        } else {
            None
        }
    }

    /// The cursor moves that follow the planned actions of a frame, given
    /// what is held after them and whether they moved the cursor: the
    /// swivel, if there is one; the free aim while aiming without walking;
    /// the walking circle while walking, if nothing else has moved the
    /// cursor in this frame.
    pub open spec fn cursor_commands(self, held: HeldState, moved: bool) -> Seq<Command> {
        (match self.swivel_target(held) {
            Some(place) => seq![Command::MoveCursor(place)],
            None => Seq::empty(),
        }) + (if self.holding_aim && !self.holding_walk {
            seq![Command::MoveCursor(CursorTarget::FreeAim)]
        } else {
            Seq::empty()
        }) + (if self.holding_walk && !moved && self.swivel_target(held) is None {
            seq![
                Command::MoveCursor(
                    CursorTarget::Circle { distance: ActionDistance::Unset, toward: Heading::Walk },
                ),
            ]
        } else {
            Seq::empty()
        })
    }

    /// The steps of the basic attack at the end of a frame: pressed while
    /// walking and released otherwise, but left alone while a chord is
    /// held.
    pub open spec fn walk_click_commands(self, held: HeldState) -> Seq<Command> {
        if held.holding_left_click_for_action() {
            Seq::empty()
        } else {
            held.action_commands(
                if self.holding_walk {
                    ActionType::Press
                } else {
                    ActionType::Release
                },
                basic_attack(),
            )
        }
    }

    /// What is held after the basic attack at the end of a frame.
    pub open spec fn held_after_walk_click(self, held: HeldState) -> HeldState {
        if held.holding_left_click_for_action() {
            held
        } else {
            held.after_action(
                if self.holding_walk {
                    ActionType::Press
                } else {
                    ActionType::Release
                },
                basic_attack(),
            )
        }
    }

    /// The steps of a frame, in order: the planned actions, the newest
    /// first; the cursor moves that follow them; the basic attack.
    pub open spec fn frame_commands(self) -> Seq<Command> {
        let ran = self.run_planned(self.held, self.planned);
        ran.1 + self.cursor_commands(ran.0, ran.2) + self.walk_click_commands(ran.0)
    }

    /// The planner after a frame: nothing is planned any more.
    pub open spec fn after_frame(self) -> ManagerModel {
        let ran = self.run_planned(self.held, self.planned);
        ManagerModel {
            held: self.held_after_walk_click(ran.0),
            planned: Seq::empty(),
            holding_ability: ran.0.ability_held(),
            ..self
        }
    }

    /// The steps that a reaction to a gamepad event takes of the planner:
    /// the sweep that lets go of everything held, where the controller is
    /// lost; none otherwise.
    pub open spec fn reaction_commands(self, reaction: Reaction) -> Seq<Command> {
        if reaction == Reaction::ControllerLost {
            self.held.release_all_commands()
        } else {
            Seq::empty()
        }
    }

    /// The planner after a reaction to a gamepad event: as after the loss
    /// of the controller, where the controller is lost; unchanged otherwise.
    pub open spec fn after_reaction(self, reaction: Reaction) -> ManagerModel {
        if reaction == Reaction::ControllerLost {
            self.after_disconnect()
        } else {
            self
        }
    }

    /// The planner after the controller is lost: nothing is held, nothing
    /// planned, and neither stick counts as pulled.
    pub open spec fn after_disconnect(self) -> ManagerModel {
        ManagerModel {
            held: HeldState::idle(),
            planned: Seq::empty(),
            holding_walk: false,
            holding_aim: false,
            holding_ability: false,
            ..self
        }
    }
}

/// What [`farthest_of`] gives: a tier exactly if one of the buttons looked
/// at has one; that tier is the tier of one of them; and no tier set for
/// one of them has a larger radius.
proof fn lemma_farthest_of(settings: SettingsModel, buttons: Seq<PadButton>, count: nat)
    requires
        count <= buttons.len(),
    ensures
        ({
            let best = farthest_of(settings, buttons, count);
            &&& best != ActionDistance::Unset ==> exists|j: int|
                0 <= j < count && settings.distance_of(#[trigger] buttons[j]) == best
            &&& forall|j: int|
                0 <= j < count && settings.distance_of(#[trigger] buttons[j])
                    != ActionDistance::Unset ==> best != ActionDistance::Unset
                    && settings.controller.radius_of(settings.distance_of(buttons[j]))
                    <= settings.controller.radius_of(best)
        }),
    decreases count,
{
    if count > 0 {
        lemma_farthest_of(settings, buttons, (count - 1) as nat);
        let before = farthest_of(settings, buttons, (count - 1) as nat);
        let best = farthest_of(settings, buttons, count);
        let distance = settings.distance_of(buttons[count - 1]);
        if best != ActionDistance::Unset {
            if best == distance && (before == ActionDistance::Unset
                || settings.controller.radius_of(distance) > settings.controller.radius_of(
                before,
            )) {
                assert(settings.distance_of(buttons[count - 1]) == best);
            } else {
                let j = choose|j: int|
                    0 <= j < count - 1 && settings.distance_of(#[trigger] buttons[j]) == before;
                assert(settings.distance_of(buttons[j]) == best);
            }
        }
    }
}

/// The farthest reach wins. Among abilities held at once, the distance
/// chosen is a tier of one of them, and no tier set for one of them has a
/// larger radius. No tier is chosen, which stands for the walking circle,
/// exactly where none of them has a tier.
pub proof fn law_farthest_reach_wins(settings: SettingsModel, buttons: Seq<PadButton>)
    ensures
        ({
            let chosen = farthest(settings, buttons);
            &&& chosen != ActionDistance::Unset ==> exists|j: int|
                0 <= j < buttons.len() && settings.distance_of(#[trigger] buttons[j]) == chosen
            &&& forall|j: int|
                0 <= j < buttons.len() && settings.distance_of(#[trigger] buttons[j])
                    != ActionDistance::Unset ==> chosen != ActionDistance::Unset
                    && settings.controller.radius_of(settings.distance_of(buttons[j]))
                    <= settings.controller.radius_of(chosen)
        }),
{
    lemma_farthest_of(settings, buttons, buttons.len());
}

/// Aiming goes before walking. A planned press of an aimable action places
/// the cursor toward the aiming stick exactly while the player walks and
/// aims, and toward the walking stick exactly while the player walks without
/// aiming; a press of any other action never places it toward the aiming
/// stick; and no press places the cursor while the player does not walk.
pub proof fn law_aim_goes_before_walk(model: ManagerModel, action: PlannedAction)
    ensures
        match model.press_target(action) {
            Some(CursorTarget::Circle { distance, toward }) => {
                &&& model.holding_walk
                &&& distance == action.distance
                &&& (toward == Heading::Aim) == (action.aimable && model.holding_aim)
                &&& action.aimable || action.distance != ActionDistance::Unset
            },
            Some(CursorTarget::FreeAim) => false,
            None => !model.holding_walk || (!action.aimable && action.distance
                == ActionDistance::Unset),
        },
{
}

/// The steps of one planned action are in order at the operating system.
proof fn lemma_planned_in_order(model: ManagerModel, held: HeldState, action: PlannedAction)
    ensures
        held.pressed().accepts_all(model.planned_commands(held, action)),
        held.pressed().after_all(model.planned_commands(held, action)) == model.held_after_planned(
            held,
            action,
        ).pressed(),
{
    let target = model.settings.resolve(action.button);
    let before = held.pressed();
    if target == ButtonOrKey::Empty {
        before.lemma_after_none();
    } else if action.just_pressed {
        law_events_are_in_order(held, ActionType::Press, target);
        let press = held.action_commands(ActionType::Press, target);
        match model.press_target(action) {
            Some(place) => {
                before.lemma_after_one(Command::MoveCursor(place));
                before.lemma_after_both(seq![Command::MoveCursor(place)], press);
            },
            None => {
                assert(Seq::<Command>::empty() + press =~= press);
            },
        }
    } else {
        law_events_are_in_order(held, ActionType::Release, target);
    }
}

/// The steps of the planned actions of a frame are in order at the
/// operating system.
proof fn lemma_run_planned_in_order(
    model: ManagerModel,
    held: HeldState,
    planned: Seq<PlannedAction>,
)
    ensures
        held.pressed().accepts_all(model.run_planned(held, planned).1),
        held.pressed().after_all(model.run_planned(held, planned).1) == model.run_planned(
            held,
            planned,
        ).0.pressed(),
    decreases planned.len(),
{
    if planned.len() == 0 {
        held.pressed().lemma_after_none();
    } else {
        let action = planned.last();
        let next = model.held_after_planned(held, action);
        lemma_planned_in_order(model, held, action);
        lemma_run_planned_in_order(model, next, planned.drop_last());
        held.pressed().lemma_after_both(
            model.planned_commands(held, action),
            model.run_planned(next, planned.drop_last()).1,
        );
    }
}

/// Cursor moves press and release nothing.
proof fn lemma_cursor_commands_in_order(
    model: ManagerModel,
    held: HeldState,
    moved: bool,
    pressed: Pressed,
)
    ensures
        pressed.accepts_all(model.cursor_commands(held, moved)),
        pressed.after_all(model.cursor_commands(held, moved)) == pressed,
{
    let swivel: Seq<Command> = match model.swivel_target(held) {
        Some(place) => seq![Command::MoveCursor(place)],
        None => Seq::empty(),
    };
    let free: Seq<Command> = if model.holding_aim && !model.holding_walk {
        seq![Command::MoveCursor(CursorTarget::FreeAim)]
    } else {
        Seq::empty()
    };
    let walk: Seq<Command> = if model.holding_walk && !moved && model.swivel_target(held) is None {
        seq![
            Command::MoveCursor(
                CursorTarget::Circle { distance: ActionDistance::Unset, toward: Heading::Walk },
            ),
        ]
    } else {
        Seq::empty()
    };
    pressed.lemma_after_none();
    if swivel.len() > 0 {
        pressed.lemma_after_one(swivel[0]);
        assert(swivel =~= seq![swivel[0]]);
    }
    if free.len() > 0 {
        pressed.lemma_after_one(free[0]);
        assert(free =~= seq![free[0]]);
    }
    if walk.len() > 0 {
        pressed.lemma_after_one(walk[0]);
        assert(walk =~= seq![walk[0]]);
    }
    pressed.lemma_after_both(swivel, free);
    pressed.lemma_after_both(swivel + free, walk);
    assert(model.cursor_commands(held, moved) == swivel + free + walk);
}

/// No event of a frame is sent twice. The steps of a frame are in order at
/// the operating system: every press in them is of a key or button that is
/// up at that point, and every release of one that is down, however many
/// buttons are bound to the same key; and after the frame the operating
/// system has down exactly what the engine counts as down.
pub proof fn law_frame_events_are_in_order(model: ManagerModel)
    ensures
        model.held.pressed().accepts_all(model.frame_commands()),
        model.held.pressed().after_all(model.frame_commands())
            == model.after_frame().held.pressed(),
{
    let ran = model.run_planned(model.held, model.planned);
    let before = model.held.pressed();
    lemma_run_planned_in_order(model, model.held, model.planned);
    lemma_cursor_commands_in_order(model, ran.0, ran.2, ran.0.pressed());
    if ran.0.holding_left_click_for_action() {
        ran.0.pressed().lemma_after_none();
    } else {
        law_events_are_in_order(
            ran.0,
            if model.holding_walk {
                ActionType::Press
            } else {
                ActionType::Release
            },
            basic_attack(),
        );
    }
    before.lemma_after_both(ran.1, model.cursor_commands(ran.0, ran.2));
    before.lemma_after_both(
        ran.1 + model.cursor_commands(ran.0, ran.2),
        model.walk_click_commands(ran.0),
    );
}

/// A frame never lists a key twice among the keys that are down, if none
/// was listed twice before.
pub proof fn law_frame_keeps_keys_distinct(model: ManagerModel)
    requires
        model.held.distinct(),
    ensures
        model.after_frame().held.distinct(),
{
    lemma_run_planned_distinct(model, model.held, model.planned);
    let ran = model.run_planned(model.held, model.planned);
    if !ran.0.holding_left_click_for_action() {
        law_held_state_stays_distinct(
            ran.0,
            if model.holding_walk {
                ActionType::Press
            } else {
                ActionType::Release
            },
            basic_attack(),
        );
    }
}

/// The planned actions of a frame never list a key twice among the keys
/// that are down.
proof fn lemma_run_planned_distinct(
    model: ManagerModel,
    held: HeldState,
    planned: Seq<PlannedAction>,
)
    requires
        held.distinct(),
    ensures
        model.run_planned(held, planned).0.distinct(),
    decreases planned.len(),
{
    if planned.len() > 0 {
        let action = planned.last();
        law_held_state_stays_distinct(
            held,
            if action.just_pressed {
                ActionType::Press
            } else {
                ActionType::Release
            },
            model.settings.resolve(action.button),
        );
        lemma_run_planned_distinct(
            model,
            model.held_after_planned(held, action),
            planned.drop_last(),
        );
    }
}

/// Nothing is synthesized after the loss of the controller. Once the
/// planner has acted on the loss, a frame sends nothing and changes nothing
/// until the sticks or the buttons are heard of again.
pub proof fn law_nothing_follows_disconnect(model: ManagerModel)
    ensures
        model.after_disconnect().frame_commands() == Seq::<Command>::empty(),
        model.after_disconnect().after_frame() == model.after_disconnect(),
{
    let lost = model.after_disconnect();
    let ran = lost.run_planned(lost.held, lost.planned);
    assert(ran.1 =~= Seq::<Command>::empty());
    assert(lost.cursor_commands(ran.0, ran.2) =~= Seq::<Command>::empty());
    assert(lost.walk_click_commands(ran.0) =~= Seq::<Command>::empty());
    assert(lost.frame_commands() =~= Seq::<Command>::empty());
    assert(!ran.0.ability_held());
}

/// An edge is acted on once. Once an action has been planned for every
/// pending edge, planning again for the same buttons plans nothing, as long
/// as no button had both edges pending.
pub proof fn law_edges_are_planned_once(
    settings: SettingsModel,
    buttons: Seq<ControllerButton>,
    count: nat,
)
    requires
        count <= buttons.len(),
        forall|i: int|
            0 <= i < buttons.len() ==> !((#[trigger] buttons[i]).just_pressed
                && buttons[i].just_unpressed),
    ensures
        planned_from(settings, all_consumed(buttons), count) == Seq::<PlannedAction>::empty(),
    decreases count,
{
    if count > 0 {
        law_edges_are_planned_once(settings, buttons, (count - 1) as nat);
        let state = buttons[count - 1];
        assert(!(state.just_pressed && state.just_unpressed));
        assert(all_consumed(buttons)[count - 1] == state.consumed());
    }
}

/// The loss of the controller clears all state. When the controller that
/// the engine listens to reports its loss, the engine listens to none and no
/// button counts as held, whatever was held before; the reaction is to let
/// go of everything; and once the planner has acted on it, no ability is
/// held and nothing is down. The sweep that gets there is in order at the
/// operating system and leaves nothing down there either.
pub proof fn law_disconnect_clears_state(
    gamepad: GamepadModel,
    manager: ManagerModel,
    event: GamepadEvent,
    which: PadButton,
)
    requires
        gamepad.controller_state.buttons.len() == TRACKED_BUTTONS,
        manager.held.distinct(),
        gamepad.loses_controller(event),
    ensures
        gamepad.reaction_to(event) == Reaction::ControllerLost,
        !gamepad.after_event(event).connected(),
        gamepad.after_event(event).controller_state.is_idle(),
        !gamepad.after_event(event).controller_state.button_of(which).held,
        manager.after_reaction(gamepad.reaction_to(event)).held == HeldState::idle(),
        manager.after_reaction(gamepad.reaction_to(event)).held.held_abilities() == Seq::<
            ButtonOrKey,
        >::empty(),
        !manager.after_reaction(gamepad.reaction_to(event)).held.ability_held(),
        manager.held.pressed().accepts_all(
            manager.reaction_commands(gamepad.reaction_to(event)),
        ),
        manager.held.pressed().after_all(manager.reaction_commands(gamepad.reaction_to(event)))
            == HeldState::idle().pressed(),
{
    let held = manager.after_disconnect().held;
    assert(held.keys =~= Seq::<crate::keys::Key>::empty());
    assert(held.held_abilities() =~= Seq::<ButtonOrKey>::empty());
    law_sweep_lets_go_of_everything(manager.held);
}

/// Plans actions, decides where the cursor goes, and keeps track of what is
/// held.
#[derive(Debug)]
pub struct ActionManager {
    action_handler: ActionHandler,
    planned_actions: Vec<PlannedAction>,
    game_window_tracker: GameWindowTracker,
    settings: ApplicationSettings,
    holding_walk: bool,
    holding_aim: bool,
    holding_ability: bool,
}

impl View for ActionManager {
    type V = ManagerModel;

    closed spec fn view(&self) -> ManagerModel {
        ManagerModel {
            held: self.action_handler@,
            planned: self.planned_actions@,
            tracker: self.game_window_tracker,
            settings: self.settings@,
            holding_walk: self.holding_walk,
            holding_aim: self.holding_aim,
            holding_ability: self.holding_ability,
        }
    }
}

impl ActionManager {
    /// A planner that holds nothing and has nothing planned.
    pub fn initialize(
        application_settings: ApplicationSettings,
        game_window_tracker: GameWindowTracker,
    ) -> (r: ActionManager)
        ensures
            r@ == (ManagerModel {
                held: HeldState::idle(),
                planned: Seq::empty(),
                tracker: game_window_tracker,
                settings: application_settings@,
                holding_walk: false,
                holding_aim: false,
                holding_ability: false,
            }),
            r@.settings.wf(),
            r@.held.distinct(),
    {
        proof {
            use_type_invariant(&application_settings);
        }
        ActionManager {
            action_handler: ActionHandler::new(),
            planned_actions: Vec::new(),
            game_window_tracker,
            settings: application_settings,
            holding_walk: false,
            holding_aim: false,
            holding_ability: false,
        }
    }

    /// Plans an action for every pending edge of a button, in the order of
    /// the engine's tables, and clears the edges acted on.
    pub fn process_input_buttons(&mut self, controller_state: &mut ControllerState)
        ensures
            final(self)@ == (ManagerModel {
                planned: old(self)@.planned + planned_from(
                    old(self)@.settings,
                    old(controller_state)@.buttons,
                    TRACKED_BUTTONS as nat,
                ),
                ..old(self)@
            }),
            final(controller_state)@ == (ControllerModel {
                buttons: all_consumed(old(controller_state)@.buttons),
                ..old(controller_state)@
            }),
    {
        broadcast use vstd::array::group_array_axioms;

        let ghost before = controller_state@.buttons;
        let ghost settings = self@.settings;
        let mut i: usize = 0;
        while i < TRACKED_BUTTONS
            invariant
                i <= TRACKED_BUTTONS,
                before.len() == TRACKED_BUTTONS,
                before == old(controller_state)@.buttons,
                settings == old(self)@.settings,
                self@ == (ManagerModel {
                    planned: old(self)@.planned + planned_from(settings, before, i as nat),
                    ..old(self)@
                }),
                controller_state@.buttons.len() == TRACKED_BUTTONS,
                forall|j: int| 0 <= j < i ==> controller_state@.buttons[j] == before[j].consumed(),
                forall|j: int|
                    i <= j < TRACKED_BUTTONS ==> controller_state@.buttons[j] == before[j],
                controller_state@ == (ControllerModel {
                    buttons: controller_state@.buttons,
                    ..old(controller_state)@
                }),
            decreases TRACKED_BUTTONS - i,
        {
            let button = PadButton::at(i);
            let state = controller_state.button(button);
            if state.just_pressed {
                let can_be_aimed = self.settings.is_aimable(button);
                let action_distance = self.settings.get_ability_action_distance(button);
                self.planned_actions.push(
                    PlannedAction {
                        button,
                        just_pressed: true,
                        aimable: can_be_aimed,
                        distance: action_distance,
                    },
                );
                controller_state.set_button(
                    button,
                    ControllerButton { just_pressed: false, ..state },
                );
            } else if state.just_unpressed {
                self.planned_actions.push(
                    PlannedAction {
                        button,
                        just_pressed: false,
                        aimable: false,
                        distance: ActionDistance::Unset,
                    },
                );
                controller_state.set_button(
                    button,
                    ControllerButton { just_unpressed: false, ..state },
                );
            }
            i += 1;
            assert(self@.planned =~= old(self)@.planned + planned_from(settings, before, i as nat));
        }
        assert(controller_state@.buttons =~= all_consumed(before));
    }

    /// Takes note of whether the player walks (the left stick is out of its
    /// deadzone) and aims (the right stick is).
    pub fn process_input_analogs(&mut self, left_stick: AnalogStick, right_stick: AnalogStick)
        ensures
            final(self)@ == (ManagerModel {
                holding_walk: !left_stick.in_deadzone(),
                holding_aim: !right_stick.in_deadzone(),
                ..old(self)@
            }),
    {
        self.holding_walk = !left_stick.joystick_in_deadzone();
        self.holding_aim = !right_stick.joystick_in_deadzone();
    }

    /// Takes a look at the focused window: its title and its position, each
    /// `None` where it could not be had.
    pub fn update_window_tracker(
        &mut self,
        active_title: Option<&str>,
        position: Option<WindowPosition>,
    )
        ensures
            final(self)@ == (ManagerModel {
                tracker: old(self)@.tracker.after_update(
                    active_title matches Some(title)
                        && crate::game_window_tracker::is_game_title(title@),
                    position,
                ),
                ..old(self)@
            }),
    {
        self.game_window_tracker.update_window_tracker(active_title, position);
    }

    /// Carries out a frame: the planned actions, the newest first, then the
    /// placing of the cursor, then the basic attack. Returns the steps for
    /// the host to carry out, in order.
    pub fn handle_character_actions(&mut self) -> (r: Vec<Command>)
        ensures
            r@ == old(self)@.frame_commands(),
            final(self)@ == old(self)@.after_frame(),
            final(self)@.held.distinct(),
    {
        let ghost model = self@;
        let mut out: Vec<Command> = Vec::new();
        let mut set_cursor = false;

        while self.planned_actions.len() > 0
            invariant
                self@ == (ManagerModel { held: self@.held, planned: self@.planned, ..model }),
                model.run_planned(model.held, model.planned).0 == model.run_planned(
                    self@.held,
                    self@.planned,
                ).0,
                model.run_planned(model.held, model.planned).1 == out@ + model.run_planned(
                    self@.held,
                    self@.planned,
                ).1,
                model.run_planned(model.held, model.planned).2 == (set_cursor || model.run_planned(
                    self@.held,
                    self@.planned,
                ).2),
            decreases self.planned_actions.len(),
        {
            let ghost held = self@.held;
            let ghost planned = self@.planned;
            let ghost done = out@;
            let planned_action = self.planned_actions.pop().unwrap();
            assert(planned_action == planned.last());
            assert(self@.planned == planned.drop_last());
            let target = self.settings.resolve(planned_action.button);
            if target != ButtonOrKey::Empty {
                if planned_action.just_pressed {
                    match self.get_press_target(&planned_action) {
                        Some(place) => {
                            out.push(Command::MoveCursor(place));
                            set_cursor = true;
                        },
                        None => {},
                    }
                    let mut steps = self.action_handler.handle_action(ActionType::Press, &target);
                    out.append(&mut steps);
                } else {
                    let mut steps = self.action_handler.handle_action(ActionType::Release, &target);
                    out.append(&mut steps);
                }
            }
            assert(self@.held == model.held_after_planned(held, planned_action));
            assert(out@ =~= done + model.planned_commands(held, planned_action));
            assert(done + (model.planned_commands(held, planned_action) + model.run_planned(
                self@.held,
                self@.planned,
            ).1) =~= out@ + model.run_planned(self@.held, self@.planned).1);
        }

        assert(self@.planned =~= Seq::<PlannedAction>::empty());
        // While an ability is held and the player walks, the cursor swivels
        // with the sticks.
        self.holding_ability = self.action_handler.is_ability_key_held();
        let ghost held = self@.held;
        let ghost moved = set_cursor;
        let ghost planned_steps = out@;
        match self.get_swivel_target() {
            Some(place) => {
                out.push(Command::MoveCursor(place));
                set_cursor = true;
            },
            None => {},
        }
        if self.holding_aim && !self.holding_walk {
            out.push(Command::MoveCursor(CursorTarget::FreeAim));
            set_cursor = true;
        }
        if self.holding_walk && !set_cursor {
            out.push(
                Command::MoveCursor(
                    CursorTarget::Circle { distance: ActionDistance::Unset, toward: Heading::Walk },
                ),
            );
        }
        assert(out@ =~= planned_steps + model.cursor_commands(held, moved));
        if !self.action_handler.holding_left_click_for_action() {
            let basic = ButtonOrKey::Button(MouseButton::Left);
            let mut steps = if self.holding_walk {
                self.action_handler.handle_action(ActionType::Press, &basic)
            } else {
                self.action_handler.handle_action(ActionType::Release, &basic)
            };
            out.append(&mut steps);
        }
        assert(out@ =~= planned_steps + model.cursor_commands(held, moved)
            + model.walk_click_commands(held));
        proof {
            use_type_invariant(&self.action_handler);
        }
        out
    }

    /// Where a planned press places the cursor, if anywhere.
    fn get_press_target(&self, action: &PlannedAction) -> (r: Option<CursorTarget>)
        ensures
            r == self@.press_target(*action),
    {
        if action.aimable {
            if self.holding_walk && self.holding_aim {
                Some(CursorTarget::Circle { distance: action.distance, toward: Heading::Aim })
            } else if self.holding_walk {
                Some(CursorTarget::Circle { distance: action.distance, toward: Heading::Walk })
            } else {
                None
            }
        } else if action.distance != ActionDistance::Unset && self.holding_walk {
            Some(CursorTarget::Circle { distance: action.distance, toward: Heading::Walk })
        } else {
            None
        }
    }

    /// Where the cursor swivels to, if anywhere.
    fn get_swivel_target(&self) -> (r: Option<CursorTarget>)
        ensures
            r == self@.swivel_target(self@.held),
    {
        if !(self.action_handler.is_ability_key_held() && self.holding_walk) {
            return None;
        }
        let held_ability_actions = self.action_handler.get_held_ability_actions();
        let buttons = self.get_ability_buttons(&held_ability_actions);
        let some_held_action_aimable = self.is_any_aimable(&buttons);
        let chosen_distance = self.get_farthest_distance(&buttons);
        if some_held_action_aimable && self.holding_aim {
            Some(CursorTarget::Circle { distance: chosen_distance, toward: Heading::Aim })
        } else {
            Some(CursorTarget::Circle { distance: chosen_distance, toward: Heading::Walk })
        }
    }

    /// The ability buttons that the given binding targets belong to.
    fn get_ability_buttons(&self, targets: &Vec<ButtonOrKey>) -> (r: Vec<PadButton>)
        ensures
            r@ == ability_buttons(self@.settings, targets@),
    {
        let mut buttons: Vec<PadButton> = Vec::new();
        let mut i: usize = 0;
        while i < targets.len()
            invariant
                i <= targets.len(),
                buttons@ == ability_buttons(self@.settings, targets@.take(i as int)),
            decreases targets.len() - i,
        {
            assert(targets@.take(i + 1).drop_last() =~= targets@.take(i as int));
            match self.settings.ability_name_for(targets[i]) {
                Some(button) => {
                    buttons.push(button);
                },
                None => {},
            }
            i += 1;
        }
        assert(targets@.take(i as int) =~= targets@);
        buttons
    }

    /// Tells whether one of the buttons follows the aiming stick.
    fn is_any_aimable(&self, buttons: &Vec<PadButton>) -> (r: bool)
        ensures
            r == any_aimable(self@.settings, buttons@),
    {
        let mut i: usize = 0;
        while i < buttons.len()
            invariant
                i <= buttons.len(),
                forall|j: int| 0 <= j < i ==> !self@.settings.is_aimable(#[trigger] buttons@[j]),
            decreases buttons.len() - i,
        {
            if self.settings.is_aimable(buttons[i]) {
                return true;
            }
            i += 1;
        }
        false
    }

    /// The tier that reaches farthest among those of the buttons.
    fn get_farthest_distance(&self, buttons: &Vec<PadButton>) -> (r: ActionDistance)
        ensures
            r == farthest(self@.settings, buttons@),
    {
        let mut chosen = ActionDistance::Unset;
        let mut i: usize = 0;
        while i < buttons.len()
            invariant
                i <= buttons.len(),
                chosen == farthest_of(self@.settings, buttons@, i as nat),
            decreases buttons.len() - i,
        {
            let distance = self.settings.get_ability_action_distance(buttons[i]);
            if distance != ActionDistance::Unset {
                if chosen == ActionDistance::Unset || self.get_attack_circle_radius(distance)
                    > self.get_attack_circle_radius(chosen) {
                    chosen = distance;
                }
            }
            i += 1;
        }
        chosen
    }

    /// The radius of the circle of a distance tier; that of the walking
    /// circle where no tier is set.
    pub fn get_attack_circle_radius(&self, action_distance: ActionDistance) -> (r: i32)
        ensures
            r == self@.settings.controller.radius_of(action_distance),
    {
        self.settings.controller_settings().circle_radius_px(action_distance)
    }

    /// The distance tier of a button; none for an untracked button.
    pub fn get_ability_action_distance(&self, button: PadButton) -> (r: ActionDistance)
        ensures
            r == self@.settings.distance_of(button),
    {
        self.settings.get_ability_action_distance(button)
    }

    /// The point of the visible part of the game's window that is nearest
    /// to a point of the screen.
    pub fn get_window_bounded_position(
        &self,
        new_x: i64,
        new_y: i64,
        insets: WindowChromeInsets,
    ) -> (r: (i64, i64))
        ensures
            (r.0 as int, r.1 as int) == self@.tracker.bounded(new_x as int, new_y as int, insets),
    {
        self.game_window_tracker.get_window_bounded_position(new_x, new_y, insets)
    }

    /// Where the cursor may go for a target: inside the visible part of the
    /// game's window in windowed mode, anywhere otherwise.
    pub fn safe_cursor_position(&self, new_x: i64, new_y: i64, insets: WindowChromeInsets) -> (r: (
        i64,
        i64,
    ))
        ensures
            (r.0 as int, r.1 as int) == self@.tracker.safe(new_x as int, new_y as int, insets),
    {
        self.game_window_tracker.safe_cursor_position(new_x, new_y, insets)
    }

    /// Acts on the loss of the controller: lets go of everything held,
    /// drops what was planned, and counts neither stick as pulled. Returns
    /// the events that let go of what was held.
    pub fn handle_disconnect(&mut self) -> (r: Vec<Command>)
        ensures
            r@ == old(self)@.held.release_all_commands(),
            final(self)@ == old(self)@.after_disconnect(),
            old(self)@.held.distinct(),
    {
        let out = self.action_handler.release_all();
        self.planned_actions = Vec::new();
        self.holding_walk = false;
        self.holding_aim = false;
        self.holding_ability = false;
        assert(self@.planned =~= Seq::<PlannedAction>::empty());
        out
    }

    /// Hands one gamepad event to the gamepad manager and acts on its
    /// reaction at once: where the controller is lost, the planner lets go
    /// of everything held. Returns the reaction, for the host to act on the
    /// rest of it, and the events that let go of what was held.
    pub fn handle_gamepad_event(
        &mut self,
        gamepad: &mut GamepadManager,
        event: &GamepadEvent,
    ) -> (r: (Reaction, Vec<Command>))
        ensures
            final(gamepad)@ == old(gamepad)@.after_event(*event),
            r.0 == old(gamepad)@.reaction_to(*event),
            r.1@ == old(self)@.reaction_commands(r.0),
            final(self)@ == old(self)@.after_reaction(r.0),
            old(self)@.held.distinct(),
    {
        proof {
            use_type_invariant(&self.action_handler);
        }
        let reaction = gamepad.process_gamepad_event(event);
        let commands = match reaction {
            Reaction::ControllerLost => self.handle_disconnect(),
            _ => Vec::new(),
        };
        (reaction, commands)
    }

    /// Tells whether an ability is held.
    pub fn is_ability_held(&self) -> (r: bool)
        ensures
            r == self@.held.ability_held(),
    {
        self.action_handler.is_ability_key_held()
    }

    /// The ability targets that are held.
    pub fn held_ability_identities(&self) -> (r: Vec<ButtonOrKey>)
        ensures
            r@ == self@.held.held_abilities(),
    {
        self.action_handler.get_held_ability_actions()
    }

    /// Tells whether some chord is held, and keeps its primary action for
    /// itself.
    pub fn is_holding_primary_for_chord(&self) -> (r: bool)
        ensures
            r == self@.held.holding_left_click_for_action(),
    {
        self.action_handler.holding_left_click_for_action()
    }

    /// Tells whether the player walks.
    pub fn is_walking(&self) -> (r: bool)
        ensures
            r == self@.holding_walk,
    {
        self.holding_walk
    }

    /// Tells whether the player aims.
    pub fn is_aiming(&self) -> (r: bool)
        ensures
            r == self@.holding_aim,
    {
        self.holding_aim
    }

    /// The tracker of the game's window.
    pub fn game_window_tracker(&self) -> (r: GameWindowTracker)
        ensures
            r == self@.tracker,
    {
        self.game_window_tracker
    }
}

} // verus!
