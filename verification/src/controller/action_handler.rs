//! Command synthesis: turns presses and releases of binding targets into
//! key and mouse button events, and never sends a press for what is already
//! down nor a release for what is already up.
//!
//! A binding target is held from its press to its release. A key or button
//! target is held exactly while its key or button is down, whichever
//! binding put it down. A chord is held from the press of that chord to the
//! release of that chord. A press of what is held and a release of what is
//! not held do nothing.

use vstd::prelude::*;
use crate::binding::ButtonOrKey;
use crate::controller::command::Command;
use crate::keys::{Key, MouseButton};

verus! {

/// Whether a binding target is to go down or up.
#[derive(Clone, Copy, Debug, PartialEq, Eq, Structural)]
pub enum ActionType {
    Press,
    Release,
}

/// How long the modifier of a chord is given to settle before the primary
/// action is pressed, in milliseconds.
pub const CHORD_SETTLE_MS: u64 = 20;

/// How long the primary action of a chord is held before a modifier that the
/// chord itself pressed is let go, in milliseconds.
pub const CHORD_LINGER_MS: u64 = 10;

/// A chord: a mouse button, its primary action, pressed under a modifier
/// key.
#[derive(Clone, Copy, Debug, PartialEq, Eq, Structural)]
pub struct Chord {
    pub button: MouseButton,
    pub modifier: Key,
}

/// `items` without every occurrence of `item`.
pub open spec fn without<T>(items: Seq<T>, item: T) -> Seq<T>
    decreases items.len(),
{
    if items.len() == 0 {
        items
    } else if items.last() == item {
        without(items.drop_last(), item)
    } else {
        without(items.drop_last(), item).push(items.last())
    }
}

/// The release of every key of `keys`, in order.
pub open spec fn key_releases(keys: Seq<Key>) -> Seq<Command> {
    Seq::new(keys.len(), |i: int| Command::KeyRelease(keys[i]))
}

/// What the engine holds down: the mathematical content of an
/// [`ActionHandler`].
pub ghost struct HeldState {
    pub left: bool,
    pub middle: bool,
    pub right: bool,
    /// The keys that are down, in the order in which they went down.
    pub keys: Seq<Key>,
    /// The chords that are held, in the order in which they were pressed.
    pub chords: Seq<Chord>,
}

impl HeldState {
    /// Nothing held.
    pub open spec fn idle() -> HeldState {
        HeldState {
            left: false,
            middle: false,
            right: false,
            keys: Seq::empty(),
            chords: Seq::empty(),
        }
    }

    /// Whether a mouse button is down.
    pub open spec fn button_held(self, button: MouseButton) -> bool {
        match button {
            MouseButton::Left => self.left,
            MouseButton::Middle => self.middle,
            MouseButton::Right => self.right,
        }
    }

    /// Whether a key is down.
    pub open spec fn key_held(self, key: Key) -> bool {
        self.keys.contains(key)
    }

    /// Whether a chord is held: pressed, and not released since.
    pub open spec fn chord_held(self, button: MouseButton, modifier: Key) -> bool {
        self.chords.contains(Chord { button, modifier })
    }

    /// Whether some chord is held, and keeps its primary action for itself.
    pub open spec fn holding_left_click_for_action(self) -> bool {
        self.chords.len() > 0
    }

    /// Whether a binding target is held: the key of a key target or the
    /// button of a button target is down, or the chord is held. The empty
    /// target is never held.
    pub open spec fn holds(self, target: ButtonOrKey) -> bool {
        match target {
            ButtonOrKey::ButtonKeyChord(button, modifier) => self.chord_held(button, modifier),
            ButtonOrKey::Button(button) => self.button_held(button),
            ButtonOrKey::Key(key) => self.key_held(key),
            ButtonOrKey::Empty => false,
        }
    }

    /// This state with one mouse button down or up.
    pub open spec fn with_button(self, button: MouseButton, held: bool) -> HeldState {
        match button {
            MouseButton::Left => HeldState { left: held, ..self },
            MouseButton::Middle => HeldState { middle: held, ..self },
            MouseButton::Right => HeldState { right: held, ..self },
        }
    }

    /// The events that a press or release of a mouse button takes: one if it
    /// changes whether the button is down, none otherwise.
    pub open spec fn mouse_commands(self, button: MouseButton, action: ActionType) -> Seq<Command> {
        match action {
            ActionType::Press => if self.button_held(button) {
                Seq::empty()
            } else {
                seq![Command::ButtonPress(button)]
            },
            ActionType::Release => if self.button_held(button) {
                seq![Command::ButtonRelease(button)]
            } else {
                Seq::empty()
            },
        }
    }

    /// The state after a press or release of a mouse button.
    pub open spec fn after_mouse(self, button: MouseButton, action: ActionType) -> HeldState {
        self.with_button(button, action == ActionType::Press)
    }

    /// The events that a press or release of a key takes: one if it changes
    /// whether the key is down, none otherwise.
    pub open spec fn key_commands(self, key: Key, action: ActionType) -> Seq<Command> {
        match action {
            ActionType::Press => if self.key_held(key) {
                Seq::empty()
            } else {
                seq![Command::KeyPress(key)]
            },
            ActionType::Release => if self.key_held(key) {
                seq![Command::KeyRelease(key)]
            } else {
                Seq::empty()
            },
        }
    }

    /// The state after a press or release of a key.
    pub open spec fn after_key(self, key: Key, action: ActionType) -> HeldState {
        match action {
            ActionType::Press => if self.key_held(key) {
                self
            } else {
                HeldState { keys: self.keys.push(key), ..self }
            },
            ActionType::Release => HeldState { keys: without(self.keys, key), ..self },
        }
    }

    /// The steps that a press or release of a chord takes.
    ///
    /// A press of a chord that is held, and a release of one that is not,
    /// take none. Any other press, with the modifier up, presses the
    /// modifier, lets it settle, presses the primary action, lingers, and
    /// lets the modifier go again; with the modifier already down it only
    /// presses the primary action. Any other release lets the primary action
    /// go and then the modifier, each only if it is down.
    pub open spec fn chord_commands(
        self,
        button: MouseButton,
        modifier: Key,
        action: ActionType,
    ) -> Seq<Command> {
        match action {
            ActionType::Press => if self.chord_held(button, modifier) {
                Seq::empty()
            } else if self.key_held(modifier) {
                self.mouse_commands(button, ActionType::Press)
            } else {
                seq![Command::KeyPress(modifier), Command::Sleep(CHORD_SETTLE_MS)]
                    + self.mouse_commands(button, ActionType::Press) + seq![
                    Command::Sleep(CHORD_LINGER_MS),
                    Command::KeyRelease(modifier),
                ]
            },
            ActionType::Release => if self.chord_held(button, modifier) {
                self.mouse_commands(button, ActionType::Release) + self.key_commands(
                    modifier,
                    ActionType::Release,
                )
            } else {
                Seq::empty()
            },
        }
    }

    /// The state after a press or release of a chord. A press of a chord
    /// that is held and a release of one that is not change nothing. Any
    /// other press puts the primary action down, makes the chord held, and
    /// leaves the keys as they were: the modifier is down afterwards exactly
    /// if it was down before. Any other release puts the primary action and
    /// the modifier up and ends the hold of the chord.
    pub open spec fn after_chord(
        self,
        button: MouseButton,
        modifier: Key,
        action: ActionType,
    ) -> HeldState {
        match action {
            ActionType::Press => if self.chord_held(button, modifier) {
                self
            } else {
                HeldState {
                    chords: self.chords.push(Chord { button, modifier }),
                    ..self.with_button(button, true)
                }
            },
            ActionType::Release => if self.chord_held(button, modifier) {
                HeldState {
                    chords: without(self.chords, Chord { button, modifier }),
                    keys: without(self.keys, modifier),
                    ..self.with_button(button, false)
                }
            } else {
                self
            },
        }
    }

    /// The steps that a press or release of a binding target takes.
    pub open spec fn action_commands(self, action: ActionType, target: ButtonOrKey) -> Seq<
        Command,
    > {
        match target {
            ButtonOrKey::ButtonKeyChord(button, modifier) => self.chord_commands(
                button,
                modifier,
                action,
            ),
            ButtonOrKey::Button(button) => self.mouse_commands(button, action),
            ButtonOrKey::Key(key) => self.key_commands(key, action),
            ButtonOrKey::Empty => Seq::empty(),
        }
    }

    /// The state after a press or release of a binding target.
    pub open spec fn after_action(self, action: ActionType, target: ButtonOrKey) -> HeldState {
        match target {
            ButtonOrKey::ButtonKeyChord(button, modifier) => self.after_chord(
                button,
                modifier,
                action,
            ),
            ButtonOrKey::Button(button) => self.after_mouse(button, action),
            ButtonOrKey::Key(key) => self.after_key(key, action),
            ButtonOrKey::Empty => self,
        }
    }

    /// Whether an ability is held: the middle or right mouse button, or one
    /// of the ability keys.
    pub open spec fn ability_held(self) -> bool {
        self.middle || self.right || exists|i: int|
            0 <= i < self.keys.len() && (#[trigger] self.keys[i]).is_ability()
    }

    /// The ability targets that are held, in a fixed order: the middle and
    /// right mouse buttons, then the keys Q, W, E, R and T.
    pub open spec fn held_abilities(self) -> Seq<ButtonOrKey> {
        (if self.middle {
            seq![ButtonOrKey::Button(MouseButton::Middle)]
        } else {
            Seq::empty()
        }) + (if self.right {
            seq![ButtonOrKey::Button(MouseButton::Right)]
        } else {
            Seq::empty()
        }) + (if self.key_held(Key::KeyQ) {
            seq![ButtonOrKey::Key(Key::KeyQ)]
        } else {
            Seq::empty()
        }) + (if self.key_held(Key::KeyW) {
            seq![ButtonOrKey::Key(Key::KeyW)]
        } else {
            Seq::empty()
        }) + (if self.key_held(Key::KeyE) {
            seq![ButtonOrKey::Key(Key::KeyE)]
        } else {
            Seq::empty()
        }) + (if self.key_held(Key::KeyR) {
            seq![ButtonOrKey::Key(Key::KeyR)]
        } else {
            Seq::empty()
        }) + (if self.key_held(Key::KeyT) {
            seq![ButtonOrKey::Key(Key::KeyT)]
        } else {
            Seq::empty()
        })
    }

    /// The events that let go of everything held: the mouse buttons left,
    /// middle, right, then the keys in the order in which they went down.
    pub open spec fn release_all_commands(self) -> Seq<Command> {
        self.mouse_commands(MouseButton::Left, ActionType::Release) + self.mouse_commands(
            MouseButton::Middle,
            ActionType::Release,
        ) + self.mouse_commands(MouseButton::Right, ActionType::Release) + key_releases(self.keys)
    }
}

/// Removing an item that does not occur changes nothing.
pub proof fn lemma_without_absent<T>(items: Seq<T>, item: T)
    requires
        !items.contains(item),
    ensures
        without(items, item) == items,
    decreases items.len(),
{
    if items.len() > 0 {
        let front = items.drop_last();
        assert forall|i: int| 0 <= i < front.len() implies front[i] != item by {
            assert(items[i] == front[i]);
        }
        assert(!front.contains(item));
        lemma_without_absent(front, item);
        assert(items.last() != item);
        assert(front.push(items.last()) =~= items);
    }
}

/// After an item is removed it does not occur, and every other item occurs
/// exactly if it did before.
pub proof fn lemma_without_contains<T>(items: Seq<T>, item: T, other: T)
    ensures
        without(items, item).contains(other) <==> (other != item && items.contains(other)),
    decreases items.len(),
{
    if items.len() > 0 {
        let front = items.drop_last();
        lemma_without_contains(front, item, other);
        let rest = without(front, item);
        if items.contains(other) {
            let i = choose|i: int| 0 <= i < items.len() && items[i] == other;
            if i < front.len() {
                assert(front[i] == other);
            }
        }
        if front.contains(other) {
            let i = choose|i: int| 0 <= i < front.len() && front[i] == other;
            assert(items[i] == other);
        }
        if items.last() != item {
            let out = rest.push(items.last());
            if rest.contains(other) {
                let i = choose|i: int| 0 <= i < rest.len() && rest[i] == other;
                assert(out[i] == other);
            }
            if items.last() == other {
                assert(out[out.len() - 1] == other);
                assert(items[items.len() - 1] == other);
            }
            if out.contains(other) {
                let i = choose|i: int| 0 <= i < out.len() && out[i] == other;
                if i < rest.len() {
                    assert(rest[i] == other);
                }
            }
        } else {
            assert(items[items.len() - 1] == item);
        }
    }
}

/// What is down at the operating system, as far as the engine's events go.
pub ghost struct Pressed {
    pub buttons: Set<MouseButton>,
    pub keys: Set<Key>,
}

impl Pressed {
    /// Whether a step is in order: a press of what is up, a release of what
    /// is down, or a step that is no key or mouse button event.
    pub open spec fn accepts(self, command: Command) -> bool {
        match command {
            Command::KeyPress(key) => !self.keys.contains(key),
            Command::KeyRelease(key) => self.keys.contains(key),
            Command::ButtonPress(button) => !self.buttons.contains(button),
            Command::ButtonRelease(button) => self.buttons.contains(button),
            Command::Sleep(_) => true,
            Command::MoveCursor(_) => true,
        }
    }

    /// What is down after a step.
    pub open spec fn after(self, command: Command) -> Pressed {
        match command {
            Command::KeyPress(key) => Pressed { keys: self.keys.insert(key), ..self },
            Command::KeyRelease(key) => Pressed { keys: self.keys.remove(key), ..self },
            Command::ButtonPress(button) => Pressed {
                buttons: self.buttons.insert(button),
                ..self
            },
            Command::ButtonRelease(button) => Pressed {
                buttons: self.buttons.remove(button),
                ..self
            },
            Command::Sleep(_) => self,
            Command::MoveCursor(_) => self,
        }
    }

    /// Whether every step of `commands` is in order when they are carried
    /// out one after the other.
    pub open spec fn accepts_all(self, commands: Seq<Command>) -> bool
        decreases commands.len(),
    {
        commands.len() == 0 || (self.accepts(commands.first()) && self.after(
            commands.first(),
        ).accepts_all(commands.drop_first()))
    }

    /// What is down after `commands` have been carried out one after the
    /// other.
    pub open spec fn after_all(self, commands: Seq<Command>) -> Pressed
        decreases commands.len(),
    {
        if commands.len() == 0 {
            self
        } else {
            self.after(commands.first()).after_all(commands.drop_first())
        }
    }

    /// Carrying out one sequence of steps and then another is carrying out
    /// both in a row.
    pub proof fn lemma_after_both(self, first: Seq<Command>, second: Seq<Command>)
        ensures
            self.accepts_all(first + second) == (self.accepts_all(first) && self.after_all(
                first,
            ).accepts_all(second)),
            self.after_all(first + second) == self.after_all(first).after_all(second),
        decreases first.len(),
    {
        if first.len() == 0 {
            assert(first + second =~= second);
        } else {
            let both = first + second;
            assert(both.first() == first.first());
            assert(both.drop_first() =~= first.drop_first() + second);
            self.after(first.first()).lemma_after_both(first.drop_first(), second);
        }
    }

    /// Carrying out no step changes nothing.
    pub proof fn lemma_after_none(self)
        ensures
            self.accepts_all(Seq::empty()),
            self.after_all(Seq::empty()) == self,
    {
    }

    /// Carrying out a single step.
    pub proof fn lemma_after_one(self, command: Command)
        ensures
            self.accepts_all(seq![command]) == self.accepts(command),
            self.after_all(seq![command]) == self.after(command),
    {
        let one = seq![command];
        assert(one.first() == command);
        assert(one.drop_first() =~= Seq::<Command>::empty());
        self.after(command).lemma_after_none();
    }
}

impl HeldState {
    /// What the engine counts as down.
    pub open spec fn pressed(self) -> Pressed {
        Pressed {
            buttons: Set::new(|button: MouseButton| self.button_held(button)),
            keys: Set::new(|key: Key| self.key_held(key)),
        }
    }
}

/// No event is sent twice. The steps of a press or release of any binding
/// target are in order at the operating system: every press in them is of a
/// key or button that is up at that point, every release of one that is
/// down, whatever else names the same key or button; and after them the
/// operating system has down exactly what the engine counts as down.
pub proof fn law_events_are_in_order(state: HeldState, action: ActionType, target: ButtonOrKey)
    ensures
        state.pressed().accepts_all(state.action_commands(action, target)),
        state.pressed().after_all(state.action_commands(action, target)) == state.after_action(
            action,
            target,
        ).pressed(),
{
    match target {
        ButtonOrKey::ButtonKeyChord(button, modifier) => {
            lemma_chord_in_order(state, button, modifier, action);
        },
        ButtonOrKey::Button(button) => {
            lemma_mouse_in_order(state, button, action);
        },
        ButtonOrKey::Key(key) => {
            lemma_key_in_order(state, key, action);
        },
        ButtonOrKey::Empty => {
            state.pressed().lemma_after_none();
        },
    }
}

/// The event of a press or release of a mouse button is in order.
proof fn lemma_mouse_in_order(state: HeldState, button: MouseButton, action: ActionType)
    ensures
        state.pressed().accepts_all(state.mouse_commands(button, action)),
        state.pressed().after_all(state.mouse_commands(button, action)) == state.after_mouse(
            button,
            action,
        ).pressed(),
{
    let before = state.pressed();
    let after = state.after_mouse(button, action).pressed();
    let commands = state.mouse_commands(button, action);
    assert(after.keys =~= before.keys);
    if commands.len() == 0 {
        before.lemma_after_none();
        assert(commands =~= Seq::<Command>::empty());
        assert(after.buttons =~= before.buttons);
    } else {
        let command = commands[0];
        assert(commands =~= seq![command]);
        before.lemma_after_one(command);
        assert(after.buttons =~= before.after(command).buttons);
    }
}

/// An item occurs among items with one more at the end exactly if it
/// occurred before or is the one added.
proof fn lemma_push_contains<T>(items: Seq<T>, item: T, other: T)
    ensures
        items.push(item).contains(other) <==> (items.contains(other) || other == item),
{
    let longer = items.push(item);
    if items.contains(other) {
        let i = choose|i: int| 0 <= i < items.len() && items[i] == other;
        assert(longer[i] == other);
    }
    if longer.contains(other) {
        let i = choose|i: int| 0 <= i < longer.len() && longer[i] == other;
        if i < items.len() {
            assert(items[i] == other);
        }
    }
    assert(longer[items.len() as int] == item);
}

/// The event of a press or release of a key is in order.
proof fn lemma_key_in_order(state: HeldState, key: Key, action: ActionType)
    ensures
        state.pressed().accepts_all(state.key_commands(key, action)),
        state.pressed().after_all(state.key_commands(key, action)) == state.after_key(
            key,
            action,
        ).pressed(),
{
    let before = state.pressed();
    let after = state.after_key(key, action).pressed();
    let commands = state.key_commands(key, action);
    assert(after.buttons =~= before.buttons);
    assert forall|other: Key| after.keys.contains(other) == (if commands.len() == 0 {
        before.keys.contains(other)
    } else {
        before.after(commands[0]).keys.contains(other)
    }) by {
        lemma_without_contains(state.keys, key, other);
        lemma_push_contains(state.keys, key, other);
    }
    if commands.len() == 0 {
        before.lemma_after_none();
        assert(commands =~= Seq::<Command>::empty());
        assert(after.keys =~= before.keys);
    } else {
        let command = commands[0];
        assert(commands =~= seq![command]);
        before.lemma_after_one(command);
        assert(after.keys =~= before.after(command).keys);
    }
}

/// The steps of a press or release of a chord are in order.
proof fn lemma_chord_in_order(
    state: HeldState,
    button: MouseButton,
    modifier: Key,
    action: ActionType,
)
    ensures
        state.pressed().accepts_all(state.chord_commands(button, modifier, action)),
        state.pressed().after_all(state.chord_commands(button, modifier, action))
            == state.after_chord(button, modifier, action).pressed(),
{
    let before = state.pressed();
    let after = state.after_chord(button, modifier, action).pressed();
    if state.chord_held(button, modifier) == (action == ActionType::Press) {
        before.lemma_after_none();
    } else if action == ActionType::Press {
        let clicked = state.after_mouse(button, ActionType::Press);
        let click = state.mouse_commands(button, ActionType::Press);
        lemma_mouse_in_order(state, button, ActionType::Press);
        assert(after.keys =~= before.keys);
        assert(after.buttons =~= clicked.pressed().buttons);
        if !state.key_held(modifier) {
            // The modifier goes down, the primary action is pressed under
            // it, and the modifier goes up again.
            let down = seq![Command::KeyPress(modifier), Command::Sleep(CHORD_SETTLE_MS)];
            let up = seq![Command::Sleep(CHORD_LINGER_MS), Command::KeyRelease(modifier)];
            let with_modifier = HeldState { keys: state.keys.push(modifier), ..state };
            lemma_key_in_order(state, modifier, ActionType::Press);
            lemma_mouse_in_order(with_modifier, button, ActionType::Press);
            assert(with_modifier.mouse_commands(button, ActionType::Press) == click);
            let after_down = before.after(Command::KeyPress(modifier));
            assert(down =~= seq![Command::KeyPress(modifier)] + seq![
                Command::Sleep(CHORD_SETTLE_MS),
            ]);
            before.lemma_after_one(Command::KeyPress(modifier));
            after_down.lemma_after_one(Command::Sleep(CHORD_SETTLE_MS));
            before.lemma_after_both(
                seq![Command::KeyPress(modifier)],
                seq![Command::Sleep(CHORD_SETTLE_MS)],
            );
            assert(before.accepts_all(down) && before.after_all(down) == after_down);
            assert(after_down == with_modifier.pressed());
            let after_click = after_down.after_all(click);
            assert(after_click == with_modifier.after_mouse(
                button,
                ActionType::Press,
            ).pressed());
            assert(up =~= seq![Command::Sleep(CHORD_LINGER_MS)] + seq![
                Command::KeyRelease(modifier),
            ]);
            after_click.lemma_after_one(Command::Sleep(CHORD_LINGER_MS));
            after_click.lemma_after_one(Command::KeyRelease(modifier));
            after_click.lemma_after_both(
                seq![Command::Sleep(CHORD_LINGER_MS)],
                seq![Command::KeyRelease(modifier)],
            );
            lemma_push_contains(state.keys, modifier, modifier);
            assert(after_click.keys.contains(modifier));
            assert(after_click.accepts_all(up));
            let after_up = after_click.after_all(up);
            assert forall|other: Key| after_up.keys.contains(other) == before.keys.contains(
                other,
            ) by {
                lemma_push_contains(state.keys, modifier, other);
            }
            assert(after_up.keys =~= before.keys);
            assert(after_up.buttons =~= after.buttons);
            before.lemma_after_both(down, click);
            before.lemma_after_both(down + click, up);
            assert(state.chord_commands(button, modifier, action) =~= down + click + up);
            assert(before.after_all(down + click) == after_click);
            assert(before.after_all(down + click + up) == after_up);
            assert(after_up == after);
        } else {
            assert(after.keys =~= clicked.pressed().keys);
            assert(after == clicked.pressed());
        }
    } else {
        let released = state.after_mouse(button, ActionType::Release);
        lemma_mouse_in_order(state, button, ActionType::Release);
        lemma_key_in_order(released, modifier, ActionType::Release);
        assert(released.key_commands(modifier, ActionType::Release) == state.key_commands(
            modifier,
            ActionType::Release,
        ));
        before.lemma_after_both(
            state.mouse_commands(button, ActionType::Release),
            state.key_commands(modifier, ActionType::Release),
        );
        let last = released.after_key(modifier, ActionType::Release).pressed();
        assert(after.keys =~= last.keys);
        assert(after.buttons =~= last.buttons);
        assert(after == last);
    }
}

impl HeldState {
    /// Whether no key is listed twice among the keys that are down, and no
    /// chord twice among the chords that are held. This holds of every
    /// handler.
    pub open spec fn distinct(self) -> bool {
        self.keys.no_duplicates() && self.chords.no_duplicates()
    }
}

/// Removing an item from items of which none is listed twice leaves none
/// listed twice.
proof fn lemma_without_distinct<T>(items: Seq<T>, item: T)
    requires
        items.no_duplicates(),
    ensures
        without(items, item).no_duplicates(),
    decreases items.len(),
{
    if items.len() > 0 {
        let front = items.drop_last();
        let last = items.last();
        assert forall|i: int, j: int| 0 <= i < front.len() && 0 <= j < front.len() && i
            != j implies front[i] != front[j] by {
            assert(items[i] == front[i] && items[j] == front[j]);
        }
        lemma_without_distinct(front, item);
        if last != item {
            let rest = without(front, item);
            let out = rest.push(last);
            lemma_without_contains(front, item, last);
            if front.contains(last) {
                let i = choose|i: int| 0 <= i < front.len() && front[i] == last;
                assert(items[i] == items[items.len() - 1]);
            }
            assert forall|i: int, j: int| 0 <= i < out.len() && 0 <= j < out.len() && i
                != j implies out[i] != out[j] by {
                if i < rest.len() && j < rest.len() {
                    assert(out[i] == rest[i] && out[j] == rest[j]);
                } else if i < rest.len() {
                    assert(rest.contains(rest[i]));
                } else if j < rest.len() {
                    assert(rest.contains(rest[j]));
                }
            }
        }
    }
}

/// Adding an item that does not occur to items of which none is listed
/// twice leaves none listed twice.
proof fn lemma_push_distinct<T>(items: Seq<T>, item: T)
    requires
        items.no_duplicates(),
        !items.contains(item),
    ensures
        items.push(item).no_duplicates(),
{
    let longer = items.push(item);
    assert forall|i: int, j: int| 0 <= i < longer.len() && 0 <= j < longer.len() && i
        != j implies longer[i] != longer[j] by {
        if i < items.len() && j < items.len() {
            assert(longer[i] == items[i] && longer[j] == items[j]);
        } else if i < items.len() {
            assert(items.contains(items[i]));
        } else if j < items.len() {
            assert(items.contains(items[j]));
        }
    }
}

/// A handler never lists a key or a chord twice. A press or release of any
/// binding target leaves no key listed twice among the keys that are down
/// and no chord twice among the chords that are held, if none was before.
pub proof fn law_held_state_stays_distinct(
    state: HeldState,
    action: ActionType,
    target: ButtonOrKey,
)
    requires
        state.distinct(),
    ensures
        state.after_action(action, target).distinct(),
{
    match target {
        ButtonOrKey::ButtonKeyChord(button, modifier) => {
            let chord = Chord { button, modifier };
            lemma_without_distinct(state.keys, modifier);
            lemma_without_distinct(state.chords, chord);
            if !state.chord_held(button, modifier) {
                lemma_push_distinct(state.chords, chord);
            }
        },
        ButtonOrKey::Key(key) => {
            lemma_without_distinct(state.keys, key);
            if !state.key_held(key) {
                lemma_push_distinct(state.keys, key);
            }
        },
        _ => {},
    }
}

/// The releases of keys that are down, none of them listed twice, are in
/// order, and leave no key down.
proof fn lemma_key_releases_in_order(pressed: Pressed, keys: Seq<Key>)
    requires
        keys.no_duplicates(),
        forall|key: Key| pressed.keys.contains(key) == keys.contains(key),
    ensures
        pressed.accepts_all(key_releases(keys)),
        pressed.after_all(key_releases(keys)) == (Pressed { keys: Set::empty(), ..pressed }),
    decreases keys.len(),
{
    let releases = key_releases(keys);
    if keys.len() == 0 {
        assert forall|key: Key| !pressed.keys.contains(key) by {
            assert(pressed.keys.contains(key) == keys.contains(key));
        }
        assert(pressed.keys =~= Set::<Key>::empty());
    } else {
        let key = keys[0];
        let rest = keys.drop_first();
        let next = pressed.after(releases.first());
        assert(releases.first() == Command::KeyRelease(key));
        assert(releases.drop_first() =~= key_releases(rest));
        assert(keys.contains(key));
        assert forall|i: int, j: int| 0 <= i < rest.len() && 0 <= j < rest.len() && i
            != j implies rest[i] != rest[j] by {
            assert(rest[i] == keys[i + 1] && rest[j] == keys[j + 1]);
        }
        assert forall|other: Key| next.keys.contains(other) == rest.contains(other) by {
            if rest.contains(other) {
                let i = choose|i: int| 0 <= i < rest.len() && rest[i] == other;
                assert(keys[i + 1] == other);
                assert(keys.contains(other));
                assert(other != key);
            }
            if keys.contains(other) && other != key {
                let i = choose|i: int| 0 <= i < keys.len() && keys[i] == other;
                assert(rest[i - 1] == other);
            }
        }
        lemma_key_releases_in_order(next, rest);
        assert(next.after_all(key_releases(rest)).keys =~= Set::<Key>::empty());
    }
}

/// The sweep lets go of everything, and of nothing twice. The events that
/// follow the loss of the controller are in order at the operating system,
/// and leave nothing down there.
pub proof fn law_sweep_lets_go_of_everything(state: HeldState)
    requires
        state.distinct(),
    ensures
        state.pressed().accepts_all(state.release_all_commands()),
        state.pressed().after_all(state.release_all_commands()) == HeldState::idle().pressed(),
{
    let before = state.pressed();
    let left = state.mouse_commands(MouseButton::Left, ActionType::Release);
    let middle = state.mouse_commands(MouseButton::Middle, ActionType::Release);
    let right = state.mouse_commands(MouseButton::Right, ActionType::Release);
    let without_left = state.after_mouse(MouseButton::Left, ActionType::Release);
    let without_middle = without_left.after_mouse(MouseButton::Middle, ActionType::Release);
    let without_buttons = without_middle.after_mouse(MouseButton::Right, ActionType::Release);
    lemma_mouse_in_order(state, MouseButton::Left, ActionType::Release);
    lemma_mouse_in_order(without_left, MouseButton::Middle, ActionType::Release);
    lemma_mouse_in_order(without_middle, MouseButton::Right, ActionType::Release);
    assert(without_left.mouse_commands(MouseButton::Middle, ActionType::Release) == middle);
    assert(without_middle.mouse_commands(MouseButton::Right, ActionType::Release) == right);
    lemma_key_releases_in_order(without_buttons.pressed(), state.keys);
    before.lemma_after_both(left, middle);
    before.lemma_after_both(left + middle, right);
    before.lemma_after_both(left + middle + right, key_releases(state.keys));
    let last = before.after_all(state.release_all_commands());
    assert(last.buttons =~= HeldState::idle().pressed().buttons);
    assert(last.keys =~= HeldState::idle().pressed().keys);
}

/// How many steps of `commands` press a key or a mouse button.
pub open spec fn press_count(commands: Seq<Command>) -> nat
    decreases commands.len(),
{
    if commands.len() == 0 {
        0
    } else if commands.last().is_press() {
        press_count(commands.drop_last()) + 1
    } else {
        press_count(commands.drop_last())
    }
}

/// The presses of one sequence of steps and of another add up.
proof fn lemma_press_count_adds(first: Seq<Command>, second: Seq<Command>)
    ensures
        press_count(first + second) == press_count(first) + press_count(second),
    decreases second.len(),
{
    if second.len() == 0 {
        assert(first + second =~= first);
    } else {
        let both = first + second;
        assert(both.last() == second.last());
        assert(both.drop_last() =~= first + second.drop_last());
        lemma_press_count_adds(first, second.drop_last());
    }
}

/// The presses of up to two steps.
proof fn lemma_press_count_short(commands: Seq<Command>)
    requires
        commands.len() <= 2,
    ensures
        press_count(commands) == (if commands.len() >= 1 && commands[0].is_press() {
            1nat
        } else {
            0nat
        }) + (if commands.len() == 2 && commands[1].is_press() {
            1nat
        } else {
            0nat
        }),
    decreases commands.len(),
{
    if commands.len() == 1 {
        assert(commands.last() == commands[0]);
        assert(press_count(commands.drop_last()) == 0);
    } else if commands.len() == 2 {
        let front = seq![commands[0]];
        let back = seq![commands[1]];
        assert(commands =~= front + back);
        lemma_press_count_short(front);
        lemma_press_count_short(back);
        lemma_press_count_adds(front, back);
    }
}

impl HeldState {
    /// How many press events a press of a target takes: none for a target
    /// that is held and for the empty target; besides that, one for a key or
    /// button target, and for a chord one for its modifier and one for its
    /// primary action, each only if it is up.
    pub open spec fn presses_owed(self, target: ButtonOrKey) -> nat {
        if self.holds(target) {
            0
        } else {
            match target {
                ButtonOrKey::ButtonKeyChord(button, modifier) => (if self.key_held(modifier) {
                    0nat
                } else {
                    1nat
                }) + (if self.button_held(button) {
                    0nat
                } else {
                    1nat
                }),
                ButtonOrKey::Button(_) => 1,
                ButtonOrKey::Key(_) => 1,
                ButtonOrKey::Empty => 0,
            }
        }
    }
}

/// After a press a target is held and after a release it is not, whatever
/// it was before; only the empty target is never held.
pub proof fn law_action_decides_hold(state: HeldState, action: ActionType, target: ButtonOrKey)
    requires
        target != ButtonOrKey::Empty,
    ensures
        state.after_action(action, target).holds(target) == (action == ActionType::Press),
{
    match target {
        ButtonOrKey::ButtonKeyChord(button, modifier) => {
            let chord = Chord { button, modifier };
            lemma_without_contains(state.chords, chord, chord);
            lemma_push_contains(state.chords, chord, chord);
        },
        ButtonOrKey::Key(key) => {
            lemma_without_contains(state.keys, key, key);
            lemma_push_contains(state.keys, key, key);
        },
        _ => {},
    }
}

/// An action that asks for what already is does nothing. A press of a
/// target that is held, and a release of a target that is not held, send
/// nothing and leave everything as it was.
pub proof fn law_action_without_change_is_silent(
    state: HeldState,
    action: ActionType,
    target: ButtonOrKey,
)
    requires
        state.holds(target) == (action == ActionType::Press) || target == ButtonOrKey::Empty,
    ensures
        state.action_commands(action, target) == Seq::<Command>::empty(),
        state.after_action(action, target) == state,
{
    match target {
        ButtonOrKey::Key(key) => {
            if action == ActionType::Release {
                lemma_without_absent(state.keys, key);
            }
        },
        _ => {},
    }
    assert(state.action_commands(action, target) =~= Seq::<Command>::empty());
}

/// A press is idempotent. Of two presses of one target in a row, with no
/// release between them, the second sends nothing and changes nothing. Both
/// together send the press events that the first one owes: none if the
/// target was held already, otherwise one for each key or button that the
/// target names and that was up.
pub proof fn law_press_is_idempotent(state: HeldState, target: ButtonOrKey)
    ensures
        state.after_action(ActionType::Press, target).action_commands(ActionType::Press, target)
            == Seq::<Command>::empty(),
        state.after_action(ActionType::Press, target).after_action(ActionType::Press, target)
            == state.after_action(ActionType::Press, target),
        press_count(
            state.action_commands(ActionType::Press, target) + state.after_action(
                ActionType::Press,
                target,
            ).action_commands(ActionType::Press, target),
        ) == state.presses_owed(target),
{
    let first = state.action_commands(ActionType::Press, target);
    let once = state.after_action(ActionType::Press, target);
    if target != ButtonOrKey::Empty {
        law_action_decides_hold(state, ActionType::Press, target);
    }
    law_action_without_change_is_silent(once, ActionType::Press, target);
    assert(first + Seq::<Command>::empty() =~= first);
    match target {
        ButtonOrKey::ButtonKeyChord(button, modifier) => {
            let click = state.mouse_commands(button, ActionType::Press);
            lemma_press_count_short(click);
            if !state.chord_held(button, modifier) && !state.key_held(modifier) {
                let down = seq![Command::KeyPress(modifier), Command::Sleep(CHORD_SETTLE_MS)];
                let up = seq![Command::Sleep(CHORD_LINGER_MS), Command::KeyRelease(modifier)];
                lemma_press_count_short(down);
                lemma_press_count_short(up);
                lemma_press_count_adds(down, click);
                lemma_press_count_adds(down + click, up);
            } else {
                lemma_press_count_short(first);
            }
        },
        _ => {
            lemma_press_count_short(first);
        },
    }
}

/// A release is idempotent. Releasing a target that is not held sends no
/// event and leaves everything as it was: every button, every key, whoever
/// holds it, and every chord.
pub proof fn law_release_of_idle_target_is_silent(state: HeldState, target: ButtonOrKey)
    requires
        !state.holds(target),
    ensures
        state.action_commands(ActionType::Release, target) == Seq::<Command>::empty(),
        state.after_action(ActionType::Release, target) == state,
{
    law_action_without_change_is_silent(state, ActionType::Release, target);
}

/// An event is sent exactly when it changes what is down: a press or
/// release of a key or button target sends one event if the target was up
/// (for a press) or down (for a release), and none otherwise.
pub proof fn law_events_follow_held_state(state: HeldState, action: ActionType, target: ButtonOrKey)
    requires
        target is Button || target is Key,
    ensures
        state.action_commands(action, target).len() == (if state.holds(target) == (action
            == ActionType::Press) {
            0nat
        } else {
            1nat
        }),
{
}

/// An ability is held exactly when the list of held ability targets is not
/// empty.
pub proof fn law_ability_held_iff_listed(state: HeldState)
    ensures
        state.ability_held() <==> state.held_abilities().len() > 0,
{
    if state.ability_held() && !state.middle && !state.right {
        let i = choose|i: int| 0 <= i < state.keys.len() && (#[trigger] state.keys[i]).is_ability();
        let key = state.keys[i];
        assert(state.keys.contains(key));
    }
    if state.held_abilities().len() > 0 && !state.middle && !state.right {
        let key = if state.key_held(Key::KeyQ) {
            Key::KeyQ
        } else if state.key_held(Key::KeyW) {
            Key::KeyW
        } else if state.key_held(Key::KeyE) {
            Key::KeyE
        } else if state.key_held(Key::KeyR) {
            Key::KeyR
        } else {
            Key::KeyT
        };
        assert(state.key_held(key));
        let i = choose|i: int| 0 <= i < state.keys.len() && state.keys[i] == key;
        assert(state.keys[i].is_ability());
    }
}

/// The items with one more at the end.
fn with_one_more<T: Copy>(items: &Vec<T>, item: T) -> (r: Vec<T>)
    ensures
        r@ == items@.push(item),
{
    let mut out: Vec<T> = Vec::new();
    let mut i: usize = 0;
    while i < items.len()
        invariant
            i <= items.len(),
            out@ == items@.take(i as int),
        decreases items.len() - i,
    {
        out.push(items[i]);
        i += 1;
        assert(out@ =~= items@.take(i as int));
    }
    assert(items@.take(i as int) =~= items@);
    out.push(item);
    out
}

/// Tracks what the engine holds down and synthesizes the events that change
/// it.
#[derive(Debug)]
pub struct ActionHandler {
    left_mouse_held: bool,
    middle_mouse_held: bool,
    right_mouse_held: bool,
    held_keys: Vec<Key>,
    held_chords: Vec<Chord>,
}

impl View for ActionHandler {
    type V = HeldState;

    closed spec fn view(&self) -> HeldState {
        HeldState {
            left: self.left_mouse_held,
            middle: self.middle_mouse_held,
            right: self.right_mouse_held,
            keys: self.held_keys@,
            chords: self.held_chords@,
        }
    }
}

impl ActionHandler {
    /// No handler lists a key or a chord twice.
    #[verifier::type_invariant]
    pub open spec fn inv(self) -> bool {
        self@.distinct()
    }

    /// A handler that holds nothing.
    pub fn new() -> (r: ActionHandler)
        ensures
            r@ == HeldState::idle(),
    {
        ActionHandler {
            left_mouse_held: false,
            middle_mouse_held: false,
            right_mouse_held: false,
            held_keys: Vec::new(),
            held_chords: Vec::new(),
        }
    }

    /// Presses or releases a binding target and returns the steps that this
    /// takes, in order. A press of a target that is held and a release of
    /// one that is not take no step and change nothing. The handler counts
    /// the target as held or not from then on, whether or not the host gets
    /// every step through.
    pub fn handle_action(&mut self, action_type: ActionType, action: &ButtonOrKey) -> (r: Vec<
        Command,
    >)
        ensures
            r@ == old(self)@.action_commands(action_type, *action),
            final(self)@ == old(self)@.after_action(action_type, *action),
            final(self)@.distinct(),
    {
        let mut out: Vec<Command> = Vec::new();
        match *action {
            ButtonOrKey::ButtonKeyChord(button, key) => {
                self.handle_action_with_modifier_key(action_type, button, key, &mut out);
            },
            ButtonOrKey::Button(button) => {
                self.handle_mouse_action(button, action_type, &mut out);
            },
            ButtonOrKey::Key(key) => {
                self.handle_keypress_action(key, action_type, &mut out);
            },
            ButtonOrKey::Empty => {},
        }
        assert(out@ =~= old(self)@.action_commands(action_type, *action));
        proof {
            use_type_invariant(&*self);
        }
        out
    }

    /// Tells whether some chord is held, and keeps its primary action for
    /// itself.
    pub fn holding_left_click_for_action(&self) -> (r: bool)
        ensures
            r == self@.holding_left_click_for_action(),
    {
        self.held_chords.len() > 0
    }

    /// Tells whether a mouse button is down.
    pub fn is_button_held(&self, button: MouseButton) -> (r: bool)
        ensures
            r == self@.button_held(button),
    {
        match button {
            MouseButton::Left => self.left_mouse_held,
            MouseButton::Middle => self.middle_mouse_held,
            MouseButton::Right => self.right_mouse_held,
        }
    }

    /// Tells whether a key is down.
    pub fn is_key_held(&self, key: Key) -> (r: bool)
        ensures
            r == self@.key_held(key),
    {
        let mut i: usize = 0;
        while i < self.held_keys.len()
            invariant
                i <= self.held_keys.len(),
                forall|j: int| 0 <= j < i ==> self.held_keys@[j] != key,
            decreases self.held_keys.len() - i,
        {
            if self.held_keys[i] == key {
                return true;
            }
            i += 1;
        }
        false
    }

    /// Tells whether a chord is held: pressed, and not released since.
    pub fn is_chord_held(&self, button: MouseButton, modifier: Key) -> (r: bool)
        ensures
            r == self@.chord_held(button, modifier),
    {
        let chord = Chord { button, modifier };
        let mut i: usize = 0;
        while i < self.held_chords.len()
            invariant
                i <= self.held_chords.len(),
                chord == (Chord { button, modifier }),
                forall|j: int| 0 <= j < i ==> self.held_chords@[j] != chord,
            decreases self.held_chords.len() - i,
        {
            if self.held_chords[i] == chord {
                assert(self@.chords[i as int] == chord);
                return true;
            }
            i += 1;
        }
        false
    }

    /// Tells whether a binding target is held.
    pub fn is_held(&self, target: &ButtonOrKey) -> (r: bool)
        ensures
            r == self@.holds(*target),
    {
        match *target {
            ButtonOrKey::ButtonKeyChord(button, modifier) => self.is_chord_held(button, modifier),
            ButtonOrKey::Button(button) => self.is_button_held(button),
            ButtonOrKey::Key(key) => self.is_key_held(key),
            ButtonOrKey::Empty => false,
        }
    }

    /// Presses or releases a mouse button, appending to `out` the event that
    /// this takes, if any.
    fn handle_mouse_action(
        &mut self,
        mouse_button: MouseButton,
        action: ActionType,
        out: &mut Vec<Command>,
    )
        ensures
            final(out)@ == old(out)@ + old(self)@.mouse_commands(mouse_button, action),
            final(self)@ == old(self)@.after_mouse(mouse_button, action),
    {
        let held = self.is_button_held(mouse_button);
        match action {
            ActionType::Press => {
                if !held {
                    self.set_button_held(mouse_button, true);
                    out.push(Command::ButtonPress(mouse_button));
                }
            },
            ActionType::Release => {
                if held {
                    self.set_button_held(mouse_button, false);
                    out.push(Command::ButtonRelease(mouse_button));
                }
            },
        }
        assert(out@ =~= old(out)@ + old(self)@.mouse_commands(mouse_button, action));
    }

    /// Records that a mouse button is down or up.
    fn set_button_held(&mut self, button: MouseButton, held: bool)
        ensures
            final(self)@ == old(self)@.with_button(button, held),
    {
        proof {
            use_type_invariant(&*self);
        }
        match button {
            MouseButton::Left => {
                self.left_mouse_held = held;
            },
            MouseButton::Middle => {
                self.middle_mouse_held = held;
            },
            MouseButton::Right => {
                self.right_mouse_held = held;
            },
        }
    }

    /// Presses or releases a key, appending to `out` the event that this
    /// takes, if any.
    fn handle_keypress_action(&mut self, keypress: Key, action: ActionType, out: &mut Vec<Command>)
        ensures
            final(out)@ == old(out)@ + old(self)@.key_commands(keypress, action),
            final(self)@ == old(self)@.after_key(keypress, action),
    {
        proof {
            use_type_invariant(&*self);
        }
        let held = self.is_key_held(keypress);
        match action {
            ActionType::Press => {
                if !held {
                    out.push(Command::KeyPress(keypress));
                    proof {
                        lemma_push_distinct(self.held_keys@, keypress);
                    }
                    self.held_keys = with_one_more(&self.held_keys, keypress);
                }
            },
            ActionType::Release => {
                if held {
                    out.push(Command::KeyRelease(keypress));
                    self.forget_key(keypress);
                } else {
                    proof {
                        lemma_without_absent(self.held_keys@, keypress);
                    }
                }
            },
        }
        assert(out@ =~= old(out)@ + old(self)@.key_commands(keypress, action));
    }

    /// Drops a key from the keys that are down.
    fn forget_key(&mut self, key: Key)
        ensures
            final(self)@ == (HeldState { keys: without(old(self)@.keys, key), ..old(self)@ }),
    {
        proof {
            use_type_invariant(&*self);
            lemma_without_distinct(self.held_keys@, key);
        }
        let mut kept: Vec<Key> = Vec::new();
        let mut i: usize = 0;
        while i < self.held_keys.len()
            invariant
                i <= self.held_keys.len(),
                kept@ == without(self.held_keys@.take(i as int), key),
            decreases self.held_keys.len() - i,
        {
            let k = self.held_keys[i];
            assert(self.held_keys@.take(i + 1).drop_last() =~= self.held_keys@.take(i as int));
            if k != key {
                kept.push(k);
            }
            i += 1;
        }
        assert(self.held_keys@.take(i as int) =~= self.held_keys@);
        self.held_keys = kept;
    }

    /// Ends the hold of a chord.
    fn forget_chord(&mut self, chord: Chord)
        ensures
            final(self)@ == (HeldState { chords: without(old(self)@.chords, chord), ..old(self)@ }),
    {
        proof {
            use_type_invariant(&*self);
            lemma_without_distinct(self.held_chords@, chord);
        }
        let mut kept: Vec<Chord> = Vec::new();
        let mut i: usize = 0;
        while i < self.held_chords.len()
            invariant
                i <= self.held_chords.len(),
                kept@ == without(self.held_chords@.take(i as int), chord),
            decreases self.held_chords.len() - i,
        {
            let c = self.held_chords[i];
            assert(self.held_chords@.take(i + 1).drop_last() =~= self.held_chords@.take(
                i as int,
            ));
            if c != chord {
                kept.push(c);
            }
            i += 1;
        }
        assert(self.held_chords@.take(i as int) =~= self.held_chords@);
        self.held_chords = kept;
    }

    /// Presses or releases a chord, appending to `out` the steps that this
    /// takes.
    fn handle_action_with_modifier_key(
        &mut self,
        action_type: ActionType,
        action: MouseButton,
        modifier_key: Key,
        out: &mut Vec<Command>,
    )
        ensures
            final(out)@ == old(out)@ + old(self)@.chord_commands(action, modifier_key, action_type),
            final(self)@ == old(self)@.after_chord(action, modifier_key, action_type),
    {
        proof {
            use_type_invariant(&*self);
        }
        let chord = Chord { button: action, modifier: modifier_key };
        let chord_held = self.is_chord_held(action, modifier_key);
        match action_type {
            ActionType::Press => {
                if !chord_held {
                    let modifier_already_held = self.is_key_held(modifier_key);
                    if !modifier_already_held {
                        self.handle_keypress_action(modifier_key, ActionType::Press, out);
                        out.push(Command::Sleep(CHORD_SETTLE_MS));
                    }
                    self.handle_mouse_action(action, ActionType::Press, out);
                    if !modifier_already_held {
                        out.push(Command::Sleep(CHORD_LINGER_MS));
                        self.handle_keypress_action(modifier_key, ActionType::Release, out);
                        proof {
                            let keys = old(self)@.keys;
                            assert(keys.push(modifier_key).drop_last() =~= keys);
                            lemma_without_absent(keys, modifier_key);
                        }
                    }
                    proof {
                        lemma_push_distinct(self.held_chords@, chord);
                    }
                    self.held_chords = with_one_more(&self.held_chords, chord);
                }
            },
            ActionType::Release => {
                if chord_held {
                    self.handle_mouse_action(action, ActionType::Release, out);
                    self.forget_chord(chord);
                    self.handle_keypress_action(modifier_key, ActionType::Release, out);
                }
            },
        }
        assert(out@ =~= old(out)@ + old(self)@.chord_commands(action, modifier_key, action_type));
    }

    /// Tells whether an ability is held: the middle or right mouse button,
    /// or one of the ability keys.
    pub fn is_ability_key_held(&self) -> (r: bool)
        ensures
            r == self@.ability_held(),
    {
        if self.middle_mouse_held || self.right_mouse_held {
            return true;
        }
        let mut i: usize = 0;
        while i < self.held_keys.len()
            invariant
                i <= self.held_keys.len(),
                forall|j: int| 0 <= j < i ==> !(#[trigger] self.held_keys@[j]).is_ability(),
            decreases self.held_keys.len() - i,
        {
            if self.held_keys[i].is_ability_key() {
                assert(self@.keys[i as int].is_ability());
                return true;
            }
            i += 1;
        }
        false
    }

    /// The ability targets that are held, in a fixed order: the middle and
    /// right mouse buttons, then the keys Q, W, E, R and T.
    pub fn get_held_ability_actions(&self) -> (r: Vec<ButtonOrKey>)
        ensures
            r@ == self@.held_abilities(),
    {
        let mut held_ability_actions: Vec<ButtonOrKey> = Vec::new();
        if self.middle_mouse_held {
            held_ability_actions.push(ButtonOrKey::Button(MouseButton::Middle));
        }
        if self.right_mouse_held {
            held_ability_actions.push(ButtonOrKey::Button(MouseButton::Right));
        }
        if self.is_key_held(Key::KeyQ) {
            held_ability_actions.push(ButtonOrKey::Key(Key::KeyQ));
        }
        if self.is_key_held(Key::KeyW) {
            held_ability_actions.push(ButtonOrKey::Key(Key::KeyW));
        }
        if self.is_key_held(Key::KeyE) {
            held_ability_actions.push(ButtonOrKey::Key(Key::KeyE));
        }
        if self.is_key_held(Key::KeyR) {
            held_ability_actions.push(ButtonOrKey::Key(Key::KeyR));
        }
        if self.is_key_held(Key::KeyT) {
            held_ability_actions.push(ButtonOrKey::Key(Key::KeyT));
        }
        assert(held_ability_actions@ =~= self@.held_abilities());
        held_ability_actions
    }

    /// Lets go of everything held and returns the events that this takes:
    /// the sweep that follows the loss of the controller. No chord is held
    /// afterwards.
    pub fn release_all(&mut self) -> (r: Vec<Command>)
        ensures
            r@ == old(self)@.release_all_commands(),
            old(self)@.distinct(),
            final(self)@ == HeldState::idle(),
    {
        proof {
            use_type_invariant(&*self);
        }
        let mut out: Vec<Command> = Vec::new();
        self.handle_mouse_action(MouseButton::Left, ActionType::Release, &mut out);
        self.handle_mouse_action(MouseButton::Middle, ActionType::Release, &mut out);
        self.handle_mouse_action(MouseButton::Right, ActionType::Release, &mut out);
        let ghost buttons = out@;
        let mut i: usize = 0;
        while i < self.held_keys.len()
            invariant
                i <= self.held_keys.len(),
                out@ == buttons + key_releases(self.held_keys@.take(i as int)),
            decreases self.held_keys.len() - i,
        {
            out.push(Command::KeyRelease(self.held_keys[i]));
            i += 1;
            assert(out@ =~= buttons + key_releases(self.held_keys@.take(i as int)));
        }
        assert(self.held_keys@.take(i as int) =~= self.held_keys@);
        self.held_keys = Vec::new();
        self.held_chords = Vec::new();
        assert(self@.keys =~= Seq::<Key>::empty());
        assert(self@.chords =~= Seq::<Chord>::empty());
        out
    }
}

impl Default for ActionHandler {
    fn default() -> (r: ActionHandler)
        ensures
            r@ == HeldState::idle(),
    {
        ActionHandler::new()
    }
}

} // verus!
