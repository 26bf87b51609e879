//! The settings of the engine: what each controller button is bound to,
//! which buttons follow the aiming stick, how far each ability reaches, and
//! the thresholds and radii of the controller.
//!
//! Settings are written with names for buttons and binding targets. They are
//! checked once, by [`sanitize_settings`], and read-only from then on.

use vstd::prelude::*;
use crate::binding::{binding_of_text, string_to_buttonorkey, ButtonOrKey};
use crate::controller::action_manager::ActionDistance;
use crate::controller::input::ControllerTypeDetection;
use crate::pad::{
    pad_button_named,
    string_to_controller_button,
    PadButton,
    ABILITY_BUTTONS,
    TRACKED_BUTTONS,
};
use crate::text::lowercase_of;

verus! {

/// What the overlay shows and how large the screen is, in whole pixels.
#[derive(Clone, Copy, Debug, PartialEq, Eq, Structural)]
pub struct OverlaySettings {
    pub screen_height: i32,
    pub screen_width: i32,
    pub show_crosshair: bool,
    pub show_buttons: bool,
    pub always_show_overlay: bool,
    pub windowed_mode: bool,
}

impl OverlaySettings {
    /// The height of the screen, in whole pixels.
    pub fn screen_height(&self) -> (r: i32)
        ensures
            r == self.screen_height,
    {
        self.screen_height
    }

    /// The width of the screen, in whole pixels.
    pub fn screen_width(&self) -> (r: i32)
        ensures
            r == self.screen_width,
    {
        self.screen_width
    }

    /// Whether the overlay marks where the character stands.
    pub fn show_crosshair(&self) -> (r: bool)
        ensures
            r == self.show_crosshair,
    {
        self.show_crosshair
    }

    /// Whether the overlay shows the glyphs of the buttons.
    pub fn show_buttons(&self) -> (r: bool)
        ensures
            r == self.show_buttons,
    {
        self.show_buttons
    }

    /// Whether the overlay is shown whatever window has the focus.
    pub fn always_show_overlay(&self) -> (r: bool)
        ensures
            r == self.always_show_overlay,
    {
        self.always_show_overlay
    }

    /// Whether the game runs in a window.
    pub fn windowed_mode(&self) -> (r: bool)
        ensures
            r == self.windowed_mode,
    {
        self.windowed_mode
    }
}

/// The thresholds of the controller, as levels, and the radii of the
/// circles on which the cursor is placed.
///
/// The engine only compares radii, with each other and with zero, so any
/// scale that keeps their order and their sign will do; whole pixels are the
/// natural one.
#[derive(Clone, Copy, Debug, PartialEq, Eq, Structural)]
pub struct ControllerSettings {
    pub controller_deadzone: i32,
    pub trigger_threshold: i32,
    pub walk_circle_radius_px: i32,
    pub close_circle_radius_px: i32,
    pub mid_circle_radius_px: i32,
    pub far_circle_radius_px: i32,
    pub controller_type: ControllerTypeDetection,
}

impl ControllerSettings {
    /// The radius of the circle of a distance tier; that of the walking
    /// circle where no tier is set.
    pub open spec fn radius_of(self, distance: ActionDistance) -> i32 {
        match distance {
            ActionDistance::Close => self.close_circle_radius_px,
            ActionDistance::Mid => self.mid_circle_radius_px,
            ActionDistance::Far => self.far_circle_radius_px,
            ActionDistance::Unset => self.walk_circle_radius_px,
        }
    }

    /// The deadzone of both sticks, as a level.
    pub fn controller_deadzone(&self) -> (r: i32)
        ensures
            r == self.controller_deadzone,
    {
        self.controller_deadzone
    }

    /// The level beyond which a trigger counts as down.
    pub fn trigger_threshold(&self) -> (r: i32)
        ensures
            r == self.trigger_threshold,
    {
        self.trigger_threshold
    }

    /// The radius of the walking circle.
    pub fn walk_circle_radius_px(&self) -> (r: i32)
        ensures
            r == self.walk_circle_radius_px,
    {
        self.walk_circle_radius_px
    }

    /// The radius of the circle of the close tier.
    pub fn close_circle_radius_px(&self) -> (r: i32)
        ensures
            r == self.close_circle_radius_px,
    {
        self.close_circle_radius_px
    }

    /// The radius of the circle of the mid tier.
    pub fn mid_circle_radius_px(&self) -> (r: i32)
        ensures
            r == self.mid_circle_radius_px,
    {
        self.mid_circle_radius_px
    }

    /// The radius of the circle of the far tier.
    pub fn far_circle_radius_px(&self) -> (r: i32)
        ensures
            r == self.far_circle_radius_px,
    {
        self.far_circle_radius_px
    }

    /// How the family of the controller is found.
    pub fn controller_type(&self) -> (r: ControllerTypeDetection)
        ensures
            r == self.controller_type,
    {
        self.controller_type
    }

    /// The radius of the circle of a distance tier; that of the walking
    /// circle where no tier is set.
    pub fn circle_radius_px(&self, distance: ActionDistance) -> (r: i32)
        ensures
            r == self.radius_of(distance),
    {
        match distance {
            ActionDistance::Close => self.close_circle_radius_px,
            ActionDistance::Mid => self.mid_circle_radius_px,
            ActionDistance::Far => self.far_circle_radius_px,
            ActionDistance::Unset => self.walk_circle_radius_px,
        }
    }
}

/// The last of the first `count` buttons of the engine's tables that is
/// bound to `target`.
pub open spec fn last_bound_to(
    bindings: Seq<ButtonOrKey>,
    target: ButtonOrKey,
    count: nat,
) -> Option<PadButton>
    decreases count,
{
    if count == 0 {
        None
    } else if bindings[count - 1] == target {
        Some(PadButton::spec_at((count - 1) as nat))
    } else {
        last_bound_to(bindings, target, (count - 1) as nat)
    }
}

/// The mathematical content of checked settings.
pub ghost struct SettingsModel {
    pub overlay: OverlaySettings,
    pub controller: ControllerSettings,
    /// The binding target of each tracked button, in the order of the
    /// engine's tables.
    pub bindings: Seq<ButtonOrKey>,
    /// The buttons that follow the aiming stick.
    pub aimable: Seq<PadButton>,
    /// The distance tier of each tracked button, in the order of the
    /// engine's tables.
    pub distances: Seq<ActionDistance>,
}

impl SettingsModel {
    /// Whether the tables are complete and only ability buttons are aimable
    /// or have a distance tier.
    pub open spec fn wf(self) -> bool {
        &&& self.bindings.len() == TRACKED_BUTTONS
        &&& self.distances.len() == TRACKED_BUTTONS
        &&& forall|i: int|
            ABILITY_BUTTONS <= i < TRACKED_BUTTONS ==> self.distances[i] == ActionDistance::Unset
        &&& forall|i: int| 0 <= i < self.aimable.len() ==> (#[trigger] self.aimable[i]).is_ability()
        &&& !(self.overlay.always_show_overlay && self.overlay.windowed_mode)
    }

    /// What a button is bound to; nothing for an untracked button.
    pub open spec fn resolve(self, button: PadButton) -> ButtonOrKey {
        if button.is_tracked() {
            self.bindings[button.spec_index() as int]
        } else {
            ButtonOrKey::Empty
        }
    }

    /// The ability button that a binding target belongs to: of the ability
    /// buttons bound to that target, the last in the order of the engine's
    /// tables.
    pub open spec fn ability_name_for(self, target: ButtonOrKey) -> Option<PadButton> {
        last_bound_to(self.bindings, target, ABILITY_BUTTONS as nat)
    }

    /// Whether a button follows the aiming stick.
    pub open spec fn is_aimable(self, button: PadButton) -> bool {
        self.aimable.contains(button)
    }

    /// The distance tier of a button; none for an untracked button.
    pub open spec fn distance_of(self, button: PadButton) -> ActionDistance {
        if button.is_tracked() {
            self.distances[button.spec_index() as int]
        } else {
            ActionDistance::Unset
        }
    }
}

/// A copy of a vector of plain values.
fn copy_of<T: Copy>(items: &Vec<T>) -> (r: Vec<T>)
    ensures
        r@ == items@,
{
    let mut out: Vec<T> = Vec::new();
    let mut i: usize = 0;
    while i < items.len()
        invariant
            i <= items.len(),
            out@ == items@.take(i as int),
        decreases items.len() - i,
    {
        out.push(items[i]);
        i += 1;
        assert(out@ =~= items@.take(i as int));
    }
    assert(items@.take(i as int) =~= items@);
    out
}

/// Checked settings.
#[derive(Debug)]
pub struct ApplicationSettings {
    overlay_settings: OverlaySettings,
    button_mapping_settings: Vec<ButtonOrKey>,
    aimable_buttons: Vec<PadButton>,
    action_distances: Vec<ActionDistance>,
    controller_settings: ControllerSettings,
}

impl View for ApplicationSettings {
    type V = SettingsModel;

    closed spec fn view(&self) -> SettingsModel {
        SettingsModel {
            overlay: self.overlay_settings,
            controller: self.controller_settings,
            bindings: self.button_mapping_settings@,
            aimable: self.aimable_buttons@,
            distances: self.action_distances@,
        }
    }
}

impl ApplicationSettings {
    /// Every value of this type is well formed.
    #[verifier::type_invariant]
    pub open spec fn inv(self) -> bool {
        self@.wf()
    }

    /// The settings of the overlay.
    pub fn overlay_settings(&self) -> (r: OverlaySettings)
        ensures
            r == self@.overlay,
    {
        self.overlay_settings
    }

    /// The settings of the controller.
    pub fn controller_settings(&self) -> (r: ControllerSettings)
        ensures
            r == self@.controller,
    {
        self.controller_settings
    }

    /// The binding target of each tracked button, in the order of the
    /// engine's tables.
    pub fn button_mapping_settings(&self) -> (r: Vec<ButtonOrKey>)
        ensures
            r@ == self@.bindings,
    {
        copy_of(&self.button_mapping_settings)
    }

    /// The buttons that follow the aiming stick.
    pub fn aimable_buttons(&self) -> (r: Vec<PadButton>)
        ensures
            r@ == self@.aimable,
    {
        copy_of(&self.aimable_buttons)
    }

    /// The distance tier of each tracked button, in the order of the
    /// engine's tables.
    pub fn action_distances(&self) -> (r: Vec<ActionDistance>)
        ensures
            r@ == self@.distances,
    {
        copy_of(&self.action_distances)
    }

    /// What a button is bound to; nothing for an untracked button.
    pub fn resolve(&self, button: PadButton) -> (r: ButtonOrKey)
        ensures
            r == self@.resolve(button),
    {
        proof {
            use_type_invariant(self);
        }
        let i = button.index();
        if i < TRACKED_BUTTONS {
            self.button_mapping_settings[i]
        } else {
            ButtonOrKey::Empty
        }
    }

    /// The ability button that a binding target belongs to, if any.
    pub fn ability_name_for(&self, target: ButtonOrKey) -> (r: Option<PadButton>)
        ensures
            r == self@.ability_name_for(target),
    {
        proof {
            use_type_invariant(self);
        }
        let mut count: usize = ABILITY_BUTTONS;
        while count > 0
            invariant
                count <= ABILITY_BUTTONS,
                self.button_mapping_settings@.len() == TRACKED_BUTTONS,
                last_bound_to(self.button_mapping_settings@, target, count as nat)
                    == last_bound_to(self.button_mapping_settings@, target, ABILITY_BUTTONS as nat),
            decreases count,
        {
            if self.button_mapping_settings[count - 1] == target {
                return Some(PadButton::at(count - 1));
            }
            count -= 1;
        }
        None
    }

    /// Tells whether a button follows the aiming stick.
    pub fn is_aimable(&self, button: PadButton) -> (r: bool)
        ensures
            r == self@.is_aimable(button),
    {
        let mut i: usize = 0;
        while i < self.aimable_buttons.len()
            invariant
                i <= self.aimable_buttons.len(),
                forall|j: int| 0 <= j < i ==> self.aimable_buttons@[j] != button,
            decreases self.aimable_buttons.len() - i,
        {
            if self.aimable_buttons[i] == button {
                return true;
            }
            i += 1;
        }
        false
    }

    /// The distance tier of a button; none for an untracked button.
    pub fn get_ability_action_distance(&self, button: PadButton) -> (r: ActionDistance)
        ensures
            r == self@.distance_of(button),
    {
        proof {
            use_type_invariant(self);
        }
        let i = button.index();
        if i < TRACKED_BUTTONS {
            self.action_distances[i]
        } else {
            ActionDistance::Unset
        }
    }
}

impl Clone for ApplicationSettings {
    fn clone(&self) -> (r: ApplicationSettings)
        ensures
            r@ == self@,
    {
        proof {
            use_type_invariant(self);
        }
        ApplicationSettings {
            overlay_settings: self.overlay_settings,
            button_mapping_settings: copy_of(&self.button_mapping_settings),
            aimable_buttons: copy_of(&self.aimable_buttons),
            action_distances: copy_of(&self.action_distances),
            controller_settings: self.controller_settings,
        }
    }
}

/// Settings as they are written: buttons and binding targets by name, in
/// the order in which they were written. Where a button is named more than
/// once, the last entry counts.
#[derive(Debug)]
pub struct SettingsSource {
    pub overlay: OverlaySettings,
    /// A binding target for each button.
    pub button_mapping: Vec<(String, String)>,
    /// The buttons that follow the aiming stick.
    pub aimable_buttons: Vec<String>,
    /// A distance tier for some of the buttons.
    pub action_distances: Vec<(String, ActionDistance)>,
    pub controller: ControllerSettings,
}

/// Why settings were turned down. Where several reasons hold, the first in
/// the order written here is given; an index is that of the first entry at
/// fault.
#[derive(Clone, Copy, Debug, PartialEq, Eq, Structural)]
pub enum SettingsError {
    /// The overlay is to be shown always, and in windowed mode.
    WindowedAlwaysShown,
    /// An entry of the button mapping gives a target that is not a binding
    /// name.
    UnrecognizedBinding(usize),
    /// An entry of the distance tiers names no ability button.
    InvalidDistanceButton(usize),
    /// The button mapping has no entry for a tracked button; the first such
    /// button in the order of the engine's tables is given.
    MissingButton(PadButton),
    /// An entry of the button mapping names no tracked button.
    UnexpectedButton(usize),
    /// An entry of the aimable buttons names no ability button.
    InvalidAimableButton(usize),
}

/// The index of the first item that is at fault, if any is.
pub open spec fn first_index<T>(items: Seq<T>, at_fault: spec_fn(T) -> bool) -> Option<int>
    decreases items.len(),
{
    if items.len() == 0 {
        None
    } else {
        match first_index(items.drop_last(), at_fault) {
            Some(i) => Some(i),
            None => if at_fault(items.last()) {
                Some(items.len() - 1)
            } else {
                None
            },
        }
    }
}

/// The first item at fault in a prefix is the first at fault in the whole.
pub proof fn lemma_first_index_prefix<T>(
    items: Seq<T>,
    at_fault: spec_fn(T) -> bool,
    k: int,
    i: int,
)
    requires
        0 <= k <= items.len(),
        first_index(items.take(k), at_fault) == Some(i),
    ensures
        first_index(items, at_fault) == Some(i),
    decreases items.len() - k,
{
    if k < items.len() {
        assert(items.take(k + 1).drop_last() =~= items.take(k));
        lemma_first_index_prefix(items, at_fault, k + 1, i);
    } else {
        assert(items.take(k) =~= items);
    }
}

/// The first item at fault is at fault, and nothing before it is; where
/// there is none, no item is at fault.
pub proof fn lemma_first_index_is_first<T>(items: Seq<T>, at_fault: spec_fn(T) -> bool)
    ensures
        match first_index(items, at_fault) {
            Some(i) => 0 <= i < items.len() && at_fault(items[i]) && forall|j: int|
                0 <= j < i ==> !at_fault(#[trigger] items[j]),
            None => forall|j: int| 0 <= j < items.len() ==> !at_fault(#[trigger] items[j]),
        },
    decreases items.len(),
{
    if items.len() > 0 {
        lemma_first_index_is_first(items.drop_last(), at_fault);
        assert forall|j: int| 0 <= j < items.len() - 1 implies items.drop_last()[j]
            == items[j] by {}
        match first_index(items.drop_last(), at_fault) {
            Some(i) => {
                assert(items.drop_last()[i] == items[i]);
                assert forall|j: int| 0 <= j < i implies !at_fault(#[trigger] items[j]) by {
                    assert(items.drop_last()[j] == items[j]);
                }
            },
            None => {
                assert forall|j: int| 0 <= j < items.len() - 1 implies !at_fault(
                    #[trigger] items[j],
                ) by {
                    assert(items.drop_last()[j] == items[j]);
                }
            },
        }
    }
}

/// The button that an entry names.
pub open spec fn button_of_name(name: String) -> PadButton {
    pad_button_named(lowercase_of(name@))
}

/// The binding target that an entry gives.
pub open spec fn target_of_name(name: String) -> Option<ButtonOrKey> {
    binding_of_text(lowercase_of(name@))
}

/// Whether an entry of the button mapping gives no binding name.
pub open spec fn unreadable_target() -> spec_fn((String, String)) -> bool {
    |entry: (String, String)| target_of_name(entry.1) is None
}

/// Whether an entry of the button mapping names no tracked button.
pub open spec fn untracked_button() -> spec_fn((String, String)) -> bool {
    |entry: (String, String)| !button_of_name(entry.0).is_tracked()
}

/// Whether an entry of the distance tiers names no ability button.
pub open spec fn distance_without_ability() -> spec_fn((String, ActionDistance)) -> bool {
    |entry: (String, ActionDistance)| !button_of_name(entry.0).is_ability()
}

/// Whether a name names no ability button.
pub open spec fn name_without_ability() -> spec_fn(String) -> bool {
    |name: String| !button_of_name(name).is_ability()
}

/// The binding target written for each button, the last entry for a button
/// counting: one slot per tracked button, in the order of the engine's
/// tables, and a last slot for all untracked ones.
pub open spec fn binding_slots(entries: Seq<(String, String)>) -> Seq<Option<ButtonOrKey>>
    decreases entries.len(),
{
    if entries.len() == 0 {
        Seq::new((TRACKED_BUTTONS + 1) as nat, |i: int| None)
    } else {
        binding_slots(entries.drop_last()).update(
            button_of_name(entries.last().0).spec_index() as int,
            target_of_name(entries.last().1),
        )
    }
}

/// The distance tier written for each button, the last entry for a button
/// counting, with slots as in [`binding_slots`].
pub open spec fn distance_slots(entries: Seq<(String, ActionDistance)>) -> Seq<ActionDistance>
    decreases entries.len(),
{
    if entries.len() == 0 {
        Seq::new((TRACKED_BUTTONS + 1) as nat, |i: int| ActionDistance::Unset)
    } else {
        distance_slots(entries.drop_last()).update(
            button_of_name(entries.last().0).spec_index() as int,
            entries.last().1,
        )
    }
}

/// Whether a slot is empty.
pub open spec fn empty_slot() -> spec_fn(Option<ButtonOrKey>) -> bool {
    |slot: Option<ButtonOrKey>| slot is None
}

/// The first tracked button, in the order of the engine's tables, that has
/// an empty slot.
pub open spec fn first_missing(slots: Seq<Option<ButtonOrKey>>) -> Option<int> {
    first_index(slots.take(TRACKED_BUTTONS as int), empty_slot())
}

impl SettingsSource {
    /// Why these settings are turned down, or `None` where they are sound.
    pub open spec fn fault(self) -> Option<SettingsError> {
        if self.overlay.always_show_overlay && self.overlay.windowed_mode {
            Some(SettingsError::WindowedAlwaysShown)
        } else if let Some(i) = first_index(self.button_mapping@, unreadable_target()) {
            Some(SettingsError::UnrecognizedBinding(i as usize))
        } else if let Some(i) = first_index(self.action_distances@, distance_without_ability()) {
            Some(SettingsError::InvalidDistanceButton(i as usize))
        } else if let Some(i) = first_missing(binding_slots(self.button_mapping@)) {
            Some(SettingsError::MissingButton(PadButton::spec_at(i as nat)))
        } else if let Some(i) = first_index(self.button_mapping@, untracked_button()) {
            Some(SettingsError::UnexpectedButton(i as usize))
        } else if let Some(i) = first_index(self.aimable_buttons@, name_without_ability()) {
            Some(SettingsError::InvalidAimableButton(i as usize))
        } else {
            None
        }
    }

    /// What these settings say, where they are sound.
    pub open spec fn meaning(self) -> SettingsModel {
        SettingsModel {
            overlay: self.overlay,
            controller: self.controller,
            bindings: Seq::new(
                TRACKED_BUTTONS as nat,
                |i: int| binding_slots(self.button_mapping@)[i]->0,
            ),
            aimable: Seq::new(
                self.aimable_buttons@.len(),
                |i: int| button_of_name(self.aimable_buttons@[i]),
            ),
            distances: distance_slots(self.action_distances@).take(TRACKED_BUTTONS as int),
        }
    }
}

/// The slots of the distance tiers: there is one for each tracked button
/// and one more, and where every entry names an ability button, only the
/// slots of ability buttons are filled.
proof fn lemma_distance_slots(entries: Seq<(String, ActionDistance)>)
    ensures
        distance_slots(entries).len() == TRACKED_BUTTONS + 1,
        first_index(entries, distance_without_ability()) is None ==> forall|i: int|
            ABILITY_BUTTONS <= i <= TRACKED_BUTTONS ==> distance_slots(entries)[i]
                == ActionDistance::Unset,
    decreases entries.len(),
{
    if entries.len() > 0 {
        lemma_distance_slots(entries.drop_last());
    }
}

/// The slots of the button mapping: there is one for each tracked button
/// and one more.
proof fn lemma_binding_slots(entries: Seq<(String, String)>)
    ensures
        binding_slots(entries).len() == TRACKED_BUTTONS + 1,
    decreases entries.len(),
{
    if entries.len() > 0 {
        lemma_binding_slots(entries.drop_last());
    }
}

/// Sound settings are complete. Where settings are not turned down, every
/// tracked button has a binding target, only ability buttons are aimable or
/// have a distance tier, and the overlay is not both windowed and always
/// shown.
pub proof fn law_sound_settings_are_complete(source: SettingsSource)
    requires
        source.fault() is None,
    ensures
        source.meaning().wf(),
        forall|i: int|
            0 <= i < TRACKED_BUTTONS ==> (#[trigger] binding_slots(source.button_mapping@)[i])
                == Some(source.meaning().bindings[i]),
{
    let model = source.meaning();
    lemma_distance_slots(source.action_distances@);
    lemma_binding_slots(source.button_mapping@);
    lemma_first_index_is_first(source.aimable_buttons@, name_without_ability());
    let slots = binding_slots(source.button_mapping@);
    lemma_first_index_is_first(slots.take(TRACKED_BUTTONS as int), empty_slot());
    assert forall|i: int| 0 <= i < TRACKED_BUTTONS implies (#[trigger] slots[i]) == Some(
        model.bindings[i],
    ) by {
        assert(slots.take(TRACKED_BUTTONS as int)[i] == slots[i]);
    }
    assert forall|i: int| 0 <= i < model.aimable.len() implies (
    #[trigger] model.aimable[i]).is_ability() by {
        assert(!name_without_ability()(source.aimable_buttons@[i]));
    }
}

/// Extending a sequence whose items are all sound by one more item: the
/// first item at fault is the new one, if it is at fault.
proof fn lemma_first_index_step<T>(items: Seq<T>, at_fault: spec_fn(T) -> bool, k: int)
    requires
        0 <= k < items.len(),
        first_index(items.take(k), at_fault) is None,
    ensures
        first_index(items.take(k + 1), at_fault) == (if at_fault(items[k]) {
            Some(k)
        } else {
            None
        }),
{
    assert(items.take(k + 1).drop_last() =~= items.take(k));
}

/// Reads the button mapping into slots. Stops at the first entry whose
/// target is not a binding name.
fn read_button_mapping(entries: &Vec<(String, String)>) -> (r: Result<
    (Vec<Option<ButtonOrKey>>, Option<usize>),
    usize,
>)
    ensures
        match r {
            Ok((slots, untracked)) => {
                &&& first_index(entries@, unreadable_target()) is None
                &&& slots@ == binding_slots(entries@)
                &&& slots@.len() == TRACKED_BUTTONS + 1
                &&& match untracked {
                    Some(i) => first_index(entries@, untracked_button()) == Some(i as int),
                    None => first_index(entries@, untracked_button()) is None,
                }
            },
            Err(i) => first_index(entries@, unreadable_target()) == Some(i as int),
        },
{
    let mut slots: Vec<Option<ButtonOrKey>> = Vec::new();
    let mut n: usize = 0;
    while n <= TRACKED_BUTTONS
        invariant
            n <= TRACKED_BUTTONS + 1,
            slots@.len() == n,
            forall|j: int| 0 <= j < n ==> slots@[j] is None,
        decreases TRACKED_BUTTONS + 1 - n,
    {
        slots.push(None);
        n += 1;
    }
    assert(slots@ =~= binding_slots(entries@.take(0)));
    let mut untracked: Option<usize> = None;
    let mut i: usize = 0;
    while i < entries.len()
        invariant
            i <= entries.len(),
            slots@.len() == TRACKED_BUTTONS + 1,
            slots@ == binding_slots(entries@.take(i as int)),
            first_index(entries@.take(i as int), unreadable_target()) is None,
            match untracked {
                Some(u) => first_index(entries@.take(i as int), untracked_button()) == Some(
                    u as int,
                ),
                None => first_index(entries@.take(i as int), untracked_button()) is None,
            },
        decreases entries.len() - i,
    {
        let button = string_to_controller_button(entries[i].0.as_str());
        let target = string_to_buttonorkey(entries[i].1.as_str());
        proof {
            lemma_first_index_step(entries@, unreadable_target(), i as int);
            assert(entries@.take(i + 1).drop_last() =~= entries@.take(i as int));
        }
        if target.is_none() {
            proof {
                lemma_first_index_prefix(entries@, unreadable_target(), i + 1, i as int);
            }
            return Err(i);
        }
        if untracked.is_none() {
            proof {
                lemma_first_index_step(entries@, untracked_button(), i as int);
            }
            if button.index() >= TRACKED_BUTTONS {
                untracked = Some(i);
            }
        }
        slots[button.index()] = target;
        i += 1;
    }
    assert(entries@.take(i as int) =~= entries@);
    Ok((slots, untracked))
}

/// Reads the distance tiers into slots. Stops at the first entry that names
/// no ability button.
fn read_action_distances(entries: &Vec<(String, ActionDistance)>) -> (r: Result<
    Vec<ActionDistance>,
    usize,
>)
    ensures
        match r {
            Ok(slots) => {
                &&& first_index(entries@, distance_without_ability()) is None
                &&& slots@ == distance_slots(entries@)
                &&& slots@.len() == TRACKED_BUTTONS + 1
                &&& forall|j: int|
                    ABILITY_BUTTONS <= j <= TRACKED_BUTTONS ==> slots@[j] == ActionDistance::Unset
            },
            Err(i) => first_index(entries@, distance_without_ability()) == Some(i as int),
        },
{
    let mut slots: Vec<ActionDistance> = Vec::new();
    let mut n: usize = 0;
    while n <= TRACKED_BUTTONS
        invariant
            n <= TRACKED_BUTTONS + 1,
            slots@.len() == n,
            forall|j: int| 0 <= j < n ==> slots@[j] == ActionDistance::Unset,
        decreases TRACKED_BUTTONS + 1 - n,
    {
        slots.push(ActionDistance::Unset);
        n += 1;
    }
    assert(slots@ =~= distance_slots(entries@.take(0)));
    let mut i: usize = 0;
    while i < entries.len()
        invariant
            i <= entries.len(),
            slots@.len() == TRACKED_BUTTONS + 1,
            slots@ == distance_slots(entries@.take(i as int)),
            forall|j: int|
                ABILITY_BUTTONS <= j <= TRACKED_BUTTONS ==> slots@[j] == ActionDistance::Unset,
            first_index(entries@.take(i as int), distance_without_ability()) is None,
        decreases entries.len() - i,
    {
        let button = string_to_controller_button(entries[i].0.as_str());
        proof {
            lemma_first_index_step(entries@, distance_without_ability(), i as int);
            assert(entries@.take(i + 1).drop_last() =~= entries@.take(i as int));
        }
        if !button.is_ability_button() {
            proof {
                lemma_first_index_prefix(entries@, distance_without_ability(), i + 1, i as int);
            }
            return Err(i);
        }
        slots[button.index()] = entries[i].1;
        i += 1;
    }
    assert(entries@.take(i as int) =~= entries@);
    Ok(slots)
}

/// Reads the names of the aimable buttons. Stops at the first that names no
/// ability button.
fn read_aimable_buttons(names: &Vec<String>) -> (r: Result<Vec<PadButton>, usize>)
    ensures
        match r {
            Ok(buttons) => {
                &&& first_index(names@, name_without_ability()) is None
                &&& buttons@ == Seq::new(names@.len(), |i: int| button_of_name(names@[i]))
                &&& forall|j: int| 0 <= j < buttons@.len() ==> (#[trigger] buttons@[j]).is_ability()
            },
            Err(i) => first_index(names@, name_without_ability()) == Some(i as int),
        },
{
    let mut buttons: Vec<PadButton> = Vec::new();
    let mut i: usize = 0;
    while i < names.len()
        invariant
            i <= names.len(),
            buttons@.len() == i,
            forall|j: int| 0 <= j < i ==> #[trigger] buttons@[j] == button_of_name(names@[j]),
            forall|j: int| 0 <= j < i ==> (#[trigger] buttons@[j]).is_ability(),
            first_index(names@.take(i as int), name_without_ability()) is None,
        decreases names.len() - i,
    {
        let button = string_to_controller_button(names[i].as_str());
        proof {
            lemma_first_index_step(names@, name_without_ability(), i as int);
        }
        if !button.is_ability_button() {
            proof {
                lemma_first_index_prefix(names@, name_without_ability(), i + 1, i as int);
            }
            return Err(i);
        }
        buttons.push(button);
        i += 1;
    }
    assert(names@.take(i as int) =~= names@);
    assert(buttons@ =~= Seq::new(names@.len(), |i: int| button_of_name(names@[i])));
    Ok(buttons)
}

/// Takes the binding targets of the tracked buttons out of their slots.
/// Stops at the first tracked button whose slot is empty.
fn complete_bindings(slots: &Vec<Option<ButtonOrKey>>) -> (r: Result<Vec<ButtonOrKey>, PadButton>)
    requires
        slots@.len() == TRACKED_BUTTONS + 1,
    ensures
        match r {
            Ok(bindings) => {
                &&& first_missing(slots@) is None
                &&& bindings@ == Seq::new(TRACKED_BUTTONS as nat, |i: int| slots@[i]->0)
            },
            Err(button) => first_missing(slots@) matches Some(i) && button == PadButton::spec_at(
                i as nat,
            ),
        },
{
    let ghost listed = slots@.take(TRACKED_BUTTONS as int);
    let mut bindings: Vec<ButtonOrKey> = Vec::new();
    let mut i: usize = 0;
    while i < TRACKED_BUTTONS
        invariant
            i <= TRACKED_BUTTONS,
            slots@.len() == TRACKED_BUTTONS + 1,
            listed == slots@.take(TRACKED_BUTTONS as int),
            bindings@.len() == i,
            forall|j: int| 0 <= j < i ==> #[trigger] bindings@[j] == slots@[j]->0,
            first_index(listed.take(i as int), empty_slot()) is None,
        decreases TRACKED_BUTTONS - i,
    {
        proof {
            lemma_first_index_step(listed, empty_slot(), i as int);
        }
        match slots[i] {
            Some(target) => {
                bindings.push(target);
            },
            None => {
                proof {
                    lemma_first_index_prefix(listed, empty_slot(), i + 1, i as int);
                }
                return Err(PadButton::at(i));
            },
        }
        i += 1;
    }
    assert(listed.take(i as int) =~= listed);
    assert(bindings@ =~= Seq::new(TRACKED_BUTTONS as nat, |i: int| slots@[i]->0));
    Ok(bindings)
}

/// Checks settings as written and gives them in checked form, or the first
/// reason why they are turned down.
pub fn sanitize_settings(source: &SettingsSource) -> (r: Result<ApplicationSettings, SettingsError>)
    ensures
        match r {
            Ok(settings) => source.fault() is None && settings@ == source.meaning(),
            Err(error) => source.fault() == Some(error),
        },
{
    if source.overlay.always_show_overlay && source.overlay.windowed_mode {
        return Err(SettingsError::WindowedAlwaysShown);
    }
    let (slots, untracked) = match read_button_mapping(&source.button_mapping) {
        Ok(read) => read,
        Err(i) => {
            return Err(SettingsError::UnrecognizedBinding(i));
        },
    };
    let distance_slots = match read_action_distances(&source.action_distances) {
        Ok(read) => read,
        Err(i) => {
            return Err(SettingsError::InvalidDistanceButton(i));
        },
    };
    let bindings = match complete_bindings(&slots) {
        Ok(bindings) => bindings,
        Err(button) => {
            return Err(SettingsError::MissingButton(button));
        },
    };
    if let Some(i) = untracked {
        return Err(SettingsError::UnexpectedButton(i));
    }
    let aimable = match read_aimable_buttons(&source.aimable_buttons) {
        Ok(buttons) => buttons,
        Err(i) => {
            return Err(SettingsError::InvalidAimableButton(i));
        },
    };
    let mut distances: Vec<ActionDistance> = Vec::new();
    let mut i: usize = 0;
    while i < TRACKED_BUTTONS
        invariant
            i <= TRACKED_BUTTONS,
            distance_slots@.len() == TRACKED_BUTTONS + 1,
            distances@ == distance_slots@.take(i as int),
        decreases TRACKED_BUTTONS - i,
    {
        distances.push(distance_slots[i]);
        i += 1;
        assert(distances@ =~= distance_slots@.take(i as int));
    }
    let settings = ApplicationSettings {
        overlay_settings: source.overlay,
        button_mapping_settings: bindings,
        aimable_buttons: aimable,
        action_distances: distances,
        controller_settings: source.controller,
    };
    Ok(settings)
}

} // verus!
