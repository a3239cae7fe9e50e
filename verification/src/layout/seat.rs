//! What a press and a release do.
//!
//! Either changes the layout and says what the embedder is to tell the
//! outside: the submission, which turns keys into text, and the popover.
//! Nothing here reaches the outside by itself.

use vstd::prelude::*;
use crate::action::{Action, Modifier};
use crate::geometry::{Bounds, Point};
use crate::keyboard::{KeyCode, KeyId, KeyState, PressType};
use crate::layout::procedures::{find_key_places, key_places};
use crate::layout::{EekGtkKeyboard, Layout, UIBackend};

verus! {

/// What a pressed key submits.
#[derive(Clone, Debug, PartialEq, Eq)]
pub enum SubmitData {
    /// This text.
    Text(String),
    /// Its keycodes.
    Keycodes,
    /// The erasure of what stands before the cursor.
    Erase,
}

/// What the submission is told about a key that went down.
#[derive(Clone, Debug, PartialEq, Eq)]
pub struct Press {
    pub data: SubmitData,
    /// The keycodes of the key.
    pub keycodes: Vec<KeyCode>,
}

impl Press {
    /// Whether this is what a press of `key` submits: the text of a key
    /// that submits text, the keycodes of one that submits without text,
    /// the erasure of one that erases.
    pub open spec fn is_of(&self, key: KeyState) -> bool {
        &&& self.keycodes@ == key.keycodes@
        &&& match key.action {
            Action::Submit { text: Some(text), .. } => self.data matches SubmitData::Text(sent)
                && sent@ == text@,
            Action::Submit { text: None, .. } => self.data is Keycodes,
            Action::Erase => self.data is Erase,
            _ => false,
        }
    }
}

/// What a press did.
#[derive(Clone, Debug, PartialEq, Eq)]
pub struct PressOutcome {
    /// The key was held down already. That is a fault in the bookkeeping of
    /// whoever sent the press, and worth reporting; the press counts all
    /// the same.
    pub already_pressed: bool,
    /// What to tell the submission, if anything.
    pub submission: Option<Press>,
}

/// What the submission is told about a key that came up.
#[derive(Clone, Copy, Debug, PartialEq, Eq)]
pub enum Release {
    /// The key is up.
    Key,
    /// The key holds this modifier down from now on.
    AddModifier(Modifier),
    /// The key lets go of its modifier.
    DropModifier,
}

/// Where to show the popover.
#[derive(Clone, Copy, Debug, PartialEq, Eq)]
pub struct Popover {
    pub keyboard: EekGtkKeyboard,
    /// The bounds of the button that asked for it, in widget space.
    pub bounds: Bounds,
}

/// What a release did.
#[derive(Clone, Debug, PartialEq, Eq)]
pub struct ReleaseOutcome {
    /// The name of a view that the key asked for and the layout does not
    /// have. Worth reporting; the view that shows has stayed.
    pub missed_view: Option<String>,
    /// What to tell the submission, if anything.
    pub submission: Option<Release>,
    /// Where to show the popover, if at all.
    pub popover: Option<Popover>,
}

/// The test that every key but `key` passes.
pub open spec fn is_other(key: KeyId) -> spec_fn(KeyId) -> bool {
    |held: KeyId| held != key
}

/// The keys among `pressed` that are not `key`, in their order.
pub open spec fn others(pressed: Seq<KeyId>, key: KeyId) -> Seq<KeyId> {
    pressed.filter(is_other(key))
}

/// Whether `modifier` is among `active`.
pub open spec fn is_active(active: Seq<Modifier>, modifier: Modifier) -> bool {
    active.contains(modifier)
}

/// Tells whether `modifier` is among `active`.
fn is_modifier_active(active: &Vec<Modifier>, modifier: Modifier) -> (found: bool)
    ensures
        found == is_active(active@, modifier),
{
    let mut i: usize = 0;
    while i < active.len()
        invariant
            i <= active.len(),
            forall|j: int| 0 <= j < i ==> active@[j] != modifier,
        decreases active.len() - i,
    {
        if active[i] == modifier {
            return true;
        }
        i += 1;
    }
    false
}

/// Returns the place of `key` among `pressed`, if it is there.
fn pressed_position(pressed: &Vec<KeyId>, key: KeyId) -> (found: Option<usize>)
    requires
        pressed@.no_duplicates(),
    ensures
        match found {
            Some(i) => pressed@.contains(key) && i == pressed@.index_of(key),
            None => !pressed@.contains(key),
        },
{
    let mut i: usize = 0;
    while i < pressed.len()
        invariant
            pressed@.no_duplicates(),
            i <= pressed.len(),
            forall|j: int| 0 <= j < i ==> pressed@[j] != key,
        decreases pressed.len() - i,
    {
        if pressed[i].0 == key.0 {
            return Some(i);
        }
        i += 1;
    }
    None
}

/// Whether `after` is what a press of `key` makes of the layout `before`:
/// the key is held down, as the last of the keys held down if it was not
/// among them, and marked as pressed; all else is as it was.
pub open spec fn pressed_from(before: Layout, key: KeyId, after: Layout) -> bool {
    &&& after.margins == before.margins
    &&& after.kind == before.kind
    &&& after.purpose == before.purpose
    &&& after.current_view == before.current_view
    &&& after.view_latched == before.view_latched
    &&& after.views == before.views
    &&& after.keymaps == before.keymaps
    &&& after.pressed_keys@ == if before.pressed_keys@.contains(key) {
        before.pressed_keys@
    } else {
        before.pressed_keys@.push(key)
    }
    &&& after.keys@ == before.keys@.update(
        key.0 as int,
        KeyState { pressed: PressType::Pressed, ..before.keys@[key.0 as int] },
    )
}

/// Presses `key`.
///
/// The key is held down from now on. The outcome says whether it was so
/// already, and what the submission is to be told: what the key submits
/// if it submits or erases, nothing otherwise.
pub fn handle_press_key(layout: &mut Layout, key: KeyId) -> (outcome: PressOutcome)
    requires
        old(layout).wf(),
        key.0 < old(layout).keys@.len(),
    ensures
        final(layout).wf(),
        old(layout).presses_agree() ==> final(layout).presses_agree(),
        pressed_from(*old(layout), key, *final(layout)),
        outcome.already_pressed == old(layout).pressed_keys@.contains(key),
        match outcome.submission {
            Some(press) => press.is_of(old(layout).keys@[key.0 as int]),
            None => !(old(layout).keys@[key.0 as int].action is Submit) && !(old(
                layout,
            ).keys@[key.0 as int].action is Erase),
        },
{
    let already_pressed = pressed_position(&layout.pressed_keys, key).is_some();
    if !already_pressed {
        layout.pressed_keys.push(key);
    }
    let state = &layout.keys[key.0];
    let submission = match &state.action {
        Action::Submit { text: Some(text), keys: _ } => Some(
            Press { data: SubmitData::Text(text.clone()), keycodes: state.keycodes.clone() },
        ),
        Action::Submit { text: None, keys: _ } => Some(
            Press { data: SubmitData::Keycodes, keycodes: state.keycodes.clone() },
        ),
        Action::Erase => Some(Press { data: SubmitData::Erase, keycodes: state.keycodes.clone() }),
        _ => None,
    };
    layout.keys[key.0].pressed = PressType::Pressed;
    proof {
        let before = old(layout).pressed_keys@;
        let now = layout.pressed_keys@;
        assert forall|held: KeyId| #[trigger]
            now.contains(held) <==> before.contains(held) || held == key by {
            if before.contains(held) {
                let at = before.index_of(held);
                assert(now[at] == held);
            }
            if held == key && !before.contains(key) {
                assert(now[now.len() - 1] == held);
            }
            if now.contains(held) && held != key {
                let at = now.index_of(held);
                assert(before[at] == held);
            }
        }
    }
    PressOutcome { already_pressed, submission }
}

/// Whether `after` is what a release of `key` makes of the layout
/// `before`: the view and the latch are as the key's action asks, the key
/// is no longer held down, and is marked as released; all else is as it
/// was.
pub open spec fn released_from(before: Layout, key: KeyId, after: Layout) -> bool {
    let action = before.keys@[key.0 as int].action;
    &&& after.margins == before.margins
    &&& after.kind == before.kind
    &&& after.purpose == before.purpose
    &&& after.views == before.views
    &&& after.keymaps == before.keymaps
    &&& after.current_view@ == before.views.view_after(
        action,
        before.current_view@,
        before.view_latched@,
    )
    &&& after.view_latched@ == Layout::view_transition(
        action,
        before.current_view@,
        before.view_latched@,
    ).1
    &&& after.pressed_keys@ == others(before.pressed_keys@, key)
    &&& after.keys@ == before.keys@.update(
        key.0 as int,
        KeyState { pressed: PressType::Released, ..before.keys@[key.0 as int] },
    )
}

/// What the submission is told when a key with `action` comes up, the
/// modifiers in `active` being held.
///
/// A key that submits or erases is reported as up. A modifier key toggles
/// its modifier: it adds the modifier if that is not active, and lets go
/// otherwise. Of every other key the submission hears nothing.
pub open spec fn release_of(action: Action, active: Seq<Modifier>) -> Option<Release> {
    match action {
        Action::Submit { .. } | Action::Erase => Some(Release::Key),
        Action::ApplyModifier(modifier) => Some(
            if is_active(active, modifier) {
                Release::DropModifier
            } else {
                Release::AddModifier(modifier)
            },
        ),
        _ => None,
    }
}

/// The rectangle that a button covers at its place.
pub open spec fn button_bounds(place: (Point, crate::layout::Button)) -> Bounds {
    Bounds {
        x: place.0.x,
        y: place.0.y,
        width: place.1.size.width,
        height: place.1.size.height,
    }
}

/// Where the popover shows when `key` comes up, if it shows.
///
/// It shows for a key that brings up the preferences, where there is a
/// user interface and a manager to serve it and the view that shows has a
/// button for the key: at the bounds of the first such button, taken to
/// widget space. It does not show where those bounds cannot be written
/// down.
pub open spec fn popover_for(
    layout: Layout,
    ui: Option<UIBackend>,
    has_manager: bool,
    key: KeyId,
) -> Option<Popover> {
    let places = key_places(layout.views.place_of(layout.current_view@).1, key);
    if layout.keys@[key.0 as int].action is ShowPreferences && ui is Some && has_manager
        && places.len() > 0 && ui->0.widget_to_layout.can_reverse_bounds(
        button_bounds(places[0]),
    ) {
        Some(
            Popover {
                keyboard: ui->0.keyboard,
                bounds: ui->0.widget_to_layout.reversed_bounds(button_bounds(places[0])),
            },
        )
    } else {
        None
    }
}

/// Releases `key`.
///
/// The view changes as the action of the key asks; this happens on
/// release, not on press. The key is no longer held down. The outcome
/// says what the submission is to be told, given the modifiers
/// `active_modifiers` that it holds now, and where the popover shows,
/// given the user interface `ui` and whether there is a manager for the
/// popover.
pub fn handle_release_key(
    layout: &mut Layout,
    ui: Option<&UIBackend>,
    has_manager: bool,
    active_modifiers: &Vec<Modifier>,
    key: KeyId,
) -> (outcome: ReleaseOutcome)
    requires
        old(layout).wf(),
        key.0 < old(layout).keys@.len(),
        ui matches Some(backend) ==> backend.widget_to_layout.wf(),
        ui is Some && has_manager && old(layout).keys@[key.0 as int].action is ShowPreferences
            ==> old(layout).has_current_view(),
    ensures
        final(layout).wf(),
        old(layout).has_current_view() ==> final(layout).has_current_view(),
        old(layout).presses_agree() ==> final(layout).presses_agree(),
        released_from(*old(layout), key, *final(layout)),
        match outcome.missed_view {
            Some(name) => Some(name@) == old(layout).views.view_missed(
                old(layout).keys@[key.0 as int].action,
                old(layout).current_view@,
                old(layout).view_latched@,
            ),
            None => old(layout).views.view_missed(
                old(layout).keys@[key.0 as int].action,
                old(layout).current_view@,
                old(layout).view_latched@,
            ) is None,
        },
        outcome.submission == release_of(
            old(layout).keys@[key.0 as int].action,
            active_modifiers@,
        ),
        outcome.popover == popover_for(
            *old(layout),
            match ui {
                Some(backend) => Some(*backend),
                None => None,
            },
            has_manager,
            key,
        ),
{
    let missed_view = crate::layout::transition_view(
        &layout.views,
        &mut layout.current_view,
        &mut layout.view_latched,
        &layout.keys[key.0].action,
    );
    let submission = match &layout.keys[key.0].action {
        Action::Submit { text: _, keys: _ } | Action::Erase => Some(Release::Key),
        Action::ApplyModifier(modifier) => {
            if is_modifier_active(active_modifiers, *modifier) {
                Some(Release::DropModifier)
            } else {
                Some(Release::AddModifier(*modifier))
            }
        },
        _ => None,
    };
    let shows_preferences = match &layout.keys[key.0].action {
        Action::ShowPreferences => true,
        _ => false,
    };
    let popover = match ui {
        // The popover shows only where there is a user interface and a
        // manager to serve it.
        Some(backend) => {
            if shows_preferences && has_manager {
                let view = layout.get_current_view();
                proof {
                    layout.views.lemma_one_place_for_each_name();
                }
                let places = find_key_places(view, key);
                // Where several buttons stand for the key, the first is
                // taken, whichever was activated.
                if places.len() > 0 {
                    let (position, button) = places[0];
                    let bounds = Bounds {
                        x: position.x,
                        y: position.y,
                        width: button.size.width,
                        height: button.size.height,
                    };
                    match backend.widget_to_layout.reverse_bounds(bounds) {
                        Some(bounds) => Some(Popover { keyboard: backend.keyboard, bounds }),
                        None => None,
                    }
                } else {
                    None
                }
            } else {
                None
            }
        },
        None => None,
    };
    match pressed_position(&layout.pressed_keys, key) {
        Some(i) => {
            layout.pressed_keys.remove(i);
            proof {
                crate::util::lemma_filter_one(
                    old(layout).pressed_keys@,
                    is_other(key),
                    i as int,
                );
            }
        },
        None => {
            proof {
                crate::util::lemma_filter_all(old(layout).pressed_keys@, is_other(key));
            }
        },
    }
    proof {
        let before = old(layout).pressed_keys@;
        let now = layout.pressed_keys@;
        assert forall|held: KeyId| #[trigger]
            now.contains(held) <==> before.contains(held) && held != key by {
            if before.contains(held) && held != key {
                let at = before.index_of(held);
                if before.contains(key) && at > before.index_of(key) {
                    assert(now[at - 1] == held);
                } else {
                    assert(now[at] == held);
                }
            }
            if now.contains(held) {
                let at = now.index_of(held);
                if before.contains(key) && at >= before.index_of(key) {
                    assert(before[at + 1] == held);
                } else {
                    assert(before[at] == held);
                }
            }
        }
    }
    layout.keys[key.0].pressed = PressType::Released;
    ReleaseOutcome { missed_view, submission, popover }
}

} // verus!
