//! The state that decides whether the panel shows, and what it tells the
//! input method.
//!
//! The state changes by one event at a time. What the outside sees is
//! derived from the state and the clock, and never stored: the panel stays
//! up for a short while after the input method went away, so a wake-up
//! that arrives when the time has run out brings it down without any
//! further event.

use vstd::prelude::*;
use std::collections::HashMap;
use crate::animation;
use crate::animation::HIDING_TIMEOUT;
use crate::debug;
use crate::imservice::{ContentHint, ContentPurpose};
use crate::outputs;
use crate::outputs::{ChangeType, OutputId, OutputState};
use crate::panel;
use crate::panel::PixelSize;
use crate::time::Instant;

pub mod visibility;

verus! {

broadcast use vstd::std_specs::hash::group_hash_axioms;

/// Whether a physical keyboard is attached.
#[derive(Clone, Copy, Debug, PartialEq, Eq, Structural)]
pub enum Presence {
    Present,
    Missing,
}

/// What an active input method wants of the keyboard.
#[derive(Clone, Copy, Debug, PartialEq, Eq, Structural)]
pub struct InputMethodDetails {
    pub hint: ContentHint,
    pub purpose: ContentPurpose,
}

/// Whether a text field wants input.
#[derive(Clone, Copy, Debug, PartialEq, Eq, Structural)]
pub enum InputMethod {
    Active(InputMethodDetails),
    InactiveSince(Instant),
}

/// An event that changes the state.
#[derive(Clone, Copy, Debug, PartialEq, Eq)]
pub enum Event {
    InputMethod(InputMethod),
    Visibility(visibility::Event),
    PhysicalKeyboard(Presence),
    Output(outputs::Event),
    Debug(debug::Event),
    /// A moment in time has passed. The state stays as it is; the event
    /// makes the driver look at the outcome again. The value is the moment
    /// that was asked for.
    TimeoutReached(Instant),
}

impl Event {
    /// A display description that the event brings can be measured.
    pub open spec fn wf(&self) -> bool {
        self matches Event::Output(ev) ==> ev.wf()
    }

    /// Tells whether a display description that the event brings can be
    /// measured.
    pub fn is_valid(&self) -> (valid: bool)
        ensures
            valid == self.wf(),
    {
        match self {
            Event::Output(ev) => match ev.change {
                ChangeType::Altered(state) => state.is_valid(),
                ChangeType::Removed => true,
            },
            _ => true,
        }
    }
}

impl From<InputMethod> for Event {
    fn from(im: InputMethod) -> (ev: Event) {
        Event::InputMethod(im)
    }
}

impl vstd::std_specs::convert::FromSpecImpl<InputMethod> for Event {
    open spec fn obeys_from_spec() -> bool {
        true
    }

    open spec fn from_spec(im: InputMethod) -> Event {
        Event::InputMethod(im)
    }
}

impl From<outputs::Event> for Event {
    fn from(ev: outputs::Event) -> (event: Event) {
        Event::Output(ev)
    }
}

impl vstd::std_specs::convert::FromSpecImpl<outputs::Event> for Event {
    open spec fn obeys_from_spec() -> bool {
        true
    }

    open spec fn from_spec(ev: outputs::Event) -> Event {
        Event::Output(ev)
    }
}

/// What the embedder is to do. An absent field asks for nothing.
#[derive(Clone, Copy, Debug, PartialEq, Eq)]
pub struct Commands {
    pub panel_visibility: Option<panel::Command>,
    pub layout_hint_set: Option<InputMethodDetails>,
    pub dbus_visible_set: Option<bool>,
}

/// The state as the outside sees it.
#[derive(Clone, Copy, Debug, PartialEq, Eq)]
pub struct Outcome {
    pub visibility: animation::Outcome,
    pub im: InputMethod,
}

impl Outcome {
    /// The commands that bring the outside to `new_state`, whatever it was
    /// at before.
    pub open spec fn commands_to_reach(new_state: Outcome) -> Commands {
        match new_state.visibility {
            animation::Outcome::Visible { output, height } => Commands {
                panel_visibility: Some(panel::Command::Show { output, height }),
                layout_hint_set: Some(
                    match new_state.im {
                        InputMethod::Active(hints) => hints,
                        InputMethod::InactiveSince(_) => InputMethodDetails {
                            hint: ContentHint { bits: 0 },
                            purpose: ContentPurpose::Normal,
                        },
                    },
                ),
                dbus_visible_set: Some(true),
            },
            animation::Outcome::Hidden => Commands {
                panel_visibility: Some(panel::Command::Hide),
                layout_hint_set: None,
                dbus_visible_set: Some(false),
            },
        }
    }

    /// Returns the commands that bring the outside to `new_state`.
    ///
    /// The outcome that is left plays no part: every command is issued, and
    /// the receivers find out which of them change nothing.
    pub fn get_commands_to_reach(&self, new_state: &Self) -> (commands: Commands)
        ensures
            commands == Outcome::commands_to_reach(*new_state),
    {
        let layout_hint_set = match new_state.visibility {
            animation::Outcome::Visible { .. } => match new_state.im {
                InputMethod::Active(hints) => Some(hints),
                InputMethod::InactiveSince(_) => Some(
                    InputMethodDetails {
                        hint: ContentHint::none(),
                        purpose: ContentPurpose::Normal,
                    },
                ),
            },
            animation::Outcome::Hidden => None,
        };
        let (dbus_visible_set, panel_visibility) = match new_state.visibility {
            animation::Outcome::Visible { output, height } => (
                Some(true),
                Some(panel::Command::Show { output, height }),
            ),
            animation::Outcome::Hidden => (Some(false), Some(panel::Command::Hide)),
        };
        Commands { panel_visibility, layout_hint_set, dbus_visible_set }
    }
}

/// Hundredths of a millimeter that one row of keys should be tall. More
/// wastes space, less makes typing harder.
pub const IDEAL_TARGET_SIZE: u64 = 1084;

/// The number of rows that the panel is sized for.
pub const ROW_COUNT: u64 = 4;

/// The quotient of `n` by `d`, rounded up.
pub open spec fn ceil_div(n: int, d: int) -> int {
    if n % d == 0 {
        n / d
    } else {
        n / d + 1
    }
}

/// Returns the quotient of `n` by `d`, rounded up.
fn div_ceil(n: u64, d: u64) -> (q: u64)
    requires
        d > 0,
    ensures
        q == ceil_div(n as int, d as int),
        q <= n,
{
    let quotient: u64 = n / d;
    let rest: u64 = n % d;
    proof {
        vstd::arithmetic::div_mod::lemma_fundamental_div_mod(n as int, d as int);
        assert(quotient <= n && (rest != 0 ==> quotient < n)) by (nonlinear_arith)
            requires
                n == d * quotient + rest,
                rest >= 0,
                d > 0,
                quotient >= 0,
        ;
    }
    if rest == 0 {
        quotient
    } else {
        quotient + 1
    }
}

/// The state of the application: all that its outcome depends on, but for
/// the clock.
#[derive(Clone, Debug)]
pub struct Application {
    pub im: InputMethod,
    pub visibility_override: visibility::State,
    pub physical_keyboard: Presence,
    pub debug_mode_enabled: bool,
    /// The display on which the panel should appear.
    pub preferred_output: Option<OutputId>,
    /// The displays that are known, each under the number of its
    /// `OutputId`.
    pub outputs: HashMap<u64, OutputState>,
}

/// The state as a mathematical value.
#[verifier::ext_equal]
pub struct ApplicationView {
    pub im: InputMethod,
    pub visibility_override: visibility::State,
    pub physical_keyboard: Presence,
    pub debug_mode_enabled: bool,
    pub preferred_output: Option<OutputId>,
    pub outputs: Map<u64, OutputState>,
}

impl View for Application {
    type V = ApplicationView;

    open spec fn view(&self) -> ApplicationView {
        ApplicationView {
            im: self.im,
            visibility_override: self.visibility_override,
            physical_keyboard: self.physical_keyboard,
            debug_mode_enabled: self.debug_mode_enabled,
            preferred_output: self.preferred_output,
            outputs: self.outputs@,
        }
    }
}

impl ApplicationView {
    /// The preferred display is a known one, and every known display can be
    /// measured.
    pub open spec fn wf(self) -> bool {
        &&& self.preferred_output matches Some(id) ==> self.outputs.contains_key(id.0)
        &&& forall|k: u64| self.outputs.contains_key(k) ==> (#[trigger] self.outputs[k]).wf()
    }

    /// The input method after it reports `new_im`. An input method that was
    /// inactive already stays inactive since the earlier moment.
    pub open spec fn im_after(self, new_im: InputMethod) -> InputMethod {
        match (self.im, new_im) {
            (InputMethod::InactiveSince(old), InputMethod::InactiveSince(_)) => {
                InputMethod::InactiveSince(old)
            },
            _ => new_im,
        }
    }

    /// The user's request after the input method reports `new_im`. It
    /// lapses when the input method turns on or off.
    pub open spec fn override_after(self, new_im: InputMethod) -> visibility::State {
        if (self.im is Active) == (new_im is Active) {
            self.visibility_override
        } else {
            visibility::State::NotForced
        }
    }

    /// The state that follows `event`, for every event but the removal of
    /// the preferred display.
    pub open spec fn after(self, event: Event) -> ApplicationView {
        match event {
            Event::Debug(dbg) => ApplicationView {
                debug_mode_enabled: dbg is Enable,
                ..self
            },
            Event::TimeoutReached(_) => self,
            Event::Visibility(request) => ApplicationView {
                visibility_override: match request {
                    visibility::Event::ForceHidden => visibility::State::ForcedHidden,
                    visibility::Event::ForceVisible => visibility::State::ForcedVisible,
                },
                ..self
            },
            Event::PhysicalKeyboard(presence) => ApplicationView {
                physical_keyboard: presence,
                ..self
            },
            Event::Output(outputs::Event { output, change }) => match change {
                ChangeType::Altered(state) => ApplicationView {
                    outputs: self.outputs.insert(output.0, state),
                    preferred_output: match self.preferred_output {
                        Some(id) => Some(id),
                        None => Some(output),
                    },
                    ..self
                },
                ChangeType::Removed => ApplicationView {
                    outputs: self.outputs.remove(output.0),
                    ..self
                },
            },
            Event::InputMethod(new_im) => ApplicationView {
                im: self.im_after(new_im),
                visibility_override: self.override_after(new_im),
                ..self
            },
        }
    }

    /// Whether `event` takes the preferred display away.
    pub open spec fn loses_preferred(self, event: Event) -> bool {
        &&& event matches Event::Output(ev)
        &&& ev.change is Removed
        &&& self.preferred_output == Some(ev.output)
    }

    /// Whether `next` may follow this state on `event`.
    ///
    /// Every event but one has a single successor. When the preferred
    /// display goes away, any display that is left may take its place, and
    /// none is preferred only if none is left.
    pub open spec fn steps_to(self, event: Event, next: ApplicationView) -> bool {
        if self.loses_preferred(event) {
            &&& next =~= ApplicationView {
                preferred_output: next.preferred_output,
                ..self.after(event)
            }
            &&& match next.preferred_output {
                Some(id) => next.outputs.contains_key(id.0),
                None => next.outputs.dom() =~= Set::empty(),
            }
        } else {
            next =~= self.after(event)
        }
    }

    /// The height that suits the panel on a display.
    ///
    /// The ideal is `ROW_COUNT` rows of `IDEAL_TARGET_SIZE` each, turned
    /// into pixels by the display's density (that of a phone with 720
    /// pixels on 65 millimeters where the physical width is not known). It
    /// is cut down to what the layout can fill at the display's width, 240
    /// on 360 for a narrow display and 172 on 540 for a wide one, and to
    /// half the display's height.
    pub open spec fn preferred_height(output: OutputState) -> Option<PixelSize> {
        match output.pixel_size() {
            None => None,
            Some(px_size) => {
                let known_width = match output.physical_size() {
                    Some(size) => size.width,
                    None => None,
                };
                let density: (int, int) = match known_width {
                    Some(width) => (px_size.width as int, width.0 as int),
                    None => (720, 65),
                };
                let ideal_height_px = ceil_div(
                    IDEAL_TARGET_SIZE * ROW_COUNT * density.0,
                    100 * density.1,
                );
                let abstract_width = ceil_div(px_size.width as int, output.scale as int);
                let fillable = if abstract_width < 540 {
                    ceil_div(240 * px_size.width, 360)
                } else {
                    ceil_div(172 * px_size.width, 540)
                };
                let height = if ideal_height_px <= fillable {
                    ideal_height_px
                } else {
                    fillable
                };
                let half = px_size.height / 2;
                Some(
                    PixelSize {
                        scale_factor: output.scale,
                        pixels: if height <= half {
                            height as u32
                        } else {
                            half
                        },
                    },
                )
            },
        }
    }

    /// Whether the panel shows at `now`.
    ///
    /// Without a preferred display it is hidden. Otherwise the user's
    /// request decides; without one, a physical keyboard hides the panel;
    /// without that, it shows while the input method is active and for
    /// `HIDING_TIMEOUT` after it went away.
    pub open spec fn shows_at(self, now: Instant) -> bool {
        &&& self.preferred_output is Some
        &&& match (self.physical_keyboard, self.visibility_override) {
            (_, visibility::State::ForcedHidden) => false,
            (_, visibility::State::ForcedVisible) => true,
            (Presence::Present, visibility::State::NotForced) => false,
            (Presence::Missing, visibility::State::NotForced) => match self.im {
                InputMethod::Active(_) => true,
                InputMethod::InactiveSince(since) => now.millis < since.millis + HIDING_TIMEOUT,
            },
        }
    }

    /// What the outside sees at `now`.
    pub open spec fn outcome_at(self, now: Instant) -> Outcome {
        Outcome {
            visibility: if self.shows_at(now) {
                let output = self.preferred_output->0;
                animation::Outcome::Visible {
                    output,
                    height: match ApplicationView::preferred_height(self.outputs[output.0]) {
                        Some(height) => height,
                        None => PixelSize { pixels: 0, scale_factor: 1 },
                    },
                }
            } else {
                animation::Outcome::Hidden
            },
            im: self.im,
        }
    }

    /// The moment at which the outcome changes with no event, if there is
    /// one after `now`: the end of the time for which the panel lingers.
    pub open spec fn next_wake(self, now: Instant) -> Option<int> {
        match (self.visibility_override, self.im) {
            (visibility::State::NotForced, InputMethod::InactiveSince(since)) => {
                if now.millis < since.millis + HIDING_TIMEOUT {
                    Some(since.millis + HIDING_TIMEOUT)
                } else {
                    None
                }
            },
            _ => None,
        }
    }
}

/// Returns the number of some display in `outputs`, or nothing if there is
/// none. Which one it is depends on the order in which the table is walked.
fn any_output(outputs: &HashMap<u64, OutputState>) -> (key: Option<u64>)
    ensures
        match key {
            Some(k) => outputs@.contains_key(k),
            None => outputs@.dom() =~= Set::empty(),
        },
{
    for k in it: outputs.keys()
        invariant
            it.index() == 0,
            it.seq().unref().to_set() == outputs@.dom(),
    {
        return Some(*k);
    }
    None
}

impl Application {
    /// Tells whether the preferred display is a known one and every known
    /// display can be measured.
    pub fn is_valid(&self) -> (valid: bool)
        ensures
            valid == self@.wf(),
    {
        match self.preferred_output {
            Some(id) => {
                if !self.outputs.contains_key(&id.0) {
                    return false;
                }
            },
            None => {},
        }
        for entry in it: self.outputs.iter()
            invariant
                forall|j: int|
                    #![trigger self.outputs@.contains_key(*it.seq()[j].0)]
                    0 <= j < it.seq().len() ==> self.outputs@.contains_key(*it.seq()[j].0)
                        && self.outputs@[*it.seq()[j].0] == *it.seq()[j].1,
                forall|k: u64| #[trigger]
                    self.outputs@.contains_key(k) ==> it.seq().contains((&k, &self.outputs@[k])),
                forall|j: int| 0 <= j < it.index() ==> (#[trigger] it.seq()[j]).1.wf(),
                it.index() == it.seq().len() ==> forall|k: u64|
                    self.outputs@.contains_key(k) ==> (#[trigger] self.outputs@[k]).wf(),
        {
            let (key, state) = entry;
            if !state.is_valid() {
                assert(!self@.outputs[*key].wf());
                return false;
            }
        }
        true
    }

    /// The state before anything is known: the input method has just gone
    /// away, nothing is forced, no physical keyboard, no display.
    ///
    /// With a display, this state shows the panel for a blink.
    pub fn new(now: Instant) -> (app: Self)
        ensures
            app@ == (ApplicationView {
                im: InputMethod::InactiveSince(now),
                visibility_override: visibility::State::NotForced,
                physical_keyboard: Presence::Missing,
                debug_mode_enabled: false,
                preferred_output: None,
                outputs: Map::empty(),
            }),
            app@.wf(),
    {
        Application {
            im: InputMethod::InactiveSince(now),
            visibility_override: visibility::State::NotForced,
            physical_keyboard: Presence::Missing,
            debug_mode_enabled: false,
            preferred_output: None,
            outputs: HashMap::new(),
        }
    }

    /// Returns the state that follows `event`.
    ///
    /// The clock plays no part in it: `now` is taken for the sake of
    /// embedders that report the outcome after each event.
    pub fn apply_event(self, event: Event, now: Instant) -> (next: Self)
        ensures
            self@.steps_to(event, next@),
            self@.wf() && event.wf() ==> next@.wf(),
    {
        match event {
            Event::Debug(dbg) => Application {
                debug_mode_enabled: match dbg {
                    debug::Event::Enable => true,
                    debug::Event::Disable => false,
                },
                ..self
            },
            Event::TimeoutReached(_) => self,
            Event::Visibility(request) => Application {
                visibility_override: match request {
                    visibility::Event::ForceHidden => visibility::State::ForcedHidden,
                    visibility::Event::ForceVisible => visibility::State::ForcedVisible,
                },
                ..self
            },
            Event::PhysicalKeyboard(presence) => Application {
                physical_keyboard: presence,
                ..self
            },
            Event::Output(outputs::Event { output, change }) => {
                let mut app = self;
                match change {
                    ChangeType::Altered(state) => {
                        app.outputs.insert(output.0, state);
                        app.preferred_output = match app.preferred_output {
                            Some(id) => Some(id),
                            None => Some(output),
                        };
                    },
                    ChangeType::Removed => {
                        app.outputs.remove(&output.0);
                        let was_preferred = match app.preferred_output {
                            Some(id) => id.0 == output.0,
                            None => false,
                        };
                        if was_preferred {
                            // No display is better than another: take
                            // whichever comes first.
                            app.preferred_output = match any_output(&app.outputs) {
                                Some(k) => Some(OutputId(k)),
                                None => None,
                            };
                        }
                    },
                };
                app
            },
            Event::InputMethod(new_im) => match (self.im, new_im) {
                (InputMethod::Active(_), InputMethod::Active(details)) => Application {
                    im: InputMethod::Active(details),
                    ..self
                },
                // A change of the active state ends what the user forced.
                (InputMethod::InactiveSince(_), InputMethod::Active(details)) => Application {
                    im: InputMethod::Active(details),
                    visibility_override: visibility::State::NotForced,
                    ..self
                },
                (InputMethod::Active(_), InputMethod::InactiveSince(since)) => Application {
                    im: InputMethod::InactiveSince(since),
                    visibility_override: visibility::State::NotForced,
                    ..self
                },
                // It was inactive at the earlier moment already.
                (InputMethod::InactiveSince(old), InputMethod::InactiveSince(_)) => Application {
                    im: InputMethod::InactiveSince(old),
                    ..self
                },
            },
        }
    }

    /// Returns the height that suits the panel on `output`, or nothing
    /// where the display's resolution is not known.
    pub fn get_preferred_height(output: &OutputState) -> (height: Option<PixelSize>)
        requires
            output.wf(),
        ensures
            height == ApplicationView::preferred_height(*output),
    {
        match output.get_pixel_size() {
            None => None,
            Some(px_size) => {
                let known_width = match output.get_physical_size() {
                    Some(size) => size.width,
                    None => None,
                };
                // Pixels on millimeters, the same in both directions.
                let density: (u64, u64) = match known_width {
                    Some(width) => (px_size.width as u64, width.0 as u64),
                    None => (720, 65),
                };
                let ideal_height_px: u64 = div_ceil(
                    IDEAL_TARGET_SIZE * ROW_COUNT * density.0,
                    100 * density.1,
                );
                let abstract_width: u64 = div_ceil(px_size.width as u64, output.scale as u64);
                let fillable: u64 = if abstract_width < 540 {
                    div_ceil(240 * (px_size.width as u64), 360)
                } else {
                    div_ceil(172 * (px_size.width as u64), 540)
                };
                let height: u64 = if ideal_height_px <= fillable {
                    ideal_height_px
                } else {
                    fillable
                };
                let half: u32 = px_size.height / 2;
                Some(
                    PixelSize {
                        scale_factor: output.scale,
                        pixels: if height <= half as u64 {
                            height as u32
                        } else {
                            half
                        },
                    },
                )
            },
        }
    }

    /// Returns what the outside sees at `now`.
    pub fn get_outcome(&self, now: Instant) -> (outcome: Outcome)
        requires
            self@.wf(),
        ensures
            outcome == self@.outcome_at(now),
    {
        Outcome {
            visibility: match self.preferred_output {
                None => animation::Outcome::Hidden,
                Some(output) => {
                    let known = match self.outputs.get(&output.0) {
                        Some(state) => Self::get_preferred_height(state),
                        None => None,
                    };
                    let height = match known {
                        Some(height) => height,
                        None => PixelSize { pixels: 0, scale_factor: 1 },
                    };
                    let visible = animation::Outcome::Visible { output, height };
                    match (self.physical_keyboard, self.visibility_override) {
                        (_, visibility::State::ForcedHidden) => animation::Outcome::Hidden,
                        (_, visibility::State::ForcedVisible) => visible,
                        (Presence::Present, visibility::State::NotForced) => {
                            animation::Outcome::Hidden
                        },
                        (Presence::Missing, visibility::State::NotForced) => match self.im {
                            InputMethod::Active(_) => visible,
                            InputMethod::InactiveSince(since) => {
                                if (now.millis as u128) < (since.millis as u128) + (
                                HIDING_TIMEOUT as u128) {
                                    visible
                                } else {
                                    animation::Outcome::Hidden
                                }
                            },
                        },
                    }
                },
            },
            im: self.im,
        }
    }

    /// Returns the next moment at which to look at the outcome again, if
    /// the outcome changes with no event.
    pub fn get_next_wake(&self, now: Instant) -> (wake: Option<Instant>)
        requires
            self.im matches InputMethod::InactiveSince(since) ==> since.millis + HIDING_TIMEOUT
                <= u64::MAX,
        ensures
            match self@.next_wake(now) {
                Some(at) => wake == Some(Instant { millis: at as u64 }),
                None => wake is None,
            },
    {
        match (self.visibility_override, self.im) {
            (visibility::State::NotForced, InputMethod::InactiveSince(since)) => {
                let anim_end: u64 = since.millis + HIDING_TIMEOUT;
                if now.millis < anim_end {
                    Some(Instant { millis: anim_end })
                } else {
                    None
                }
            },
            _ => None,
        }
    }
}

/// The panel lingers, and then goes down.
///
/// When an active input method goes away at `since`, while no physical
/// keyboard is attached and there is a display to show on, the panel shows
/// at every moment before `since + HIDING_TIMEOUT` and at none from then
/// on.
pub proof fn lemma_hiding_is_delayed(
    state: ApplicationView,
    since: Instant,
    next: ApplicationView,
    at: Instant,
)
    requires
        state.im is Active,
        state.physical_keyboard is Missing,
        state.preferred_output is Some,
        state.steps_to(Event::InputMethod(InputMethod::InactiveSince(since)), next),
    ensures
        next.shows_at(at) <==> at.millis < since.millis + HIDING_TIMEOUT,
        next.outcome_at(at).visibility is Visible <==> at.millis < since.millis
            + HIDING_TIMEOUT,
        next.next_wake(at) == if at.millis < since.millis + HIDING_TIMEOUT {
            Some(since.millis + HIDING_TIMEOUT)
        } else {
            None
        },
{
}

/// Repeated reports that the input method is away do not keep the panel up.
///
/// An input method that is away and reported away again stays away since
/// the earlier moment, and what the user forced stays in force.
pub proof fn lemma_first_inactivity_wins(
    state: ApplicationView,
    earlier: Instant,
    later: Instant,
    next: ApplicationView,
)
    requires
        state.im == InputMethod::InactiveSince(earlier),
        state.steps_to(Event::InputMethod(InputMethod::InactiveSince(later)), next),
    ensures
        next =~= state,
{
}

/// A burst of reports does not bring the panel back.
///
/// Let the input method be reported away, away, active and away again, all
/// at the moment `at`. Whatever the state was before, the input method is
/// then away since `at`, nothing is forced, and the panel shows at no
/// moment from `at + HIDING_TIMEOUT` on.
pub proof fn lemma_burst_does_not_show_again(
    before: ApplicationView,
    first: ApplicationView,
    second: ApplicationView,
    third: ApplicationView,
    last: ApplicationView,
    details: InputMethodDetails,
    at: Instant,
    later: Instant,
)
    requires
        before.steps_to(Event::InputMethod(InputMethod::InactiveSince(at)), first),
        first.steps_to(Event::InputMethod(InputMethod::InactiveSince(at)), second),
        second.steps_to(Event::InputMethod(InputMethod::Active(details)), third),
        third.steps_to(Event::InputMethod(InputMethod::InactiveSince(at)), last),
    ensures
        last.im == InputMethod::InactiveSince(at),
        last.visibility_override is NotForced,
        later.millis >= at.millis + HIDING_TIMEOUT ==> !last.shows_at(later),
        later.millis >= at.millis + HIDING_TIMEOUT ==> last.outcome_at(later).visibility
            is Hidden,
{
}

/// What the user forced to show shows, whatever the input method and the
/// physical keyboard say, as long as there is a display to show on.
pub proof fn lemma_forced_visible_shows(state: ApplicationView, at: Instant)
    requires
        state.visibility_override is ForcedVisible,
        state.preferred_output is Some,
    ensures
        state.shows_at(at),
        state.outcome_at(at).visibility is Visible,
{
}

/// What the user forced stays in force until the input method turns on or
/// off, or the user asks again.
pub proof fn lemma_forced_until_input_method_toggles(
    state: ApplicationView,
    event: Event,
    next: ApplicationView,
)
    requires
        state.steps_to(event, next),
    ensures
        match event {
            Event::InputMethod(new_im) => next.visibility_override == if (state.im is Active)
                == (new_im is Active) {
                state.visibility_override
            } else {
                visibility::State::NotForced
            },
            Event::Visibility(request) => next.visibility_override == match request {
                visibility::Event::ForceVisible => visibility::State::ForcedVisible,
                visibility::Event::ForceHidden => visibility::State::ForcedHidden,
            },
            _ => next.visibility_override == state.visibility_override,
        },
{
}

/// A physical keyboard hides the panel, whatever the input method says,
/// unless the user forced the panel to show.
pub proof fn lemma_physical_keyboard_hides(state: ApplicationView, at: Instant)
    requires
        state.physical_keyboard is Present,
        !(state.visibility_override is ForcedVisible),
    ensures
        !state.shows_at(at),
        state.outcome_at(at).visibility is Hidden,
{
}

/// When the physical keyboard goes away, the input method decides again.
///
/// Nothing but the presence changes; so, where nothing is forced and there
/// is a display to show on, the panel shows exactly if the input method is
/// active or went away less than `HIDING_TIMEOUT` ago.
pub proof fn lemma_keyboard_removal_reevaluates(
    state: ApplicationView,
    next: ApplicationView,
    at: Instant,
)
    requires
        state.steps_to(Event::PhysicalKeyboard(Presence::Missing), next),
    ensures
        next =~= (ApplicationView { physical_keyboard: Presence::Missing, ..state }),
        next.visibility_override is NotForced && next.preferred_output is Some ==> (
        next.shows_at(at) <==> match state.im {
            InputMethod::Active(_) => true,
            InputMethod::InactiveSince(since) => at.millis < since.millis + HIDING_TIMEOUT,
        }),
{
}

/// Every step keeps the state well formed: the preferred display stays a
/// known one.
pub proof fn lemma_step_keeps_wf(state: ApplicationView, event: Event, next: ApplicationView)
    requires
        state.wf(),
        event.wf(),
        state.steps_to(event, next),
    ensures
        next.wf(),
{
}

} // verus!
