//! The layout: views made of rows made of buttons.
//!
//! Sizes are found from the bottom up. A row is as wide as its last button
//! reaches and as tall as its tallest button; a view is as wide as its
//! widest row and as tall as its last row reaches, and centers every row
//! within its width. What a view holds never changes once it is built.
//!
//! The layout owns the views and the keys behind the buttons, and keeps
//! what changes while the keyboard is in use: the view that shows, whether
//! it is latched, and which keys are held down.

use vstd::prelude::*;
use vstd::view::View as Model;
use crate::action::Action;
use crate::geometry::{
    div_floor, in_extent, lemma_times_bound, Point, Scale, Size, Transformation, MAX_EXTENT,
};
use crate::imservice::ContentPurpose;
use crate::keyboard::{KeyId, KeyState};
use crate::util::seq_max;

pub mod procedures;
pub mod row;
pub mod seat;
pub mod view;
pub mod view_map;

pub use self::row::{Button, Label, Row, Spacing};
pub use self::view::{deref_places, ButtonPlace, View};
pub use self::view_map::ViewMap;

verus! {

/// Names the widget that draws the keyboard. The library hands the name
/// on and never looks into it.
#[derive(Clone, Copy, Debug, PartialEq, Eq, Structural)]
pub struct EekGtkKeyboard(pub usize);

/// What a release needs to know of the user interface, where there is one.
#[derive(Clone, Copy, Debug, PartialEq, Eq)]
pub struct UIBackend {
    /// The transformation that the widget draws the layout with.
    pub widget_to_layout: Transformation,
    pub keyboard: EekGtkKeyboard,
}

/// The physical shape of a layout, for the purpose of styling.
#[derive(Clone, Copy, Debug, PartialEq, Eq, Structural)]
pub enum ArrangementKind {
    Base,
    Wide,
}

impl ArrangementKind {
    /// The number that stands for this kind outside the library.
    pub open spec fn spec_code(self) -> u32 {
        match self {
            ArrangementKind::Base => 0,
            ArrangementKind::Wide => 1,
        }
    }

    /// Returns the number that stands for this kind outside the library.
    pub fn code(self) -> (code: u32)
        ensures
            code == self.spec_code(),
    {
        match self {
            ArrangementKind::Base => 0,
            ArrangementKind::Wide => 1,
        }
    }
}

/// The room left free around the views.
#[derive(Clone, Copy, Debug, PartialEq, Eq, Structural)]
pub struct Margins {
    pub top: i64,
    pub bottom: i64,
    pub left: i64,
    pub right: i64,
}

impl Margins {
    /// No margin is negative or greater than `MAX_EXTENT`.
    pub open spec fn wf(&self) -> bool {
        &&& in_extent(self.top as int)
        &&& in_extent(self.bottom as int)
        &&& in_extent(self.left as int)
        &&& in_extent(self.right as int)
    }

    /// Tells whether no margin is negative or greater than `MAX_EXTENT`.
    pub fn is_valid(&self) -> (valid: bool)
        ensures
            valid == self.wf(),
    {
        0 <= self.top && self.top <= MAX_EXTENT && 0 <= self.bottom && self.bottom <= MAX_EXTENT
            && 0 <= self.left && self.left <= MAX_EXTENT && 0 <= self.right && self.right
            <= MAX_EXTENT
    }
}

/// Whether the view that shows is latched: whether it falls back by itself
/// after the next key that submits something.
#[derive(Clone, Debug, PartialEq, Eq)]
pub enum LatchedState {
    /// Latched. Holds the name of the view to fall back to.
    FromView(String),
    /// Not latched.
    Not,
}

impl Model for LatchedState {
    type V = Option<Seq<char>>;

    open spec fn view(&self) -> Option<Seq<char>> {
        match self {
            LatchedState::FromView(name) => Some(name@),
            LatchedState::Not => None,
        }
    }
}

/// What an activated key does to the view that shows.
#[derive(Debug, PartialEq, Eq)]
pub enum ViewTransition<'a> {
    /// Show the view of this name.
    ChangeTo(&'a String),
    /// Fall back to the view that showed before the first latch.
    UnlatchAll,
    NoChange,
}

/// A `ViewTransition` as a mathematical value.
pub enum Transition {
    ChangeTo(Seq<char>),
    UnlatchAll,
    NoChange,
}

impl<'a> Model for ViewTransition<'a> {
    type V = Transition;

    open spec fn view(&self) -> Transition {
        match self {
            ViewTransition::ChangeTo(name) => Transition::ChangeTo(name@),
            ViewTransition::UnlatchAll => Transition::UnlatchAll,
            ViewTransition::NoChange => Transition::NoChange,
        }
    }
}

/// The layout has no view of the name that was asked for.
#[derive(Debug, PartialEq, Eq)]
pub struct NoSuchView;

impl NoSuchView {
    /// Returns the error in words.
    pub fn message(&self) -> (words: String)
        ensures
            words@ == "No such view"@,
    {
        "No such view".to_owned()
    }
}

/// What a layout is made from.
pub struct LayoutData {
    /// The views by name, each with its offset within the layout.
    pub views: ViewMap,
    /// The keymaps that apply to the keys.
    pub keymaps: Vec<String>,
    pub margins: Margins,
    /// The keys. A button names its key by the key's place here.
    pub keys: Vec<KeyState>,
}

impl LayoutData {
    /// The parts fit together: every view is well formed and lies at an
    /// offset of at most `MAX_EXTENT` either way, every button stands for
    /// one of the keys, and no margin is negative or greater than
    /// `MAX_EXTENT`.
    pub open spec fn wf(&self) -> bool {
        &&& self.margins.wf()
        &&& forall|i: int|
            0 <= i < self.views.places().len() ==> (#[trigger] self.views.places()[i]).0.wf()
                && self.views.places()[i].1.wf() && self.views.places()[i].1.keys_below(
                self.keys@.len(),
            )
    }

    /// Tells whether the parts fit together.
    pub fn is_valid(&self) -> (valid: bool)
        ensures
            valid == self.wf(),
    {
        self.margins.is_valid() && self.views.has_valid_places(self.keys.len())
    }
}

/// The keyboard's layout and what changes while it is in use.
pub struct Layout {
    pub margins: Margins,
    pub kind: ArrangementKind,
    pub purpose: ContentPurpose,
    /// The name of the view that shows.
    pub current_view: String,
    /// Whether the view is latched. While it is, any key that erases,
    /// submits or sets a modifier makes the lock keys fall back.
    pub view_latched: LatchedState,
    /// The views by name, each with its offset within the layout.
    pub views: ViewMap,
    /// The keymaps that apply to the keys. They never change.
    pub keymaps: Vec<String>,
    /// The keys. A button names its key by the key's place here.
    pub keys: Vec<KeyState>,
    /// The keys that are held down, in the order in which they went down.
    pub pressed_keys: Vec<KeyId>,
}

impl Layout {
    /// The parts fit together, as in `LayoutData::wf`; and no key is held
    /// down twice, nor one that the layout does not have.
    pub open spec fn wf(&self) -> bool {
        &&& self.margins.wf()
        &&& forall|i: int|
            0 <= i < self.views.places().len() ==> (#[trigger] self.views.places()[i]).0.wf()
                && self.views.places()[i].1.wf() && self.views.places()[i].1.keys_below(
                self.keys@.len(),
            )
        &&& self.pressed_keys@.no_duplicates()
        &&& forall|i: int|
            0 <= i < self.pressed_keys@.len() ==> (#[trigger] self.pressed_keys@[i]).0
                < self.keys@.len()
    }

    /// Whether the view that shows is one of the layout's views.
    pub open spec fn has_current_view(&self) -> bool {
        self.views.has(self.current_view@)
    }

    /// Whether the keys that are held down are those that are marked as
    /// pressed. A layout that is only ever changed by presses and releases
    /// stays so.
    pub open spec fn presses_agree(&self) -> bool {
        forall|key: KeyId|
            key.0 < self.keys@.len() ==> (#[trigger] self.pressed_keys@.contains(key)
                <==> self.keys@[key.0 as int].pressed is Pressed)
    }

    /// Tells whether the parts of the layout fit together.
    pub fn is_valid(&self) -> (valid: bool)
        ensures
            valid == self.wf(),
    {
        if !(self.margins.is_valid() && self.views.has_valid_places(self.keys.len())) {
            return false;
        }
        let mut j: usize = 0;
        while j < self.pressed_keys.len()
            invariant
                j <= self.pressed_keys@.len(),
                forall|a: int, b: int|
                    0 <= a < b < j ==> self.pressed_keys@[a] != self.pressed_keys@[b],
                forall|a: int|
                    0 <= a < j ==> (#[trigger] self.pressed_keys@[a]).0 < self.keys@.len(),
            decreases self.pressed_keys@.len() - j,
        {
            if self.pressed_keys[j].0 >= self.keys.len() {
                return false;
            }
            let mut i: usize = 0;
            while i < j
                invariant
                    i <= j < self.pressed_keys@.len(),
                    forall|a: int|
                        0 <= a < i ==> self.pressed_keys@[a] != self.pressed_keys@[j as int],
                decreases j - i,
            {
                if self.pressed_keys[i].0 == self.pressed_keys[j].0 {
                    return false;
                }
                i += 1;
            }
            j += 1;
        }
        true
    }

    /// Tells whether the view that shows is one of the layout's views.
    pub fn shows_a_view(&self) -> (shown: bool)
        ensures
            shown == self.has_current_view(),
    {
        self.views.contains_key(&self.current_view)
    }

    /// Whether `other` differs from this layout in nothing but the view
    /// that shows and the latch.
    pub open spec fn same_but_view(&self, other: Layout) -> bool {
        &&& other.margins == self.margins
        &&& other.kind == self.kind
        &&& other.purpose == self.purpose
        &&& other.views == self.views
        &&& other.keymaps == self.keymaps
        &&& other.keys == self.keys
        &&& other.pressed_keys == self.pressed_keys
    }

    /// Makes a layout that shows the view named "base", unlatched and with
    /// no key held down.
    pub fn new(data: LayoutData, kind: ArrangementKind, purpose: ContentPurpose) -> (layout:
        Layout)
        ensures
            layout.kind == kind,
            layout.purpose == purpose,
            layout.current_view@ == "base"@,
            layout.view_latched@ is None,
            layout.views == data.views,
            layout.keymaps == data.keymaps,
            layout.keys == data.keys,
            layout.margins == data.margins,
            layout.pressed_keys@.len() == 0,
            layout.wf() == data.wf(),
            (forall|k: int|
                0 <= k < data.keys@.len() ==> (#[trigger] data.keys@[k]).pressed is Released)
                ==> layout.presses_agree(),
    {
        Layout {
            kind,
            current_view: "base".to_owned(),
            view_latched: LatchedState::Not,
            views: data.views,
            keymaps: data.keymaps,
            keys: data.keys,
            pressed_keys: Vec::new(),
            margins: data.margins,
            purpose,
        }
    }

    /// Returns the physical shape of the layout.
    pub fn get_kind(&self) -> (kind: ArrangementKind)
        ensures
            kind == self.kind,
    {
        self.kind
    }

    /// Returns the kind of text that the layout is for.
    pub fn get_purpose(&self) -> (purpose: ContentPurpose)
        ensures
            purpose == self.purpose,
    {
        self.purpose
    }

    /// Returns the view that shows, with its offset within the layout.
    pub fn get_current_view_position(&self) -> (place: &(Point, View))
        requires
            self.has_current_view(),
        ensures
            *place == self.views.place_of(self.current_view@),
    {
        match self.views.get(&self.current_view) {
            Some(place) => place,
            None => vstd::pervasive::unreached(),
        }
    }

    /// Returns the view that shows.
    pub fn get_current_view(&self) -> (view: &View)
        requires
            self.has_current_view(),
        ensures
            *view == self.views.place_of(self.current_view@).1,
    {
        &self.get_current_view_position().1
    }

    /// Makes the view named `view` the one that shows, if there is one of
    /// that name.
    pub fn set_view(&mut self, view: String) -> (done: Result<(), NoSuchView>)
        ensures
            old(self).same_but_view(*final(self)),
            old(self).has_current_view() ==> final(self).has_current_view(),
            final(self).view_latched@ == old(self).view_latched@,
            match done {
                Ok(_) => old(self).views.has(view@) && final(self).current_view@ == view@,
                Err(_) => !old(self).views.has(view@) && final(self).current_view@ == old(
                    self,
                ).current_view@,
            },
    {
        switch_view(&self.views, &mut self.current_view, view)
    }

    /// Returns whether the view is latched, and to which view it falls
    /// back.
    pub fn get_view_latched(&self) -> (latched: &LatchedState)
        ensures
            *latched == self.view_latched,
    {
        &self.view_latched
    }

    /// The widths of the views at `places`, in their order.
    pub open spec fn place_widths(places: Seq<(Point, View)>) -> Seq<i64> {
        Seq::new(places.len(), |i: int| places[i].1.size().width)
    }

    /// The heights of the views at `places`, in their order.
    pub open spec fn place_heights(places: Seq<(Point, View)>) -> Seq<i64> {
        Seq::new(places.len(), |i: int| places[i].1.size().height)
    }

    /// The size of the layout without its margins: the width of the widest
    /// view and the height of the tallest, so that no change of view
    /// changes the size.
    pub open spec fn inner_size(&self) -> Size {
        Size {
            width: seq_max(Layout::place_widths(self.views.places())),
            height: seq_max(Layout::place_heights(self.views.places())),
        }
    }

    /// The size of the layout with its margins.
    pub open spec fn full_size(&self) -> Size {
        Size {
            width: (self.margins.left + self.inner_size().width + self.margins.right) as i64,
            height: (self.margins.top + self.inner_size().height + self.margins.bottom) as i64,
        }
    }

    /// The inner size of a well-formed layout is not negative, and at most
    /// twice `MAX_EXTENT` either way.
    pub proof fn lemma_inner_size_bounds(&self)
        requires
            self.wf(),
        ensures
            0 <= self.inner_size().width <= 2 * MAX_EXTENT,
            0 <= self.inner_size().height <= 2 * MAX_EXTENT,
    {
        let places = self.views.places();
        let widths = Layout::place_widths(places);
        let heights = Layout::place_heights(places);
        crate::util::lemma_seq_max(widths);
        crate::util::lemma_seq_max(heights);
        if places.len() > 0 {
            let w = choose|i: int| 0 <= i < widths.len() && widths[i] == seq_max(widths);
            let h = choose|i: int| 0 <= i < heights.len() && heights[i] == seq_max(heights);
            places[w].1.lemma_size_bounds();
            places[h].1.lemma_size_bounds();
        }
    }

    /// Returns the size of the layout without its margins.
    pub fn calculate_inner_size(&self) -> (size: Size)
        ensures
            size == self.inner_size(),
    {
        let mut views: Vec<&View> = Vec::new();
        let mut i: usize = 0;
        while i < self.views.len()
            invariant
                i <= self.views.places().len(),
                views@.len() == i,
                forall|j: int| 0 <= j < i ==> *(#[trigger] views@[j]) == self.views.places()[j].1,
            decreases self.views.places().len() - i,
        {
            views.push(&self.views.nth(i).1);
            i += 1;
        }
        assert(View::view_widths(views@) =~= Layout::place_widths(self.views.places()));
        assert(View::view_heights(views@) =~= Layout::place_heights(self.views.places()));
        View::calculate_super_size(views)
    }

    /// Returns the size of the layout with its margins.
    pub fn calculate_size(&self) -> (size: Size)
        requires
            self.wf(),
        ensures
            size == self.full_size(),
            0 <= size.width <= 4 * MAX_EXTENT,
            0 <= size.height <= 4 * MAX_EXTENT,
    {
        proof {
            self.lemma_inner_size_bounds();
        }
        let inner_size = self.calculate_inner_size();
        Size {
            width: self.margins.left + inner_size.width + self.margins.right,
            height: self.margins.top + inner_size.height + self.margins.bottom,
        }
    }

    /// Whether a layout of size `size` can be placed in the space
    /// `available`: both have some width and some height, and the space is
    /// no greater than `MAX_EXTENT` either way.
    pub open spec fn placeable(size: Size, available: Size) -> bool {
        &&& 0 < available.width <= MAX_EXTENT
        &&& 0 < available.height <= MAX_EXTENT
        &&& 0 < size.width
        &&& 0 < size.height
    }

    /// The horizontal and the vertical scale at which a layout of size
    /// `size` fills the space `available`.
    ///
    /// The scale that fills the width is `available.width / size.width`,
    /// the one that fills the height `available.height / size.height`.
    /// Vertically the layout takes the smaller of the two. Horizontally
    /// it takes the one that fills the width as long as that is less than
    /// `STRETCH_LIMIT` thousandths of the one that fills the height: the
    /// layout may be stretched a little to fill the width, and is never
    /// shrunk below the uniform scale.
    pub open spec fn scales_for(size: Size, available: Size) -> (Scale, Scale) {
        let h_scale = Scale { num: available.width, den: size.width };
        let v_scale = Scale { num: available.height, den: size.height };
        (
            if 1000 * (available.width * size.height) < STRETCH_LIMIT * (available.height
                * size.width) {
                h_scale
            } else {
                v_scale
            },
            if available.width * size.height <= available.height * size.width {
                h_scale
            } else {
                v_scale
            },
        )
    }

    /// The transformation that scales a layout of size `size` to fill the
    /// space `available` and centers it there: half of what the scaled
    /// layout leaves free lies before it on each axis.
    pub open spec fn outside_margins(size: Size, available: Size) -> Transformation {
        let (scale_x, scale_y) = Layout::scales_for(size, available);
        Transformation {
            origin_x: ((available.width - scale_x.times(size.width as int)) / 2) as i64,
            origin_y: ((available.height - scale_y.times(size.height as int)) / 2) as i64,
            scale_x,
            scale_y,
        }
    }

    /// The transformation that moves by the left and the top margin.
    pub open spec fn margin_shift(&self) -> Transformation {
        Transformation {
            origin_x: self.margins.left,
            origin_y: self.margins.top,
            scale_x: Scale { num: 1, den: 1 },
            scale_y: Scale { num: 1, den: 1 },
        }
    }

    /// Places the contents of the layout within the space `available`.
    ///
    /// The result takes a point counted from the corner inside the
    /// margins to the space: it is `outside_margins` with `margin_shift`
    /// applied inside it. Returns nothing where the layout or the space
    /// has no width or no height, or the space is greater than
    /// `MAX_EXTENT`.
    pub fn calculate_transformation(&self, available: Size) -> (transformation: Option<
        Transformation,
    >)
        requires
            self.wf(),
        ensures
            match transformation {
                Some(t) => {
                    &&& Layout::placeable(self.full_size(), available)
                    &&& Layout::outside_margins(self.full_size(), available).chains_to(
                        self.margin_shift(),
                        t,
                    )
                    &&& t.wf()
                },
                None => !Layout::placeable(self.full_size(), available),
            },
    {
        let size = self.calculate_size();
        if available.width <= 0 || available.width > MAX_EXTENT || available.height <= 0
            || available.height > MAX_EXTENT || size.width <= 0 || size.height <= 0 {
            return None;
        }
        let h_scale = Scale { num: available.width, den: size.width };
        let v_scale = Scale { num: available.height, den: size.height };
        proof {
            lemma_cross_products(
                available.width as int,
                available.height as int,
                size.width as int,
                size.height as int,
            );
        }
        // Both scales as numbers over the same divisor.
        let h_weight: i128 = (available.width as i128) * (size.height as i128);
        let v_weight: i128 = (available.height as i128) * (size.width as i128);
        assert(STRETCH_LIMIT * v_weight == 1055 * v_weight) by (nonlinear_arith)
            requires
                STRETCH_LIMIT == 1055,
        ;
        // A little horizontal stretching serves to fill the space.
        let stretches = h_weight * 1000 < (STRETCH_LIMIT as i128) * v_weight;
        let scale_x = if stretches {
            h_scale
        } else {
            v_scale
        };
        let scale_y = if h_weight <= v_weight {
            h_scale
        } else {
            v_scale
        };
        proof {
            self.lemma_inner_size_bounds();
            lemma_scaled_fits(
                available.width as int,
                available.height as int,
                size.width as int,
                size.height as int,
                self.margins.left as int,
                self.margins.top as int,
            );
        }
        let origin_x: i128 = div_floor(
            (available.width as i128) - scale_x.scale_up(size.width),
            2,
        );
        let origin_y: i128 = div_floor(
            (available.height as i128) - scale_y.scale_up(size.height),
            2,
        );
        let outside_margins = Transformation {
            origin_x: origin_x as i64,
            origin_y: origin_y as i64,
            scale_x,
            scale_y,
        };
        let margin_shift = Transformation {
            origin_x: self.margins.left,
            origin_y: self.margins.top,
            scale_x: Scale { num: 1, den: 1 },
            scale_y: Scale { num: 1, den: 1 },
        };
        assert(outside_margins.can_chain(margin_shift)) by (nonlinear_arith)
            requires
                outside_margins.scale_x == scale_x,
                outside_margins.scale_y == scale_y,
                margin_shift.scale_x == (Scale { num: 1, den: 1 }),
                margin_shift.scale_y == (Scale { num: 1, den: 1 }),
                0 <= outside_margins.origin_x <= MAX_EXTENT,
                0 <= outside_margins.origin_y <= MAX_EXTENT,
                0 <= scale_x.times(margin_shift.origin_x as int) <= MAX_EXTENT,
                0 <= scale_y.times(margin_shift.origin_y as int) <= MAX_EXTENT,
        ;
        outside_margins.chain(margin_shift)
    }

    /// Which button of the view that shows the point belongs to, the point
    /// being counted from the layout's origin.
    pub open spec fn hit(&self, point: Point) -> Option<(int, int)> {
        let place = self.views.place_of(self.current_view@);
        place.1.hit(point.x - place.0.x, point.y - place.0.y)
    }

    /// Finds the button of the view that shows to which `point` belongs,
    /// `point` being counted from the layout's origin. The offset that
    /// comes with the button is counted from the view's origin.
    pub fn find_button_by_position(&self, point: Point) -> (place: Option<ButtonPlace<'_>>)
        requires
            self.wf(),
            self.has_current_view(),
        ensures
            match place {
                Some(found) => {
                    &&& self.hit(point) matches Some((r, b))
                    &&& *found.button == self.views.place_of(
                        self.current_view@,
                    ).1.rows()[r].1.buttons()[b].1
                    &&& found.offset == self.views.place_of(self.current_view@).1.place_at(r, b)
                },
                None => self.hit(point) is None,
            },
    {
        let place = self.get_current_view_position();
        proof {
            self.views.lemma_one_place_for_each_name();
            let i = self.views.names().index_of(self.current_view@);
            place.1.lemma_size_bounds();
        }
        let size = place.1.get_size();
        let x: i128 = (point.x as i128) - (place.0.x as i128);
        let y: i128 = (point.y as i128) - (place.0.y as i128);
        if x <= 0 || x >= size.width as i128 || y <= 0 || y >= size.height as i128 {
            return None;
        }
        place.1.find_button_by_position(Point { x: x as i64, y: y as i64 })
    }

    /// Returns every button of the view that shows, row by row and from
    /// left to right, each with the place of its origin counted from the
    /// layout's origin.
    pub fn foreach_visible_button(&self) -> (places: Vec<(Point, &Button)>)
        requires
            self.wf(),
            self.has_current_view(),
        ensures
            deref_places(places@) == self.views.place_of(self.current_view@).1.places(
                self.views.place_of(self.current_view@).0,
            ),
    {
        let place = self.get_current_view_position();
        proof {
            self.views.lemma_one_place_for_each_name();
            let i = self.views.names().index_of(self.current_view@);
        }
        place.1.button_places(place.0)
    }

    /// What the action of an activated key does to the view, and the
    /// latch that follows.
    ///
    /// A key that submits, erases or sets a modifier ends a latch: the
    /// view falls back if it was latched, and the latch is off. A switch
    /// of view goes to its view and ends the latch. Every other key but a
    /// lock leaves both as they are.
    ///
    /// A lock key is locked when the view that shows is its `lock` view.
    /// Pressed while locked, it goes to its `unlock` view and ends the
    /// latch; unless it latches and the view is latched, when it only
    /// ends the latch and so makes the lock last. Pressed while not
    /// locked, it goes to its `lock` view; if it latches, the view is
    /// then latched, and it falls back to where an earlier latch falls
    /// back, or else to the view that showed.
    pub open spec fn view_transition(
        action: Action,
        current_view: Seq<char>,
        latched: Option<Seq<char>>,
    ) -> (Transition, Option<Seq<char>>) {
        match action {
            Action::Submit { .. } | Action::Erase | Action::ApplyModifier(_) => (
                if latched is Some {
                    Transition::UnlatchAll
                } else {
                    Transition::NoChange
                },
                None,
            ),
            Action::SetView(view) => (Transition::ChangeTo(view@), None),
            Action::LockView { lock, unlock, latches, .. } => {
                if lock@ == current_view {
                    if latches && latched is Some {
                        (Transition::NoChange, None)
                    } else {
                        (Transition::ChangeTo(unlock@), None)
                    }
                } else if latches {
                    (
                        Transition::ChangeTo(lock@),
                        Some(
                            match latched {
                                Some(view) => view,
                                None => current_view,
                            },
                        ),
                    )
                } else {
                    (Transition::ChangeTo(lock@), None)
                }
            },
            _ => (Transition::NoChange, latched),
        }
    }

    /// Tells what `action` does to the view, and the latch that follows.
    ///
    /// Clicked over and over, a lock key that latches goes from unlocked
    /// to locked and latched, then to locked, then back to unlocked.
    pub fn process_action_for_view<'a>(
        action: &'a Action,
        current_view: &String,
        latched: &LatchedState,
    ) -> (next: (ViewTransition<'a>, LatchedState))
        ensures
            (next.0@, next.1@) == Layout::view_transition(*action, current_view@, latched@),
    {
        match action {
            Action::Submit { text: _, keys: _ } | Action::Erase | Action::ApplyModifier(_) => {
                let t = match latched {
                    LatchedState::FromView(_) => ViewTransition::UnlatchAll,
                    LatchedState::Not => ViewTransition::NoChange,
                };
                (t, LatchedState::Not)
            },
            Action::SetView(view) => (ViewTransition::ChangeTo(view), LatchedState::Not),
            Action::LockView { lock, unlock, latches, looks_locked_from: _ } => {
                let locked = action.is_locked(current_view);
                match (locked, latched, *latches) {
                    // Was unlocked, now locked but latched.
                    (false, LatchedState::Not, true) => (
                        ViewTransition::ChangeTo(lock),
                        LatchedState::FromView(current_view.clone()),
                    ),
                    // The view is latched for another reason than this key.
                    (false, LatchedState::FromView(view), true) => (
                        ViewTransition::ChangeTo(lock),
                        LatchedState::FromView(view.clone()),
                    ),
                    // Was latched, now only locked.
                    (true, LatchedState::FromView(_), true) => (
                        ViewTransition::NoChange,
                        LatchedState::Not,
                    ),
                    // Was unlocked and cannot latch, so it is fully locked.
                    (false, _, false) => (ViewTransition::ChangeTo(lock), LatchedState::Not),
                    // Was locked, now unlocked.
                    (true, _, _) => (ViewTransition::ChangeTo(unlock), LatchedState::Not),
                }
            },
            _ => (ViewTransition::NoChange, copy_latched(latched)),
        }
    }

    /// Does to the view what `action` asks for.
    ///
    /// Where the action asks for a view that the layout does not have,
    /// the view that shows stays, and the name asked for is returned so
    /// that it can be reported. The latch is set as the action asks
    /// either way.
    pub fn apply_view_transition(&mut self, action: &Action) -> (missed: Option<String>)
        ensures
            old(self).same_but_view(*final(self)),
            old(self).has_current_view() ==> final(self).has_current_view(),
            final(self).current_view@ == old(self).views.view_after(
                *action,
                old(self).current_view@,
                old(self).view_latched@,
            ),
            final(self).view_latched@ == Layout::view_transition(
                *action,
                old(self).current_view@,
                old(self).view_latched@,
            ).1,
            match missed {
                Some(name) => Some(name@) == old(self).views.view_missed(
                    *action,
                    old(self).current_view@,
                    old(self).view_latched@,
                ),
                None => old(self).views.view_missed(
                    *action,
                    old(self).current_view@,
                    old(self).view_latched@,
                ) is None,
            },
    {
        transition_view(&self.views, &mut self.current_view, &mut self.view_latched, action)
    }

    /// Ends every latch: the view falls back to the one that showed before
    /// the first latch, and the latch is off.
    ///
    /// Where the layout does not have that view, nothing changes, and the
    /// name is returned so that it can be reported.
    pub fn unstick_locks(&mut self) -> (missed: Option<String>)
        ensures
            old(self).same_but_view(*final(self)),
            old(self).has_current_view() ==> final(self).has_current_view(),
            unstuck(
                old(self).views,
                old(self).current_view@,
                old(self).view_latched@,
                final(self).current_view@,
                final(self).view_latched@,
                missed,
            ),
    {
        unstick(&self.views, &mut self.current_view, &mut self.view_latched)
    }
}

impl ViewMap {
    /// The view that shows after `action`, where the view named `current`
    /// shows and the latch is `latched`: the view that `view_transition`
    /// asks for if there is one of that name, else the one that shows.
    pub open spec fn view_after(
        &self,
        action: Action,
        current: Seq<char>,
        latched: Option<Seq<char>>,
    ) -> Seq<char> {
        match Layout::view_transition(action, current, latched).0 {
            Transition::ChangeTo(name) => if self.has(name) {
                name
            } else {
                current
            },
            Transition::UnlatchAll => if self.has(latched->0) {
                latched->0
            } else {
                current
            },
            Transition::NoChange => current,
        }
    }

    /// The name of the view that `action` asks for in vain, if it does:
    /// one that is not there.
    pub open spec fn view_missed(
        &self,
        action: Action,
        current: Seq<char>,
        latched: Option<Seq<char>>,
    ) -> Option<Seq<char>> {
        match Layout::view_transition(action, current, latched).0 {
            Transition::ChangeTo(name) => if self.has(name) {
                None
            } else {
                Some(name)
            },
            Transition::UnlatchAll => if self.has(latched->0) {
                None
            } else {
                latched
            },
            Transition::NoChange => None,
        }
    }
}

/// Whether `current_after` and `latched_after` are what the end of every
/// latch leaves of `current` and `latched`, and `missed` what it reports.
///
/// A latched view falls back to the view that the latch names, and the
/// latch is off. Where there is no view of that name, nothing changes,
/// and the name is reported.
pub open spec fn unstuck(
    views: ViewMap,
    current: Seq<char>,
    latched: Option<Seq<char>>,
    current_after: Seq<char>,
    latched_after: Option<Seq<char>>,
    missed: Option<String>,
) -> bool {
    match latched {
        Some(name) => if views.has(name) {
            &&& current_after == name
            &&& latched_after is None
            &&& missed is None
        } else {
            &&& current_after == current
            &&& latched_after == latched
            &&& missed matches Some(reported)
            &&& reported@ == name
        },
        None => {
            &&& current_after == current
            &&& latched_after is None
            &&& missed is None
        },
    }
}

/// Returns a copy of `latched`.
fn copy_latched(latched: &LatchedState) -> (copy: LatchedState)
    ensures
        copy@ == latched@,
{
    match latched {
        LatchedState::FromView(name) => LatchedState::FromView(name.clone()),
        LatchedState::Not => LatchedState::Not,
    }
}

/// Makes `view` the name of the view that shows, if `views` has one of
/// that name.
fn switch_view(views: &ViewMap, current_view: &mut String, view: String) -> (done: Result<
    (),
    NoSuchView,
>)
    ensures
        match done {
            Ok(_) => views.has(view@) && final(current_view)@ == view@,
            Err(_) => !views.has(view@) && final(current_view)@ == old(current_view)@,
        },
{
    if views.contains_key(&view) {
        *current_view = view;
        Ok(())
    } else {
        Err(NoSuchView)
    }
}

/// Makes `view_name` the name of the view that shows, if `views` has one
/// of that name. If not, returns the name so that it can be reported.
fn try_switch_view(views: &ViewMap, current_view: &mut String, view_name: &String) -> (missed:
    Option<String>)
    ensures
        final(current_view)@ == if views.has(view_name@) {
            view_name@
        } else {
            old(current_view)@
        },
        match missed {
            Some(name) => name@ == view_name@ && !views.has(view_name@),
            None => views.has(view_name@),
        },
{
    match switch_view(views, current_view, view_name.clone()) {
        Ok(_) => None,
        Err(_) => Some(view_name.clone()),
    }
}

/// Ends every latch; see `Layout::unstick_locks`.
fn unstick(views: &ViewMap, current_view: &mut String, view_latched: &mut LatchedState) -> (missed:
    Option<String>)
    ensures
        unstuck(
            *views,
            old(current_view)@,
            old(view_latched)@,
            final(current_view)@,
            final(view_latched)@,
            missed,
        ),
{
    let name = match view_latched {
        LatchedState::FromView(name) => name.clone(),
        LatchedState::Not => {
            return None;
        },
    };
    match switch_view(views, current_view, name.clone()) {
        Ok(_) => {
            *view_latched = LatchedState::Not;
            None
        },
        Err(_) => Some(name),
    }
}

/// Does to the view what `action` asks for; see
/// `Layout::apply_view_transition`.
pub fn transition_view(
    views: &ViewMap,
    current_view: &mut String,
    view_latched: &mut LatchedState,
    action: &Action,
) -> (missed: Option<String>)
    ensures
        final(current_view)@ == views.view_after(*action, old(current_view)@, old(view_latched)@),
        final(view_latched)@ == Layout::view_transition(
            *action,
            old(current_view)@,
            old(view_latched)@,
        ).1,
        match missed {
            Some(name) => Some(name@) == views.view_missed(
                *action,
                old(current_view)@,
                old(view_latched)@,
            ),
            None => views.view_missed(*action, old(current_view)@, old(view_latched)@) is None,
        },
{
    let (transition, new_latched) = Layout::process_action_for_view(
        action,
        current_view,
        view_latched,
    );
    let missed = match transition {
        ViewTransition::UnlatchAll => unstick(views, current_view, view_latched),
        ViewTransition::ChangeTo(view) => try_switch_view(views, current_view, view),
        ViewTransition::NoChange => None,
    };
    *view_latched = new_latched;
    missed
}

/// Makes the view named `view_name` the one that shows, if the layout has
/// one of that name. If not, nothing changes, and the name is returned so
/// that it can be reported.
pub fn try_set_view(layout: &mut Layout, view_name: &String) -> (missed: Option<String>)
    ensures
        old(layout).same_but_view(*final(layout)),
        old(layout).has_current_view() ==> final(layout).has_current_view(),
        final(layout).view_latched@ == old(layout).view_latched@,
        final(layout).current_view@ == if old(layout).views.has(view_name@) {
            view_name@
        } else {
            old(layout).current_view@
        },
        match missed {
            Some(name) => name@ == view_name@ && !old(layout).views.has(view_name@),
            None => old(layout).views.has(view_name@),
        },
{
    try_switch_view(&layout.views, &mut layout.current_view, view_name)
}

/// Pressed over and over, a lock key that latches goes from unlocked to
/// locked and latched, then to locked, then back to unlocked.
///
/// Let the key's `lock` and `unlock` views be there, and let `start` be a
/// view other than `lock` that shows unlatched. The first press goes to
/// `lock` and latches, to fall back to `start`. The second changes no
/// view and ends the latch. The third goes to `unlock`.
pub proof fn lemma_latching_lock_cycle(views: ViewMap, action: Action, start: Seq<char>)
    requires
        action matches Action::LockView { lock, unlock, latches, .. } && latches && views.has(lock@)
            && views.has(unlock@) && lock@ != start,
    ensures
        ({
            let lock = action->lock@;
            let unlock = action->unlock@;
            &&& Layout::view_transition(action, start, None) == (
                Transition::ChangeTo(lock),
                Some(start),
            )
            &&& views.view_after(action, start, None) == lock
            &&& Layout::view_transition(action, lock, Some(start)) == (
                Transition::NoChange,
                None::<Seq<char>>,
            )
            &&& views.view_after(action, lock, Some(start)) == lock
            &&& Layout::view_transition(action, lock, None) == (
                Transition::ChangeTo(unlock),
                None::<Seq<char>>,
            )
            &&& views.view_after(action, lock, None) == unlock
        }),
{
}

/// A key that submits, erases or sets a modifier ends a latch and leaves a
/// lock alone.
///
/// While the view is latched, such a key makes it fall back to the view
/// that the latch names, if that view is there; while it is not latched,
/// the view stays. The latch is off afterwards either way.
pub proof fn lemma_submission_unlatches(
    views: ViewMap,
    action: Action,
    current: Seq<char>,
    latched: Option<Seq<char>>,
)
    requires
        action is Submit || action is Erase || action is ApplyModifier,
    ensures
        Layout::view_transition(action, current, latched).1 is None,
        views.view_after(action, current, latched) == match latched {
            Some(name) => if views.has(name) {
                name
            } else {
                current
            },
            None => current,
        },
{
}

/// A latch within a latch falls back all the way.
///
/// Let `first` and `second` be lock keys that latch, and let the views
/// `base`, the `lock` view of `first` and that of `second` be there and
/// differ from one another. From `base` unlatched, a press of `first` and
/// then one of `second` lead to the `lock` view of `second`, still latched
/// to fall back to `base`; and a key that erases then leads back to
/// `base`, unlatched.
pub proof fn lemma_nested_latch_falls_back(
    views: ViewMap,
    first: Action,
    second: Action,
    base: Seq<char>,
)
    requires
        first matches Action::LockView { lock, latches, .. } && latches && views.has(lock@) && lock@
            != base,
        second matches Action::LockView { lock, latches, .. } && latches && views.has(lock@)
            && lock@ != first->lock@,
        views.has(base),
    ensures
        ({
            let one = first->lock@;
            let two = second->lock@;
            &&& views.view_after(first, base, None) == one
            &&& Layout::view_transition(first, base, None).1 == Some(base)
            &&& views.view_after(second, one, Some(base)) == two
            &&& Layout::view_transition(second, one, Some(base)).1 == Some(base)
            &&& views.view_after(Action::Erase, two, Some(base)) == base
            &&& Layout::view_transition(Action::Erase, two, Some(base)).1 is None
        }),
{
}

/// The layout is never stretched vertically, never shrunk horizontally
/// below the uniform scale, and stretched horizontally by less than
/// `STRETCH_LIMIT` thousandths.
///
/// The vertical scale is the smaller of the scale that fills the width and
/// the one that fills the height. The horizontal scale is one of the two
/// as well, at least the vertical scale, and less than `STRETCH_LIMIT`
/// thousandths of it.
pub proof fn lemma_stretch_is_bounded(size: Size, available: Size)
    requires
        0 < size.width,
        0 < size.height,
        0 < available.width,
        0 < available.height,
    ensures
        ({
            let (scale_x, scale_y) = Layout::scales_for(size, available);
            let h_scale = Scale { num: available.width, den: size.width };
            let v_scale = Scale { num: available.height, den: size.height };
            &&& scale_x == h_scale || scale_x == v_scale
            &&& scale_y == h_scale || scale_y == v_scale
            &&& scale_y.num * h_scale.den <= h_scale.num * scale_y.den
            &&& scale_y.num * v_scale.den <= v_scale.num * scale_y.den
            &&& scale_y.num * scale_x.den <= scale_x.num * scale_y.den
            &&& 1000 * (scale_x.num * scale_y.den) < STRETCH_LIMIT * (scale_y.num * scale_x.den)
        }),
{
    let aw = available.width as int;
    let ah = available.height as int;
    let sw = size.width as int;
    let sh = size.height as int;
    assert(0 < aw * sw && 0 < ah * sh && 0 < aw * sh && 0 < ah * sw) by (nonlinear_arith)
        requires
            0 < aw,
            0 < ah,
            0 < sw,
            0 < sh,
    ;
}

/// How far the layout may be stretched to fill the width, in thousandths:
/// the scale that fills the width is taken as long as it is less than this
/// many thousandths of the scale that fills the height.
pub const STRETCH_LIMIT: i64 = 1055;

/// The products that compare the two scales are small enough to compute:
/// neither is greater than `2^82`.
proof fn lemma_cross_products(aw: int, ah: int, sw: int, sh: int)
    requires
        0 < aw <= MAX_EXTENT,
        0 < ah <= MAX_EXTENT,
        0 < sw <= 4 * MAX_EXTENT,
        0 < sh <= 4 * MAX_EXTENT,
    ensures
        0 < aw * sh <= 0x4_0000_0000_0000_0000_0000,
        0 < ah * sw <= 0x4_0000_0000_0000_0000_0000,
{
    assert(0 < aw * sh <= 0x4_0000_0000_0000_0000_0000) by (nonlinear_arith)
        requires
            0 < aw <= 0x100_0000_0000,
            0 < sh <= 0x400_0000_0000,
    ;
    assert(0 < ah * sw <= 0x4_0000_0000_0000_0000_0000) by (nonlinear_arith)
        requires
            0 < ah <= 0x100_0000_0000,
            0 < sw <= 0x400_0000_0000,
    ;
}

/// Scaled to fill a space, neither the layout nor its margins reach
/// beyond the space.
///
/// With either scale that `scales_for` picks for an axis, the scaled
/// extent of the layout on that axis is between zero and what is
/// available, and so is the scaled margin.
proof fn lemma_scaled_fits(aw: int, ah: int, sw: int, sh: int, left: int, top: int)
    requires
        0 < aw <= MAX_EXTENT,
        0 < ah <= MAX_EXTENT,
        0 < sw <= 4 * MAX_EXTENT,
        0 < sh <= 4 * MAX_EXTENT,
        0 <= left <= sw,
        0 <= top <= sh,
    ensures
        ({
            let size = Size { width: sw as i64, height: sh as i64 };
            let available = Size { width: aw as i64, height: ah as i64 };
            let (scale_x, scale_y) = Layout::scales_for(size, available);
            &&& scale_x.wf()
            &&& scale_y.wf()
            &&& 0 <= scale_x.times(sw) <= aw
            &&& 0 <= scale_y.times(sh) <= ah
            &&& 0 <= scale_x.times(left) <= aw
            &&& 0 <= scale_y.times(top) <= ah
        }),
{
    let size = Size { width: sw as i64, height: sh as i64 };
    let available = Size { width: aw as i64, height: ah as i64 };
    let (scale_x, scale_y) = Layout::scales_for(size, available);
    let h_scale = Scale { num: aw as i64, den: sw as i64 };
    let v_scale = Scale { num: ah as i64, den: sh as i64 };
    // The scale that fills the width.
    assert(sw * aw <= aw * sw && left * aw <= aw * sw) by (nonlinear_arith)
        requires
            0 <= left <= sw,
            0 < aw,
    ;
    // The scale that fills the height.
    assert(sh * ah <= ah * sh && top * ah <= ah * sh) by (nonlinear_arith)
        requires
            0 <= top <= sh,
            0 < ah,
    ;
    if scale_x == h_scale {
        lemma_times_bound(h_scale, sw, aw);
        lemma_times_bound(h_scale, left, aw);
    } else {
        // It is not stretched: what fills the height is the smaller.
        assert(sw * ah <= aw * sh && left * ah <= aw * sh) by (nonlinear_arith)
            requires
                1000 * (aw * sh) >= 1055 * (ah * sw),
                0 <= left <= sw,
                0 < ah,
                0 < aw,
                0 < sh,
        ;
        lemma_times_bound(v_scale, sw, aw);
        lemma_times_bound(v_scale, left, aw);
    }
    if scale_y == v_scale {
        lemma_times_bound(v_scale, sh, ah);
        lemma_times_bound(v_scale, top, ah);
    } else {
        assert(sh * aw <= ah * sw && top * aw <= ah * sw) by (nonlinear_arith)
            requires
                aw * sh <= ah * sw,
                0 <= top <= sh,
                0 < aw,
        ;
        lemma_times_bound(h_scale, sh, ah);
        lemma_times_bound(h_scale, top, ah);
    }
}

} // verus!
