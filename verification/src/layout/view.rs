//! Views: rows stacked and centered.

use vstd::prelude::*;
use vstd::view::View as _;
use crate::geometry::{in_extent, Bounds, Point, Size, MAX_EXTENT};
use crate::layout::row::{Button, Row};
use crate::util::{
    find_max, find_slot, offsets_of, seq_max, slot_at, starts_increase, strictly_increasing, Placed,
};

verus! {

impl Placed for (i64, Row) {
    open spec fn offset(&self) -> i64 {
        self.0
    }

    fn get_offset(&self) -> (offset: i64) {
        self.0
    }
}

impl Placed for (Point, Row) {
    open spec fn offset(&self) -> i64 {
        self.0.y
    }

    fn get_offset(&self) -> (offset: i64) {
        self.0.y
    }
}

/// A button that was found in a view.
pub struct ButtonPlace<'a> {
    pub button: &'a Button,
    /// Where the button's origin lies, seen from the view's origin.
    pub offset: Point,
}

/// The buttons that `places` refers to, each with its place.
pub open spec fn deref_places(places: Seq<(Point, &Button)>) -> Seq<(Point, Button)> {
    Seq::new(places.len(), |i: int| (places[i].0, *places[i].1))
}

/// A view: rows stacked from top to bottom, each centered.
#[derive(Clone, Debug)]
pub struct View {
    /// The rows, each with the offset of its origin from the view's.
    rows: Vec<(Point, Row)>,
    size: Size,
}

impl View {
    /// The rows with the offsets of their origins, from top to bottom.
    pub closed spec fn rows(&self) -> Seq<(Point, Row)> {
        self.rows@
    }

    /// The size of the view.
    pub closed spec fn size(&self) -> Size {
        self.size
    }

    /// The widths of `rows`, in their order.
    pub open spec fn widths(rows: Seq<(i64, Row)>) -> Seq<i64> {
        Seq::new(rows.len(), |i: int| rows[i].1.size().width)
    }

    /// What a view can be made of: well-formed rows whose vertical offsets
    /// are neither negative nor greater than `MAX_EXTENT`, each further
    /// down than the one before.
    pub open spec fn valid_children(rows: Seq<(i64, Row)>) -> bool {
        &&& forall|i: int|
            0 <= i < rows.len() ==> in_extent((#[trigger] rows[i]).0 as int) && rows[i].1.wf()
        &&& strictly_increasing(offsets_of(rows))
    }

    /// The size of a view of `rows`: as wide as the widest row, as tall
    /// as the last row reaches.
    pub open spec fn size_of(rows: Seq<(i64, Row)>) -> Size {
        Size {
            width: seq_max(View::widths(rows)),
            height: if rows.len() == 0 {
                0
            } else {
                (rows.last().0 + rows.last().1.size().height) as i64
            },
        }
    }

    /// The rows as they were given: each with its vertical offset alone.
    pub open spec fn children(&self) -> Seq<(i64, Row)> {
        Seq::new(self.rows().len(), |i: int| (self.rows()[i].0.y, self.rows()[i].1))
    }

    /// The view is made of valid children, has the size that follows from
    /// them, and holds every row centered within its width.
    pub open spec fn wf(&self) -> bool {
        &&& View::valid_children(self.children())
        &&& self.size() == View::size_of(self.children())
        &&& forall|i: int|
            0 <= i < self.rows().len() ==> (#[trigger] self.rows()[i]).0.x == (self.size().width
                - self.rows()[i].1.size().width) / 2
    }

    /// Every button of the view stands for one of the first `count` keys.
    pub open spec fn keys_below(&self, count: nat) -> bool {
        forall|r: int| 0 <= r < self.rows().len() ==> (#[trigger] self.rows()[r]).1.keys_below(count)
    }

    /// A view of valid children is at least as wide as each of its rows,
    /// and at most twice `MAX_EXTENT` wide.
    pub proof fn lemma_width_bounds(rows: Seq<(i64, Row)>)
        requires
            View::valid_children(rows),
        ensures
            0 <= seq_max(View::widths(rows)) <= 2 * MAX_EXTENT,
            forall|i: int|
                0 <= i < rows.len() ==> (#[trigger] rows[i]).1.size().width <= seq_max(
                    View::widths(rows),
                ),
    {
        let widths = View::widths(rows);
        crate::util::lemma_seq_max(widths);
        if rows.len() > 0 {
            let k = choose|i: int| 0 <= i < widths.len() && widths[i] == seq_max(widths);
            rows[k].1.lemma_size_bounds();
        }
        assert forall|i: int| 0 <= i < rows.len() implies (#[trigger] rows[i]).1.size().width
            <= seq_max(widths) by {
            assert(widths[i] == rows[i].1.size().width);
        }
    }

    /// Tells whether a view can be made of `rows`.
    pub fn valid(rows: &Vec<(i64, Row)>) -> (valid: bool)
        ensures
            valid == View::valid_children(rows@),
    {
        let mut i: usize = 0;
        while i < rows.len()
            invariant
                i <= rows.len(),
                forall|j: int|
                    0 <= j < i ==> in_extent((#[trigger] rows@[j]).0 as int) && rows@[j].1.wf(),
            decreases rows.len() - i,
        {
            if rows[i].0 < 0 || rows[i].0 > MAX_EXTENT || !rows[i].1.is_valid() {
                return false;
            }
            i += 1;
        }
        starts_increase(rows)
    }

    /// Tells whether the view is well formed.
    pub fn is_valid(&self) -> (valid: bool)
        ensures
            valid == self.wf(),
    {
        let ghost children = self.children();
        let count = self.rows.len();
        let mut widths: Vec<i64> = Vec::new();
        let mut i: usize = 0;
        while i < count
            invariant
                count == self.rows().len(),
                children == self.children(),
                i <= count,
                widths@ =~= View::widths(children.take(i as int)),
                forall|j: int|
                    0 <= j < i ==> in_extent((#[trigger] children[j]).0 as int)
                        && children[j].1.wf(),
            decreases count - i,
        {
            let row = &self.rows[i];
            assert(children[i as int] == (row.0.y, row.1));
            if row.0.y < 0 || row.0.y > MAX_EXTENT || !row.1.is_valid() {
                return false;
            }
            widths.push(row.1.get_size().width);
            i += 1;
        }
        assert(children.take(count as int) =~= children);
        assert(offsets_of(self.rows()) =~= offsets_of(children));
        if !starts_increase(&self.rows) {
            return false;
        }
        let width = find_max(&widths);
        proof {
            View::lemma_width_bounds(children);
            if count > 0 {
                children[count - 1].1.lemma_size_bounds();
            }
        }
        let height: i64 = if count == 0 {
            0
        } else {
            self.rows[count - 1].0.y + self.rows[count - 1].1.get_size().height
        };
        if self.size.width != width || self.size.height != height {
            return false;
        }
        let mut k: usize = 0;
        while k < count
            invariant
                count == self.rows().len(),
                children == self.children(),
                View::valid_children(children),
                self.size() == View::size_of(children),
                k <= count,
                forall|j: int|
                    0 <= j < k ==> (#[trigger] self.rows()[j]).0.x == (self.size().width
                        - self.rows()[j].1.size().width) / 2,
            decreases count - k,
        {
            let row = &self.rows[k];
            proof {
                View::lemma_width_bounds(children);
                assert(children[k as int].1 == row.1);
                row.1.lemma_size_bounds();
            }
            if row.0.x != (self.size.width - row.1.get_size().width) / 2 {
                return false;
            }
            k += 1;
        }
        true
    }

    /// Tells whether every button of the view stands for one of the first
    /// `count` keys.
    pub fn has_keys_below(&self, count: usize) -> (below: bool)
        ensures
            below == self.keys_below(count as nat),
    {
        let mut r: usize = 0;
        while r < self.rows.len()
            invariant
                r <= self.rows.len(),
                forall|j: int| 0 <= j < r ==> (#[trigger] self.rows()[j]).1.keys_below(count as nat),
            decreases self.rows.len() - r,
        {
            if !self.rows[r].1.has_keys_below(count) {
                assert(!self.rows()[r as int].1.keys_below(count as nat));
                return false;
            }
            r += 1;
        }
        true
    }

    /// Makes a view of `rows`, each with its vertical offset.
    ///
    /// Every row is centered within the width of the view; nothing else
    /// decides where it lies horizontally.
    pub fn new(rows: Vec<(i64, Row)>) -> (view: View)
        requires
            View::valid_children(rows@),
        ensures
            view.wf(),
            view.children() == rows@,
    {
        let count = rows.len();
        let mut widths: Vec<i64> = Vec::new();
        let mut i: usize = 0;
        while i < count
            invariant
                count == rows.len(),
                i <= count,
                widths@ =~= View::widths(rows@.take(i as int)),
            decreases count - i,
        {
            widths.push(rows[i].1.get_size().width);
            i += 1;
        }
        assert(rows@.take(count as int) =~= rows@);
        let width = find_max(&widths);
        proof {
            View::lemma_width_bounds(rows@);
            if count > 0 {
                rows@[count - 1].1.lemma_size_bounds();
            }
        }
        let height: i64 = if count == 0 {
            0
        } else {
            rows[count - 1].0 + rows[count - 1].1.get_size().height
        };
        let ghost given = rows@;
        let mut centered: Vec<(Point, Row)> = Vec::new();
        for entry in it: rows
            invariant
                it.seq() == given,
                View::valid_children(given),
                width == seq_max(View::widths(given)),
                centered@.len() == it.index(),
                forall|k: int|
                    0 <= k < centered@.len() ==> (#[trigger] centered@[k]).1 == given[k].1
                        && centered@[k].0.y == given[k].0 && centered@[k].0.x == (width
                        - given[k].1.size().width) / 2,
        {
            let (y_offset, row) = entry;
            proof {
                View::lemma_width_bounds(given);
                row.lemma_size_bounds();
            }
            let x_offset: i64 = (width - row.get_size().width) / 2;
            centered.push((Point { x: x_offset, y: y_offset }, row));
        }
        let view = View { rows: centered, size: Size { width, height } };
        assert(view.children() =~= given);
        view
    }

    /// A well-formed view has no negative extent and is at most twice
    /// `MAX_EXTENT` wide and tall, and no row starts left of the view or
    /// further right than `MAX_EXTENT`.
    pub proof fn lemma_size_bounds(&self)
        requires
            self.wf(),
        ensures
            0 <= self.size().width <= 2 * MAX_EXTENT,
            0 <= self.size().height <= 2 * MAX_EXTENT,
            forall|i: int|
                0 <= i < self.rows().len() ==> 0 <= (#[trigger] self.rows()[i]).0.x
                    <= MAX_EXTENT,
    {
        let children = self.children();
        View::lemma_width_bounds(children);
        if children.len() > 0 {
            children[children.len() - 1].1.lemma_size_bounds();
        }
        assert forall|i: int| 0 <= i < self.rows().len() implies 0 <= (
        #[trigger] self.rows()[i]).0.x <= MAX_EXTENT by {
            children[i].1.lemma_size_bounds();
        }
    }

    /// Which button the point `(x, y)` belongs to, the point being
    /// counted from the view's origin: the index of the row, and that of
    /// the button in the row.
    ///
    /// A point on the edge of the view or beyond it belongs to none. Any
    /// other point belongs to the last row that starts above it, or to the
    /// first row where none does; and in that row to the last button that
    /// starts left of it, or to the first where none does. The row's own
    /// extent plays no part, nor does the button's. In a row that holds no
    /// button, a point belongs to none.
    pub open spec fn hit(&self, x: int, y: int) -> Option<(int, int)> {
        if !(0 < x < self.size().width && 0 < y < self.size().height) {
            None
        } else {
            let r = slot_at(offsets_of(self.rows()), y);
            let row = self.rows()[r];
            if row.1.buttons().len() == 0 {
                None
            } else {
                Some((r, slot_at(offsets_of(row.1.buttons()), x - row.0.x)))
            }
        }
    }

    /// Where the button found by `hit` lies, seen from the view's origin.
    pub open spec fn place_at(&self, r: int, b: int) -> Point {
        Point {
            x: (self.rows()[r].0.x + self.rows()[r].1.buttons()[b].0) as i64,
            y: self.rows()[r].0.y,
        }
    }

    /// `hit` names a button of the view.
    pub proof fn lemma_hit_in_range(&self, x: int, y: int)
        requires
            self.wf(),
        ensures
            self.hit(x, y) matches Some((r, b)) ==> 0 <= r < self.rows().len() && 0 <= b
                < self.rows()[r].1.buttons().len(),
    {
        if self.hit(x, y) is Some {
            if self.rows().len() > 0 {
                crate::util::lemma_slot_in_range(offsets_of(self.rows()), y);
                let r = slot_at(offsets_of(self.rows()), y);
                crate::util::lemma_slot_in_range(
                    offsets_of(self.rows()[r].1.buttons()),
                    x - self.rows()[r].0.x,
                );
            }
        }
    }

    /// No point within a view falls between the buttons.
    ///
    /// In a view whose every row holds a button, a point belongs to a
    /// button exactly if it lies within the bounds of the view, the edges
    /// left out.
    pub proof fn lemma_hit_is_total(&self, x: int, y: int)
        requires
            self.wf(),
            forall|r: int|
                0 <= r < self.rows().len() ==> (#[trigger] self.rows()[r]).1.buttons().len() > 0,
        ensures
            self.hit(x, y) is Some <==> 0 < x < self.size().width && 0 < y < self.size().height,
    {
        if 0 < x < self.size().width && 0 < y < self.size().height {
            if self.rows().len() > 0 {
                crate::util::lemma_slot_in_range(offsets_of(self.rows()), y);
            }
        }
    }

    /// Finds the button to which `point` belongs, `point` being counted
    /// from the view's origin.
    pub fn find_button_by_position(&self, point: Point) -> (place: Option<ButtonPlace<'_>>)
        requires
            self.wf(),
        ensures
            match place {
                Some(found) => {
                    &&& self.hit(point.x as int, point.y as int) matches Some((r, b))
                    &&& *found.button == self.rows()[r].1.buttons()[b].1
                    &&& found.offset == self.place_at(r, b)
                },
                None => self.hit(point.x as int, point.y as int) is None,
            },
    {
        // Only the bounds of the view are tested: within them, the search
        // reaches out to the edges.
        let bounds = Bounds { x: 0, y: 0, width: self.size.width, height: self.size.height };
        if !bounds.contains(&point) {
            return None;
        }
        proof {
            self.lemma_size_bounds();
            assert(offsets_of(self.rows()) =~= offsets_of(self.children()));
        }
        let index = find_slot(&self.rows, point.y);
        let row = &self.rows[index];
        proof {
            assert(self.children()[index as int].1.wf());
        }
        let buttons = row.1.get_buttons();
        if buttons.len() == 0 {
            return None;
        }
        let button = row.1.find_button_by_position(point.x - row.0.x);
        proof {
            let b = slot_at(offsets_of(row.1.buttons()), point.x - row.0.x);
            crate::util::lemma_slot_in_range(offsets_of(row.1.buttons()), point.x - row.0.x);
        }
        Some(ButtonPlace { button: &button.1, offset: Point { x: row.0.x + button.0, y: row.0.y } })
    }

    /// The buttons of the first `count` rows, row by row and from left to
    /// right, each with the place of its origin when the view's origin
    /// lies at `origin`.
    pub open spec fn places_upto(&self, origin: Point, count: int) -> Seq<(Point, Button)>
        decreases count,
    {
        if count <= 0 {
            Seq::empty()
        } else {
            self.places_upto(origin, count - 1) + self.rows()[count - 1].1.places(
                Point {
                    x: (origin.x + self.rows()[count - 1].0.x) as i64,
                    y: (origin.y + self.rows()[count - 1].0.y) as i64,
                },
            )
        }
    }

    /// The buttons of the view, row by row and from left to right, each
    /// with the place of its origin when the view's origin lies at
    /// `origin`.
    pub open spec fn places(&self, origin: Point) -> Seq<(Point, Button)> {
        self.places_upto(origin, self.rows().len() as int)
    }

    /// Returns the buttons of the view, row by row and from left to right,
    /// each with the place of its origin when the view's origin lies at
    /// `origin`.
    pub fn button_places(&self, origin: Point) -> (places: Vec<(Point, &Button)>)
        requires
            self.wf(),
            origin.wf(),
        ensures
            deref_places(places@) == self.places(origin),
    {
        let mut places: Vec<(Point, &Button)> = Vec::new();
        let mut r: usize = 0;
        proof {
            self.lemma_size_bounds();
        }
        while r < self.rows.len()
            invariant
                self.wf(),
                origin.wf(),
                r <= self.rows().len(),
                forall|i: int|
                    0 <= i < self.rows().len() ==> 0 <= (#[trigger] self.rows()[i]).0.x
                        <= MAX_EXTENT,
                deref_places(places@) == self.places_upto(origin, r as int),
            decreases self.rows().len() - r,
        {
            let row = &self.rows[r];
            proof {
                assert(in_extent(self.children()[r as int].0 as int));
            }
            let row_origin = Point { x: origin.x + row.0.x, y: origin.y + row.0.y };
            let buttons = row.1.get_buttons();
            let ghost before = deref_places(places@);
            let mut b: usize = 0;
            while b < buttons.len()
                invariant
                    b <= buttons.len(),
                    buttons@ == row.1.buttons(),
                    row.1.wf(),
                    -MAX_EXTENT <= row_origin.x <= 2 * MAX_EXTENT,
                    deref_places(places@) == before + row.1.places(row_origin).take(b as int),
                decreases buttons.len() - b,
            {
                let ghost so_far = deref_places(places@);
                let place = Point { x: row_origin.x + buttons[b].0, y: row_origin.y };
                places.push((place, &buttons[b].1));
                assert(deref_places(places@) =~= so_far.push((place, buttons@[b as int].1)));
                assert(row.1.places(row_origin).take(b + 1) =~= row.1.places(row_origin).take(
                    b as int,
                ).push((place, buttons@[b as int].1)));
                b += 1;
            }
            r += 1;
        }
        places
    }

    /// Returns the size of the view.
    pub fn get_size(&self) -> (size: Size)
        ensures
            size == self.size(),
    {
        self.size
    }

    /// Returns the rows with the offsets of their origins: the horizontal
    /// one that centers the row, and the vertical one that the view was
    /// built with.
    pub fn get_rows(&self) -> (rows: &Vec<(Point, Row)>)
        ensures
            rows@ == self.rows(),
    {
        &self.rows
    }

    /// The widths of `views`, in their order.
    pub open spec fn view_widths(views: Seq<&View>) -> Seq<i64> {
        Seq::new(views.len(), |i: int| views[i].size().width)
    }

    /// The heights of `views`, in their order.
    pub open spec fn view_heights(views: Seq<&View>) -> Seq<i64> {
        Seq::new(views.len(), |i: int| views[i].size().height)
    }

    /// Returns the size that holds every one of `views` when all are
    /// centered on one point: the greatest width and the greatest height.
    pub fn calculate_super_size(views: Vec<&View>) -> (size: Size)
        ensures
            size.width == seq_max(View::view_widths(views@)),
            size.height == seq_max(View::view_heights(views@)),
    {
        let mut widths: Vec<i64> = Vec::new();
        let mut heights: Vec<i64> = Vec::new();
        let mut i: usize = 0;
        while i < views.len()
            invariant
                i <= views.len(),
                widths@ =~= View::view_widths(views@.take(i as int)),
                heights@ =~= View::view_heights(views@.take(i as int)),
            decreases views.len() - i,
        {
            widths.push(views[i].size.width);
            heights.push(views[i].size.height);
            i += 1;
        }
        assert(views@.take(views.len() as int) =~= views@);
        Size { height: find_max(&heights), width: find_max(&widths) }
    }
}

} // verus!
