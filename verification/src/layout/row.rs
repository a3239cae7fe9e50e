//! Buttons, and rows of buttons.

use vstd::prelude::*;
use crate::geometry::{in_extent, Bounds, Point, Size, MAX_EXTENT};
use crate::keyboard::KeyId;
use crate::util::{
    find_max, find_slot, offsets_of, seq_max, slot_at, starts_increase, strictly_increasing, Placed,
};

verus! {

/// What a button shows.
#[derive(Clone, Debug, PartialEq, Eq)]
pub enum Label {
    /// The text that stands for the symbol.
    Text(String),
    /// The name of the icon that stands for the symbol.
    IconName(String),
}

/// A button as it is drawn.
#[derive(Clone, Debug)]
pub struct Button {
    /// Identifies the button, for styling among other things.
    pub name: String,
    /// What the button shows.
    pub label: Label,
    pub size: Size,
    /// The name of the visual class applied.
    pub outline_name: String,
    /// The key behind the button. Several buttons may share one.
    pub state: KeyId,
}

impl Button {
    /// Neither extent of the button is negative or greater than
    /// `MAX_EXTENT`.
    pub open spec fn wf(&self) -> bool {
        self.size.wf()
    }

    /// Tells whether neither extent of the button is negative or greater
    /// than `MAX_EXTENT`.
    pub fn is_valid(&self) -> (valid: bool)
        ensures
            valid == self.wf(),
    {
        0 <= self.size.width && self.size.width <= MAX_EXTENT && 0 <= self.size.height
            && self.size.height <= MAX_EXTENT
    }

    /// Returns the rectangle that the button covers, seen from its own
    /// origin.
    pub fn get_bounds(&self) -> (bounds: Bounds)
        ensures
            bounds == (Bounds { x: 0, y: 0, width: self.size.width, height: self.size.height }),
    {
        Bounds { x: 0, y: 0, width: self.size.width, height: self.size.height }
    }
}

impl Placed for (i64, Button) {
    open spec fn offset(&self) -> i64 {
        self.0
    }

    fn get_offset(&self) -> (offset: i64) {
        self.0
    }
}

/// A row of buttons, each with the offset of its left edge from the row's.
#[derive(Clone, Debug)]
pub struct Row {
    buttons: Vec<(i64, Button)>,
    size: Size,
}

impl Row {
    /// The buttons with their offsets, from left to right.
    pub closed spec fn buttons(&self) -> Seq<(i64, Button)> {
        self.buttons@
    }

    /// The size of the row.
    pub closed spec fn size(&self) -> Size {
        self.size
    }

    /// The heights of `children`, in their order.
    pub open spec fn heights(children: Seq<(i64, Button)>) -> Seq<i64> {
        Seq::new(children.len(), |i: int| children[i].1.size.height)
    }

    /// What a row can be made of: buttons whose sizes and offsets are
    /// neither negative nor greater than `MAX_EXTENT`, each further right
    /// than the one before.
    pub open spec fn valid_children(children: Seq<(i64, Button)>) -> bool {
        &&& forall|i: int|
            0 <= i < children.len() ==> in_extent((#[trigger] children[i]).0 as int)
                && children[i].1.wf()
        &&& strictly_increasing(offsets_of(children))
    }

    /// The size of a row of `children`: as wide as the last button
    /// reaches, as tall as the tallest button.
    pub open spec fn size_of(children: Seq<(i64, Button)>) -> Size {
        Size {
            width: if children.len() == 0 {
                0
            } else {
                (children.last().0 + children.last().1.size.width) as i64
            },
            height: seq_max(Row::heights(children)),
        }
    }

    /// The row is made of valid children and has the size that follows
    /// from them.
    pub open spec fn wf(&self) -> bool {
        &&& Row::valid_children(self.buttons())
        &&& self.size() == Row::size_of(self.buttons())
    }

    /// Every button of the row stands for one of the first `count` keys.
    pub open spec fn keys_below(&self, count: nat) -> bool {
        forall|b: int|
            0 <= b < self.buttons().len() ==> (#[trigger] self.buttons()[b]).1.state.0 < count
    }

    /// A well-formed row has no negative extent, and is at most twice
    /// `MAX_EXTENT` wide and at most `MAX_EXTENT` tall.
    pub proof fn lemma_size_bounds(&self)
        requires
            self.wf(),
        ensures
            0 <= self.size().width <= 2 * MAX_EXTENT,
            0 <= self.size().height <= MAX_EXTENT,
    {
        let children = self.buttons();
        let heights = Row::heights(children);
        crate::util::lemma_seq_max(heights);
        if children.len() > 0 {
            let tallest = choose|i: int| 0 <= i < heights.len() && heights[i] == seq_max(heights);
            assert(children[tallest].1.wf());
        }
    }

    /// Tells whether a row can be made of `buttons`.
    pub fn valid(buttons: &Vec<(i64, Button)>) -> (valid: bool)
        ensures
            valid == Row::valid_children(buttons@),
    {
        let mut i: usize = 0;
        while i < buttons.len()
            invariant
                i <= buttons.len(),
                forall|j: int|
                    0 <= j < i ==> in_extent((#[trigger] buttons@[j]).0 as int)
                        && buttons@[j].1.wf(),
            decreases buttons.len() - i,
        {
            if buttons[i].0 < 0 || buttons[i].0 > MAX_EXTENT || !buttons[i].1.is_valid() {
                return false;
            }
            i += 1;
        }
        starts_increase(buttons)
    }

    /// Returns the size of a row of `buttons`.
    fn measure(buttons: &Vec<(i64, Button)>) -> (size: Size)
        requires
            Row::valid_children(buttons@),
        ensures
            size == Row::size_of(buttons@),
    {
        let count = buttons.len();
        let width: i64 = if count == 0 {
            0
        } else {
            buttons[count - 1].0 + buttons[count - 1].1.size.width
        };
        let mut heights: Vec<i64> = Vec::new();
        let mut i: usize = 0;
        while i < count
            invariant
                count == buttons.len(),
                i <= count,
                heights@ =~= Row::heights(buttons@.take(i as int)),
            decreases count - i,
        {
            heights.push(buttons[i].1.size.height);
            i += 1;
        }
        assert(buttons@.take(count as int) =~= buttons@);
        let height = find_max(&heights);
        Size { width, height }
    }

    /// Makes a row of `buttons`.
    pub fn new(buttons: Vec<(i64, Button)>) -> (row: Row)
        requires
            Row::valid_children(buttons@),
        ensures
            row.wf(),
            row.buttons() == buttons@,
    {
        let size = Row::measure(&buttons);
        Row { buttons, size }
    }

    /// Tells whether the row is well formed.
    pub fn is_valid(&self) -> (valid: bool)
        ensures
            valid == self.wf(),
    {
        if !Row::valid(&self.buttons) {
            return false;
        }
        let size = Row::measure(&self.buttons);
        self.size.width == size.width && self.size.height == size.height
    }

    /// Tells whether every button of the row stands for one of the first
    /// `count` keys.
    pub fn has_keys_below(&self, count: usize) -> (below: bool)
        ensures
            below == self.keys_below(count as nat),
    {
        let mut b: usize = 0;
        while b < self.buttons.len()
            invariant
                b <= self.buttons.len(),
                forall|j: int| 0 <= j < b ==> (#[trigger] self.buttons()[j]).1.state.0 < count,
            decreases self.buttons.len() - b,
        {
            if self.buttons[b].1.state.0 >= count {
                return false;
            }
            b += 1;
        }
        true
    }

    /// The buttons of the row from left to right, each with the place of
    /// its origin when the row's origin lies at `origin`.
    pub open spec fn places(&self, origin: Point) -> Seq<(Point, Button)> {
        Seq::new(
            self.buttons().len(),
            |b: int|
                (
                    Point { x: (origin.x + self.buttons()[b].0) as i64, y: origin.y },
                    self.buttons()[b].1,
                ),
        )
    }

    /// Returns the size of the row.
    pub fn get_size(&self) -> (size: Size)
        ensures
            size == self.size(),
    {
        self.size
    }

    /// Returns the buttons with their offsets, from left to right.
    pub fn get_buttons(&self) -> (buttons: &Vec<(i64, Button)>)
        ensures
            buttons@ == self.buttons(),
    {
        &self.buttons
    }

    /// Finds the button to which the abscissa `x` belongs, `x` being
    /// counted from the row's left edge.
    ///
    /// It need not lie within the button: what is left of the first button
    /// belongs to the first, what is right of the last to the last.
    pub fn find_button_by_position(&self, x: i64) -> (found: &(i64, Button))
        requires
            self.wf(),
            self.buttons().len() > 0,
        ensures
            *found == self.buttons()[slot_at(offsets_of(self.buttons()), x as int)],
    {
        let index = find_slot(&self.buttons, x);
        &self.buttons[index]
    }
}

/// The gaps that a loader leaves between rows and between buttons.
#[derive(Clone, Copy, Debug, PartialEq, Eq, Structural)]
pub struct Spacing {
    pub row: i64,
    pub button: i64,
}

} // verus!
