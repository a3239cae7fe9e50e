//! Helpers shared by the layout code.

use vstd::prelude::*;

verus! {

/// The greatest member of `s`, or zero where `s` is empty.
pub open spec fn seq_max(s: Seq<i64>) -> i64
    decreases s.len(),
{
    if s.len() == 0 {
        0
    } else if s.len() == 1 {
        s[0]
    } else if seq_max(s.drop_last()) >= s.last() {
        seq_max(s.drop_last())
    } else {
        s.last()
    }
}

/// `seq_max` is a member of a sequence that has one, and no member is
/// greater.
pub proof fn lemma_seq_max(s: Seq<i64>)
    ensures
        forall|i: int| 0 <= i < s.len() ==> s[i] <= seq_max(s),
        s.len() > 0 ==> exists|i: int| 0 <= i < s.len() && s[i] == seq_max(s),
    decreases s.len(),
{
    if s.len() > 1 {
        let front = s.drop_last();
        lemma_seq_max(front);
        assert forall|i: int| 0 <= i < s.len() implies s[i] <= seq_max(s) by {
            if i < front.len() {
                assert(front[i] == s[i]);
            }
        }
        let k = choose|i: int| 0 <= i < front.len() && front[i] == seq_max(front);
        assert(s[k] == front[k]);
    } else if s.len() == 1 {
        assert(s[0] == seq_max(s));
    }
}

/// Returns the greatest of `values`, or zero where there is none.
pub fn find_max(values: &Vec<i64>) -> (max: i64)
    ensures
        max == seq_max(values@),
{
    if values.len() == 0 {
        return 0;
    }
    let mut max: i64 = values[0];
    let mut i: usize = 1;
    while i < values.len()
        invariant
            1 <= i <= values.len(),
            max == seq_max(values@.take(i as int)),
        decreases values.len() - i,
    {
        assert(values@.take(i + 1).drop_last() =~= values@.take(i as int));
        if values[i] > max {
            max = values[i];
        }
        i += 1;
    }
    assert(values@.take(i as int) =~= values@);
    max
}

/// Each member of `s` is less than those after it.
pub open spec fn strictly_increasing(s: Seq<i64>) -> bool {
    forall|i: int, j: int| 0 <= i < j < s.len() ==> s[i] < s[j]
}

/// Which of the children that start at `offsets` a coordinate belongs to:
/// the last one that starts before `x`, or the first one where none does.
///
/// A child owns what lies past its end up to the start of the next, and
/// the start of the next as well; the first owns all that lies before it,
/// the last all that lies after it.
pub open spec fn slot_at(offsets: Seq<i64>, x: int) -> int
    decreases offsets.len(),
{
    if offsets.len() <= 1 {
        0
    } else if offsets.last() < x {
        offsets.len() - 1
    } else {
        slot_at(offsets.drop_last(), x)
    }
}

/// `slot_at` is the one place `k` such that every later child starts at
/// `x` or after it, and child `k` starts before `x` unless it is the
/// first.
pub proof fn lemma_slot_at(offsets: Seq<i64>, x: int, k: int)
    requires
        0 <= k < offsets.len(),
        k > 0 ==> offsets[k] < x,
        forall|j: int| k < j < offsets.len() ==> offsets[j] >= x,
    ensures
        slot_at(offsets, x) == k,
    decreases offsets.len(),
{
    if offsets.len() > 1 && !(offsets.last() < x) {
        lemma_slot_at(offsets.drop_last(), x, k);
    }
}

/// `slot_at` names one of the children, where there is any.
pub proof fn lemma_slot_in_range(offsets: Seq<i64>, x: int)
    requires
        offsets.len() > 0,
    ensures
        0 <= slot_at(offsets, x) < offsets.len(),
    decreases offsets.len(),
{
    if offsets.len() > 1 && !(offsets.last() < x) {
        lemma_slot_in_range(offsets.drop_last(), x);
    }
}

/// Something that starts at an offset along one axis.
pub trait Placed {
    /// Where it starts.
    spec fn offset(&self) -> i64;

    /// Returns where it starts.
    fn get_offset(&self) -> (offset: i64)
        ensures
            offset == self.offset(),
    ;
}

/// Where each of `items` starts.
pub open spec fn offsets_of<T: Placed>(items: Seq<T>) -> Seq<i64> {
    Seq::new(items.len(), |i: int| items[i].offset())
}

/// Tells whether each of `items` starts after the one before it.
pub fn starts_increase<T: Placed>(items: &Vec<T>) -> (increasing: bool)
    ensures
        increasing == strictly_increasing(offsets_of(items@)),
{
    let ghost offsets = offsets_of(items@);
    let mut k: usize = 1;
    while k < items.len()
        invariant
            1 <= k,
            offsets == offsets_of(items@),
            forall|i: int, j: int| 0 <= i < j < k && j < offsets.len() ==> offsets[i] < offsets[j],
        decreases items.len() - k,
    {
        assert(offsets[k - 1] == items@[k - 1].offset());
        assert(offsets[k as int] == items@[k as int].offset());
        if items[k - 1].get_offset() >= items[k].get_offset() {
            return false;
        }
        k += 1;
    }
    true
}

/// Finds the child to which the coordinate `x` belongs, by bisection.
pub fn find_slot<T: Placed>(items: &Vec<T>, x: i64) -> (slot: usize)
    requires
        items.len() > 0,
        strictly_increasing(offsets_of(items@)),
    ensures
        slot == slot_at(offsets_of(items@), x as int),
        slot < items.len(),
{
    let ghost offsets = offsets_of(items@);
    let mut low: usize = 0;
    let mut high: usize = items.len();
    while low < high
        invariant
            low <= high <= items.len(),
            offsets == offsets_of(items@),
            strictly_increasing(offsets),
            forall|j: int| 0 <= j < low ==> offsets[j] < x,
            forall|j: int| high <= j < items.len() ==> offsets[j] >= x,
        decreases high - low,
    {
        let mid: usize = low + (high - low) / 2;
        assert(offsets[mid as int] == items@[mid as int].offset());
        if items[mid].get_offset() < x {
            low = mid + 1;
        } else {
            high = mid;
        }
    }
    let slot: usize = if low > 0 {
        low - 1
    } else {
        0
    };
    proof {
        lemma_slot_at(offsets, x as int, slot as int);
    }
    slot
}

/// A filter that lets every member pass leaves a sequence as it is.
pub proof fn lemma_filter_all<A>(s: Seq<A>, pred: spec_fn(A) -> bool)
    requires
        forall|i: int| 0 <= i < s.len() ==> pred(#[trigger] s[i]),
    ensures
        s.filter(pred) == s,
    decreases s.len(),
{
    reveal(Seq::filter);
    if s.len() > 0 {
        let front = s.drop_last();
        lemma_filter_all(front, pred);
    }
}

/// A filter that holds back the member at `i` and no other takes that
/// member out.
pub proof fn lemma_filter_one<A>(s: Seq<A>, pred: spec_fn(A) -> bool, i: int)
    requires
        0 <= i < s.len(),
        !pred(s[i]),
        forall|j: int| 0 <= j < s.len() && j != i ==> pred(#[trigger] s[j]),
    ensures
        s.filter(pred) == s.remove(i),
    decreases s.len(),
{
    reveal(Seq::filter);
    let front = s.drop_last();
    if i == s.len() - 1 {
        lemma_filter_all(front, pred);
    } else {
        lemma_filter_one(front, pred, i);
    }
}

} // verus!
