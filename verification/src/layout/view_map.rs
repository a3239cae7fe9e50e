//! The views of a layout, by name.

use vstd::prelude::*;
use vstd::view::View as _;
use crate::geometry::{Point, MAX_EXTENT};
use crate::layout::view::View;

verus! {

/// The views of a layout by name, each with the offset of its origin
/// within the layout. No name occurs twice.
pub struct ViewMap {
    entries: Vec<(String, (Point, View))>,
}

impl ViewMap {
    /// The names, in the order in which they came.
    pub closed spec fn names(&self) -> Seq<Seq<char>> {
        Seq::new(self.entries@.len(), |i: int| self.entries@[i].0@)
    }

    /// The views with their offsets, each at the place of its name.
    pub closed spec fn places(&self) -> Seq<(Point, View)> {
        Seq::new(self.entries@.len(), |i: int| self.entries@[i].1)
    }

    /// No name occurs twice.
    #[verifier::type_invariant]
    spec fn names_differ(&self) -> bool {
        self.names().no_duplicates()
    }

    /// There is one view for each name.
    pub proof fn lemma_one_place_for_each_name(&self)
        ensures
            self.names().len() == self.places().len(),
    {
    }

    /// Whether there is a view named `name`.
    pub open spec fn has(&self, name: Seq<char>) -> bool {
        self.names().contains(name)
    }

    /// The view named `name` with its offset, where there is one.
    pub open spec fn place_of(&self, name: Seq<char>) -> (Point, View) {
        self.places()[self.names().index_of(name)]
    }

    /// Tells whether every view is well formed, lies at an offset of at
    /// most `MAX_EXTENT` either way, and holds no button but for one of
    /// the first `count` keys.
    pub fn has_valid_places(&self, count: usize) -> (valid: bool)
        ensures
            valid == (forall|i: int|
                0 <= i < self.places().len() ==> (#[trigger] self.places()[i]).0.wf()
                    && self.places()[i].1.wf() && self.places()[i].1.keys_below(count as nat)),
    {
        let mut i: usize = 0;
        while i < self.entries.len()
            invariant
                i <= self.entries.len(),
                forall|j: int|
                    0 <= j < i ==> (#[trigger] self.places()[j]).0.wf() && self.places()[j].1.wf()
                        && self.places()[j].1.keys_below(count as nat),
            decreases self.entries.len() - i,
        {
            let place = &self.entries[i].1;
            assert(*place == self.places()[i as int]);
            let offset_ok = -MAX_EXTENT <= place.0.x && place.0.x <= MAX_EXTENT && -MAX_EXTENT
                <= place.0.y && place.0.y <= MAX_EXTENT;
            if !offset_ok || !place.1.is_valid() || !place.1.has_keys_below(count) {
                return false;
            }
            i += 1;
        }
        true
    }

    /// Makes an empty map.
    pub fn new() -> (map: ViewMap)
        ensures
            map.names() == Seq::<Seq<char>>::empty(),
            map.places() == Seq::<(Point, View)>::empty(),
    {
        let map = ViewMap { entries: Vec::new() };
        map
    }

    /// Returns the number of views.
    pub fn len(&self) -> (count: usize)
        ensures
            count == self.names().len(),
            count == self.places().len(),
    {
        self.entries.len()
    }

    /// Returns the place at which `name` stands, if it stands anywhere.
    fn position(&self, name: &String) -> (found: Option<usize>)
        ensures
            match found {
                Some(i) => i < self.names().len() && self.names()[i as int] == name@
                    && self.names().index_of(name@) == i,
                None => !self.has(name@),
            },
    {
        proof {
            use_type_invariant(self);
        }
        let mut i: usize = 0;
        while i < self.entries.len()
            invariant
                self.names().no_duplicates(),
                i <= self.entries.len(),
                forall|j: int| 0 <= j < i ==> self.names()[j] != name@,
            decreases self.entries.len() - i,
        {
            if self.entries[i].0 == *name {
                assert(self.names()[i as int] == name@);
                return Some(i);
            }
            i += 1;
        }
        None
    }

    /// Tells whether there is a view named `name`.
    pub fn contains_key(&self, name: &String) -> (present: bool)
        ensures
            present == self.has(name@),
    {
        self.position(name).is_some()
    }

    /// Returns the view named `name` with its offset, if there is one.
    pub fn get(&self, name: &String) -> (found: Option<&(Point, View)>)
        ensures
            match found {
                Some(place) => self.has(name@) && *place == self.place_of(name@),
                None => !self.has(name@),
            },
    {
        match self.position(name) {
            Some(i) => Some(&self.entries[i].1),
            None => None,
        }
    }

    /// Returns the view that stands at place `i`, with its offset.
    pub fn nth(&self, i: usize) -> (place: &(Point, View))
        requires
            i < self.places().len(),
        ensures
            *place == self.places()[i as int],
    {
        &self.entries[i].1
    }

    /// Puts `place` under `name`. A view that stood under this name gives
    /// way and keeps its place in the order; a new name comes last.
    pub fn insert(&mut self, name: String, place: (Point, View))
        ensures
            old(self).has(name@) ==> {
                &&& final(self).names() == old(self).names()
                &&& final(self).places() == old(self).places().update(
                    old(self).names().index_of(name@),
                    place,
                )
            },
            !old(self).has(name@) ==> {
                &&& final(self).names() == old(self).names().push(name@)
                &&& final(self).places() == old(self).places().push(place)
            },
    {
        proof {
            use_type_invariant(&*self);
        }
        let found = self.position(&name);
        let ghost names = self.names();
        let ghost places = self.places();
        let mut entries: Vec<(String, (Point, View))> = Vec::new();
        std::mem::swap(&mut self.entries, &mut entries);
        match found {
            Some(i) => {
                entries[i].1 = place;
                assert(names =~= Seq::new(entries@.len(), |i: int| entries@[i].0@));
                assert(places.update(i as int, place) =~= Seq::new(
                    entries@.len(),
                    |i: int| entries@[i].1,
                ));
            },
            None => {
                entries.push((name, place));
                let ghost longer = Seq::new(entries@.len(), |i: int| entries@[i].0@);
                assert(longer =~= names.push(name@));
            },
        }
        self.entries = entries;
    }
}

} // verus!
