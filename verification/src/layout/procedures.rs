//! Procedures that span the layout and its keys.

use vstd::prelude::*;
use crate::geometry::{fits_i64, Point, Transformation};
use crate::keyboard::KeyId;
use crate::layout::seat::{handle_press_key, is_other, others, pressed_from, PressOutcome};
use crate::layout::{deref_places, Button, Layout, View as LayoutView};

verus! {

/// The test that a button with its place passes if it stands for `key`.
pub open spec fn stands_for(key: KeyId) -> spec_fn((Point, Button)) -> bool {
    |place: (Point, Button)| place.1.state == key
}

/// The buttons of `view` that stand for the key `key`, row by row and
/// from left to right, each with the place of its origin counted from the
/// view's origin.
pub open spec fn key_places(view: LayoutView, key: KeyId) -> Seq<(Point, Button)> {
    view.places(Point { x: 0, y: 0 }).filter(stands_for(key))
}

/// Finds all buttons of `view` that stand for the key `key`, together with
/// the places of their origins counted from the view's origin.
pub fn find_key_places<'v>(view: &'v LayoutView, key: KeyId) -> (places: Vec<(Point, &'v Button)>)
    requires
        view.wf(),
    ensures
        deref_places(places@) == key_places(*view, key),
{
    let all = view.button_places(Point { x: 0, y: 0 });
    let mut places: Vec<(Point, &'v Button)> = Vec::new();
    let mut i: usize = 0;
    while i < all.len()
        invariant
            i <= all.len(),
            deref_places(places@) == deref_places(all@).take(i as int).filter(stands_for(key)),
        decreases all.len() - i,
    {
        let (place, button) = all[i];
        proof {
            reveal(Seq::filter);
            assert(deref_places(all@).take(i + 1).drop_last() =~= deref_places(all@).take(
                i as int,
            ));
        }
        if button.state.0 == key.0 {
            places.push((place, button));
        }
        i += 1;
    }
    assert(deref_places(all@).take(i as int) =~= deref_places(all@));
    places
}

/// The key of the button under a pointer, if there is one: `point` is
/// where the pointer is in widget space, and `widget_to_layout` the
/// transformation that the widget draws the layout with.
///
/// A pointer whose position in layout space cannot be written down is
/// over no button.
pub open spec fn key_at(layout: Layout, widget_to_layout: Transformation, point: Point) -> Option<
    KeyId,
> {
    let x = widget_to_layout.forward_x(point.x as int);
    let y = widget_to_layout.forward_y(point.y as int);
    if fits_i64(x) && fits_i64(y) {
        match layout.hit(Point { x: x as i64, y: y as i64 }) {
            Some((r, b)) => Some(
                layout.views.place_of(layout.current_view@).1.rows()[r].1.buttons()[b].1.state,
            ),
            None => None,
        }
    } else {
        None
    }
}

/// Finds the key of the button under the pointer at `point`.
pub fn find_key_by_position(layout: &Layout, widget_to_layout: &Transformation, point: Point) -> (key:
    Option<KeyId>)
    requires
        layout.wf(),
        layout.has_current_view(),
        widget_to_layout.wf(),
    ensures
        key == key_at(*layout, *widget_to_layout, point),
        key matches Some(k) ==> k.0 < layout.keys@.len(),
{
    match widget_to_layout.forward(point) {
        Some(inner) => match layout.find_button_by_position(inner) {
            Some(place) => {
                proof {
                    layout.views.lemma_one_place_for_each_name();
                    let i = layout.views.names().index_of(layout.current_view@);
                    let shown = layout.views.places()[i];
                    shown.1.lemma_hit_in_range(inner.x - shown.0.x, inner.y - shown.0.y);
                }
                Some(place.button.state)
            },
            None => None,
        },
        None => None,
    }
}

/// The pointer goes down at `point`: the key of the button under it, if
/// there is one, is pressed.
///
/// Returns the key and what its press did, or nothing where the pointer is
/// over no button; the layout is then as it was.
pub fn depress(layout: &mut Layout, widget_to_layout: &Transformation, point: Point) -> (pressed:
    Option<(KeyId, PressOutcome)>)
    requires
        old(layout).wf(),
        old(layout).has_current_view(),
        widget_to_layout.wf(),
    ensures
        final(layout).wf(),
        final(layout).has_current_view(),
        old(layout).presses_agree() ==> final(layout).presses_agree(),
        match pressed {
            Some((key, outcome)) => {
                &&& key_at(*old(layout), *widget_to_layout, point) == Some(key)
                &&& pressed_from(*old(layout), key, *final(layout))
                &&& outcome.already_pressed == old(layout).pressed_keys@.contains(key)
                &&& match outcome.submission {
                    Some(press) => press.is_of(old(layout).keys@[key.0 as int]),
                    None => !(old(layout).keys@[key.0 as int].action is Submit) && !(old(
                        layout,
                    ).keys@[key.0 as int].action is Erase),
                }
            },
            None => key_at(*old(layout), *widget_to_layout, point) is None && *final(layout)
                == *old(layout),
        },
{
    match find_key_by_position(layout, widget_to_layout, point) {
        Some(key) => {
            let outcome = handle_press_key(layout, key);
            Some((key, outcome))
        },
        None => None,
    }
}

/// What a move of the pointer asks for.
#[derive(Clone, Debug, PartialEq, Eq)]
pub struct DragPlan {
    /// The keys to release, in this order.
    pub release: Vec<KeyId>,
    /// The key to press once they are released, if any.
    pub press: Option<KeyId>,
}


/// The pointer moves to `point` while it is down.
///
/// Every key that is held down is to be released, but for the key of the
/// button under the pointer; and that key is to be pressed unless it is
/// held down already. The plan is made from the layout as it is: when the
/// releases change the view, the key to press is still the one that was
/// under the pointer before.
pub fn drag(layout: &Layout, widget_to_layout: &Transformation, point: Point) -> (plan: DragPlan)
    requires
        layout.wf(),
        layout.has_current_view(),
        widget_to_layout.wf(),
    ensures
        match key_at(*layout, *widget_to_layout, point) {
            Some(key) => {
                &&& plan.release@ == others(layout.pressed_keys@, key)
                &&& plan.press == if layout.pressed_keys@.contains(key) {
                    None
                } else {
                    Some(key)
                }
            },
            None => plan.release@ == layout.pressed_keys@ && plan.press is None,
        },
        forall|i: int|
            0 <= i < plan.release@.len() ==> (#[trigger] plan.release@[i]).0 < layout.keys@.len(),
        plan.press matches Some(key) ==> key.0 < layout.keys@.len(),
{
    let target = find_key_by_position(layout, widget_to_layout, point);
    let mut release: Vec<KeyId> = Vec::new();
    let mut found = false;
    let ghost apart = match target {
        Some(key) => is_other(key),
        None => |held: KeyId| true,
    };
    let mut i: usize = 0;
    while i < layout.pressed_keys.len()
        invariant
            layout.wf(),
            i <= layout.pressed_keys.len(),
            target matches Some(key) ==> apart == is_other(key),
            target is None ==> forall|held: KeyId| #[trigger] apart(held),
            release@ == layout.pressed_keys@.take(i as int).filter(apart),
            found == (target matches Some(key) && layout.pressed_keys@.take(i as int).contains(
                key,
            )),
            forall|j: int| 0 <= j < release@.len() ==> (#[trigger] release@[j]).0 < layout.keys@.len(),
        decreases layout.pressed_keys.len() - i,
    {
        let held = layout.pressed_keys[i];
        let ghost seen = layout.pressed_keys@.take(i as int);
        proof {
            reveal(Seq::filter);
            assert(layout.pressed_keys@.take(i + 1).drop_last() =~= seen);
            assert(layout.pressed_keys@.take(i + 1).last() == held);
            assert(layout.pressed_keys@.take(i + 1) =~= seen.push(held));
        }
        let is_target = match target {
            Some(key) => held.0 == key.0,
            None => false,
        };
        if is_target {
            found = true;
        } else {
            release.push(held);
        }
        i += 1;
    }
    proof {
        assert(layout.pressed_keys@.take(i as int) =~= layout.pressed_keys@);
        if target is None {
            assert forall|j: int| 0 <= j < layout.pressed_keys@.len() implies apart(
                #[trigger] layout.pressed_keys@[j],
            ) by {}
            crate::util::lemma_filter_all(layout.pressed_keys@, apart);
        }
    }
    let press = match target {
        Some(key) => if found {
            None
        } else {
            Some(key)
        },
        None => None,
    };
    DragPlan { release, press }
}

} // verus!
