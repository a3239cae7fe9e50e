use squeekboard::action::{Action, Modifier};
use squeekboard::geometry::{Bounds, Point, Scale, Size, Transformation};
use squeekboard::imservice::ContentPurpose;
use squeekboard::keyboard::{KeyId, KeyState, PressType};
use squeekboard::layout::procedures::find_key_places;
use squeekboard::layout::{
    try_set_view, ArrangementKind, Button, Label, LatchedState, Layout, LayoutData, Margins,
    NoSuchView, Row, View, ViewMap, ViewTransition,
};

/// Lengths in these tests are written in pixels and stored in millionths.
fn units(v: f64) -> i64 {
    (v * 1_000_000.0).round() as i64
}

fn pixels(v: i64) -> f64 {
    v as f64 / 1_000_000.0
}

fn factor(scale: Scale) -> f64 {
    scale.num as f64 / scale.den as f64
}

fn near(a: f64, b: f64) -> bool {
    (a - b).abs() < ((a + b) * 0.001f64).abs()
}

fn make_state_with_action(action: Action) -> KeyState {
    KeyState { pressed: PressType::Released, keycodes: Vec::new(), action }
}

fn make_state() -> KeyState {
    make_state_with_action(Action::SetView("default".into()))
}

fn make_button_with_state(name: String, state: KeyId) -> Button {
    Button {
        name: name.clone(),
        size: Size { width: 0, height: 0 },
        outline_name: "test".into(),
        label: Label::Text(name),
        state,
    }
}

fn sized_button(name: &str, width: f64, height: f64, state: KeyId) -> Button {
    Button {
        size: Size { width: units(width), height: units(height) },
        ..make_button_with_state(name.into(), state)
    }
}

fn no_margins() -> Margins {
    Margins { top: 0, left: 0, right: 0, bottom: 0 }
}

fn origin() -> Point {
    Point { x: 0, y: 0 }
}

/// A layout of the views `names`, all of the same shape: a key that
/// switches and one that submits.
fn switching_layout(names: &[&str], switch: Action, submit: Action) -> Layout {
    let view = View::new(vec![(
        units(0.0),
        Row::new(vec![
            (units(0.0), make_button_with_state("switch".into(), KeyId(0))),
            (units(1.0), make_button_with_state("submit".into(), KeyId(1))),
        ]),
    )]);
    let mut views = ViewMap::new();
    for name in names {
        views.insert((*name).into(), (origin(), view.clone()));
    }
    let mut layout = Layout::new(
        LayoutData {
            views,
            keymaps: Vec::new(),
            margins: no_margins(),
            keys: vec![make_state_with_action(switch), make_state_with_action(submit)],
        },
        ArrangementKind::Base,
        ContentPurpose::Normal,
    );
    layout.current_view = "base".into();
    layout
}

/// A layout of one view, named by the empty string, that holds one button.
fn one_button_layout(margins: Margins) -> Layout {
    let view = View::new(vec![(
        units(0.0),
        Row::new(vec![(units(0.0), sized_button("foo", 1.0, 1.0, KeyId(0)))]),
    )]);
    let mut views = ViewMap::new();
    views.insert(String::new(), (origin(), view));
    let mut layout = Layout::new(
        LayoutData { views, keymaps: Vec::new(), margins, keys: vec![make_state()] },
        ArrangementKind::Base,
        ContentPurpose::Normal,
    );
    layout.current_view = String::new();
    layout
}

#[test]
fn transform_back() {
    let transform = Transformation {
        origin_x: units(10f64),
        origin_y: units(11f64),
        scale_x: Scale { num: 12, den: 1 },
        scale_y: Scale { num: 13, den: 1 },
    };
    let point = Point { x: units(1f64), y: units(1f64) };
    let transformed = transform.reverse(transform.forward(point).unwrap()).unwrap();
    assert!(near(pixels(point.x), pixels(transformed.x)));
    assert!(near(pixels(point.y), pixels(transformed.y)));
}

/// Checks whether the places refer to the buttons that the view holds.
#[test]
fn view_has_button() {
    let state = KeyId(0);
    let button = make_button_with_state("1".into(), state);
    let row = Row::new(vec![(units(0.1), button)]);
    let view = View::new(vec![(units(1.2), row)]);
    let button_ref = &view.get_rows()[0].1.get_buttons()[0].1;

    let places = find_key_places(&view, state);
    assert_eq!(places.len(), 1);
    assert_eq!(places[0].0, Point { x: units(0.1), y: units(1.2) });
    assert!(std::ptr::eq(places[0].1, button_ref));

    let view = View::new(vec![]);
    assert_eq!(find_key_places(&view, state).is_empty(), true);
}

#[test]
fn latch_lock_unlock() {
    let action = Action::LockView {
        lock: "lock".into(),
        unlock: "unlock".into(),
        latches: true,
        looks_locked_from: vec![],
    };
    let lock: String = "lock".into();
    let unlock: String = "unlock".into();

    assert_eq!(
        Layout::process_action_for_view(&action, &"unlock".into(), &LatchedState::Not),
        (ViewTransition::ChangeTo(&lock), LatchedState::FromView("unlock".into())),
    );

    assert_eq!(
        Layout::process_action_for_view(
            &action,
            &"lock".into(),
            &LatchedState::FromView("unlock".into()),
        ),
        (ViewTransition::NoChange, LatchedState::Not),
    );

    assert_eq!(
        Layout::process_action_for_view(&action, &"lock".into(), &LatchedState::Not),
        (ViewTransition::ChangeTo(&unlock), LatchedState::Not),
    );

    assert_eq!(
        Layout::process_action_for_view(
            &Action::Erase,
            &"lock".into(),
            &LatchedState::FromView("base".into()),
        ),
        (ViewTransition::UnlatchAll, LatchedState::Not),
    );
}

#[test]
fn latch_pop_layout() {
    let switch = Action::LockView {
        lock: "locked".into(),
        unlock: "base".into(),
        latches: true,
        looks_locked_from: vec![],
    };
    let submit = Action::Erase;
    let mut layout = switching_layout(&["base", "locked"], switch.clone(), submit.clone());

    // Basic cycle
    layout.apply_view_transition(&switch);
    assert_eq!(&layout.current_view, "locked");
    layout.apply_view_transition(&switch);
    assert_eq!(&layout.current_view, "locked");
    layout.apply_view_transition(&submit);
    assert_eq!(&layout.current_view, "locked");
    layout.apply_view_transition(&switch);
    assert_eq!(&layout.current_view, "base");
    layout.apply_view_transition(&switch);
    // Unlatch
    assert_eq!(&layout.current_view, "locked");
    layout.apply_view_transition(&submit);
    assert_eq!(&layout.current_view, "base");
}

#[test]
fn reverse_unlatch_layout() {
    let switch = Action::LockView {
        lock: "locked".into(),
        unlock: "base".into(),
        latches: true,
        looks_locked_from: vec![],
    };
    let unswitch = Action::LockView {
        lock: "locked".into(),
        unlock: "unlocked".into(),
        latches: false,
        looks_locked_from: vec![],
    };
    let submit = Action::Erase;
    let mut layout = switching_layout(&["base", "locked", "unlocked"], switch.clone(), submit);

    layout.apply_view_transition(&switch);
    assert_eq!(&layout.current_view, "locked");
    layout.apply_view_transition(&unswitch);
    assert_eq!(&layout.current_view, "unlocked");
}

#[test]
fn latch_twopop_layout() {
    let switch = Action::LockView {
        lock: "locked".into(),
        unlock: "base".into(),
        latches: true,
        looks_locked_from: vec![],
    };
    let switch_again = Action::LockView {
        lock: "ĄĘ".into(),
        unlock: "locked".into(),
        latches: true,
        looks_locked_from: vec![],
    };
    let submit = Action::Erase;
    let mut layout = switching_layout(&["base", "locked", "ĄĘ"], switch.clone(), submit.clone());

    // Latch twice, then unlatch across 2 levels
    layout.apply_view_transition(&switch);
    println!("{:?}", layout.get_view_latched());
    assert_eq!(&layout.current_view, "locked");
    layout.apply_view_transition(&switch_again);
    println!("{:?}", layout.get_view_latched());
    assert_eq!(&layout.current_view, "ĄĘ");
    layout.apply_view_transition(&submit);
    println!("{:?}", layout.get_view_latched());
    assert_eq!(&layout.current_view, "base");
}

#[test]
fn check_centering() {
    //    A B
    // ---bar---
    let view = View::new(vec![
        (
            units(0.0),
            Row::new(vec![
                (units(0.0), sized_button("A", 5.0, 10.0, KeyId(0))),
                (units(5.0), sized_button("B", 5.0, 10.0, KeyId(1))),
            ]),
        ),
        (units(10.0), Row::new(vec![(units(0.0), sized_button("bar", 30.0, 10.0, KeyId(2)))])),
    ]);
    assert!(
        view.find_button_by_position(Point { x: units(5.0), y: units(5.0) }).unwrap().button.name
            == "A"
    );
    assert!(
        view.find_button_by_position(Point { x: units(14.99), y: units(5.0) })
            .unwrap()
            .button
            .name
            == "A"
    );
    assert!(
        view.find_button_by_position(Point { x: units(15.01), y: units(5.0) })
            .unwrap()
            .button
            .name
            == "B"
    );
    assert!(
        view.find_button_by_position(Point { x: units(25.0), y: units(5.0) })
            .unwrap()
            .button
            .name
            == "B"
    );
}

#[test]
fn check_bottom_margin() {
    // just one button, and lots of bottom margin
    let layout = one_button_layout(Margins { top: 0, left: 0, right: 0, bottom: units(1.0) });
    assert_eq!(layout.calculate_inner_size(), Size { width: units(1.0), height: units(1.0) });
    assert_eq!(layout.calculate_size(), Size { width: units(1.0), height: units(2.0) });
    let transformation =
        layout.calculate_transformation(Size { width: units(2.0), height: units(2.0) }).unwrap();
    assert_eq!(factor(transformation.scale_x), 1.0);
    assert_eq!(factor(transformation.scale_y), 1.0);
    assert_eq!(pixels(transformation.origin_x), 0.5);
    assert_eq!(pixels(transformation.origin_y), 0.0);
}

#[test]
fn check_stretching() {
    // just one button
    let layout = one_button_layout(no_margins());
    let transformation = layout
        .calculate_transformation(Size { width: units(100.0), height: units(100.0) })
        .unwrap();
    assert_eq!(factor(transformation.scale_x), 100.0);
    assert_eq!(factor(transformation.scale_y), 100.0);
    let transformation = layout
        .calculate_transformation(Size { width: units(95.0), height: units(100.0) })
        .unwrap();
    assert_eq!(factor(transformation.scale_x), 95.0);
    assert_eq!(factor(transformation.scale_y), 95.0);
    let transformation = layout
        .calculate_transformation(Size { width: units(105.0), height: units(100.0) })
        .unwrap();
    assert_eq!(factor(transformation.scale_x), 105.0);
    assert_eq!(factor(transformation.scale_y), 100.0);
    let transformation = layout
        .calculate_transformation(Size { width: units(106.0), height: units(100.0) })
        .unwrap();
    assert_eq!(factor(transformation.scale_x), 100.0);
    assert_eq!(factor(transformation.scale_y), 100.0);
}

#[test]
fn bounds_leave_their_edges_out() {
    let bounds = Bounds { x: 1, y: 2, width: 10, height: 20 };
    assert!(bounds.contains(&Point { x: 2, y: 3 }));
    assert!(bounds.contains(&Point { x: 10, y: 21 }));
    assert!(!bounds.contains(&Point { x: 1, y: 3 }));
    assert!(!bounds.contains(&Point { x: 11, y: 3 }));
    assert!(!bounds.contains(&Point { x: 2, y: 2 }));
    assert!(!bounds.contains(&Point { x: 2, y: 22 }));
    let wide = Bounds { x: i64::MAX - 1, y: 0, width: i64::MAX, height: 2 };
    assert!(wide.contains(&Point { x: i64::MAX, y: 1 }));
}

#[test]
fn points_add_and_subtract() {
    let a = Point { x: 3, y: -4 };
    let b = Point { x: 10, y: 20 };
    assert_eq!(a.add(b), Point { x: 13, y: 16 });
    assert_eq!(a.sub(&b), Point { x: -7, y: -24 });
}

#[test]
fn forward_and_reverse_round_down() {
    let t = Transformation {
        origin_x: 1,
        origin_y: -1,
        scale_x: Scale { num: 3, den: 2 },
        scale_y: Scale { num: -2, den: 1 },
    };
    // (8 - 1) / 1.5 = 4.67, (5 + 1) / -2 = -3
    assert_eq!(t.forward(Point { x: 8, y: 5 }), Some(Point { x: 4, y: -3 }));
    // (0 - 1) / 1.5 = -0.67, (4 + 1) / -2 = -2.5
    assert_eq!(t.forward(Point { x: 0, y: 4 }), Some(Point { x: -1, y: -3 }));
    // 4 * 1.5 + 1 = 7, -3 * -2 - 1 = 5
    assert_eq!(t.reverse(Point { x: 4, y: -3 }), Some(Point { x: 7, y: 5 }));
    // -1 * 1.5 = -1.5 rounds down to -2, and the origin adds 1
    assert_eq!(t.reverse(Point { x: -1, y: 0 }), Some(Point { x: -1, y: -1 }));
}

#[test]
fn round_trip_is_exact_at_scale_one() {
    let t = Transformation {
        origin_x: 17,
        origin_y: -5,
        scale_x: Scale { num: 7, den: 7 },
        scale_y: Scale { num: 1, den: 1 },
    };
    for x in -20i64..20 {
        let p = Point { x, y: 3 * x };
        assert_eq!(t.reverse(t.forward(p).unwrap()), Some(p));
    }
}

#[test]
fn round_trip_misses_by_less_than_the_scale_and_one() {
    let t = Transformation {
        origin_x: 10,
        origin_y: 11,
        scale_x: Scale { num: 12, den: 5 },
        scale_y: Scale { num: -13, den: 4 },
    };
    for v in -100i64..100 {
        let p = Point { x: v, y: v };
        let back = t.reverse(t.forward(p).unwrap()).unwrap();
        assert!(back.x <= p.x && (p.x - back.x) * 5 < 12 + 5);
        assert!(back.y >= p.y && (back.y - p.y) * 4 < 13);
    }
}

#[test]
fn what_cannot_be_written_down_is_not_returned() {
    let t = Transformation {
        origin_x: 0,
        origin_y: 0,
        scale_x: Scale { num: 1, den: i64::MAX },
        scale_y: Scale { num: 1, den: 1 },
    };
    assert_eq!(t.forward(Point { x: 2, y: 0 }), None);
    assert_eq!(t.forward(Point { x: 1, y: 0 }), Some(Point { x: i64::MAX, y: 0 }));
    let big = Transformation {
        origin_x: i64::MAX,
        origin_y: 0,
        scale_x: Scale { num: 2, den: 1 },
        scale_y: Scale { num: 1, den: 1 },
    };
    assert_eq!(big.reverse(Point { x: 1, y: 0 }), None);
    assert_eq!(big.reverse(Point { x: 0, y: 5 }), Some(Point { x: i64::MAX, y: 5 }));
    assert_eq!(big.reverse_bounds(Bounds { x: 0, y: 0, width: 1, height: 1 }), None);
    assert_eq!(big.chain(big), None);
}

#[test]
fn chain_scales_the_inner_origin() {
    let outer = Transformation {
        origin_x: 5,
        origin_y: 7,
        scale_x: Scale { num: 3, den: 2 },
        scale_y: Scale { num: 2, den: 1 },
    };
    let inner = Transformation {
        origin_x: 4,
        origin_y: 10,
        scale_x: Scale { num: 5, den: 3 },
        scale_y: Scale { num: 1, den: 1 },
    };
    assert_eq!(
        outer.chain(inner),
        Some(Transformation {
            origin_x: 11,
            origin_y: 27,
            scale_x: Scale { num: 15, den: 6 },
            scale_y: Scale { num: 2, den: 1 },
        }),
    );
}

#[test]
fn reverse_bounds_takes_both_corners_across() {
    let t = Transformation {
        origin_x: 10,
        origin_y: 20,
        scale_x: Scale { num: 2, den: 1 },
        scale_y: Scale { num: 3, den: 1 },
    };
    assert_eq!(
        t.reverse_bounds(Bounds { x: 1, y: 2, width: 5, height: 7 }),
        Some(Bounds { x: 12, y: 26, width: 10, height: 21 }),
    );
    let mirrored = Transformation { scale_x: Scale { num: -2, den: 1 }, ..t };
    assert_eq!(
        mirrored.reverse_bounds(Bounds { x: 1, y: 2, width: 5, height: 7 }),
        Some(Bounds { x: 8, y: 26, width: -10, height: 21 }),
    );
}

#[test]
fn row_and_view_sizes_follow_their_children() {
    let row = Row::new(vec![
        (units(0.0), sized_button("a", 5.0, 10.0, KeyId(0))),
        (units(6.0), sized_button("b", 4.0, 12.0, KeyId(1))),
        (units(11.0), sized_button("c", 3.0, 8.0, KeyId(2))),
    ]);
    assert_eq!(row.get_size(), Size { width: units(14.0), height: units(12.0) });
    assert_eq!(row.get_buttons().len(), 3);
    let narrow = Row::new(vec![(units(0.0), sized_button("d", 4.0, 9.0, KeyId(3)))]);
    let empty = Row::new(vec![]);
    assert_eq!(empty.get_size(), Size { width: 0, height: 0 });

    let view = View::new(vec![(units(0.0), row), (units(13.0), narrow), (units(30.0), empty)]);
    assert_eq!(view.get_size(), Size { width: units(14.0), height: units(30.0) });
    let rows = view.get_rows();
    assert_eq!(rows[0].0, Point { x: 0, y: 0 });
    assert_eq!(rows[1].0, Point { x: units(5.0), y: units(13.0) });
    assert_eq!(rows[2].0, Point { x: units(7.0), y: units(30.0) });

    let nothing = View::new(vec![]);
    assert_eq!(nothing.get_size(), Size { width: 0, height: 0 });
    assert_eq!(
        View::calculate_super_size(vec![&view, &nothing]),
        Size { width: units(14.0), height: units(30.0) },
    );
    assert_eq!(View::calculate_super_size(vec![]), Size { width: 0, height: 0 });
}

#[test]
fn button_bounds_start_at_its_origin() {
    let button = sized_button("a", 5.0, 10.0, KeyId(0));
    assert_eq!(
        button.get_bounds(),
        Bounds { x: 0, y: 0, width: units(5.0), height: units(10.0) },
    );
}

#[test]
fn hit_test_owns_gaps_and_leaves_edges_out() {
    // Two rows with a gap between them, the second narrower than the view.
    let view = View::new(vec![
        (
            0,
            Row::new(vec![
                (0, sized_button("A", 0.00001, 0.00001, KeyId(0))),
                (20, sized_button("B", 0.00001, 0.00001, KeyId(1))),
            ]),
        ),
        (50, Row::new(vec![(0, sized_button("C", 0.00001, 0.00001, KeyId(2)))])),
    ]);
    assert_eq!(view.get_size(), Size { width: 30, height: 60 });
    let name = |x: i64, y: i64| {
        view.find_button_by_position(Point { x, y }).map(|place| place.button.name.clone())
    };
    // The edges belong to nobody.
    assert_eq!(name(0, 5), None);
    assert_eq!(name(30, 5), None);
    assert_eq!(name(5, 0), None);
    assert_eq!(name(5, 60), None);
    assert_eq!(name(-1, -1), None);
    // A button owns what lies between its end and the next one's start,
    // and the start of the next as well.
    assert_eq!(name(1, 1), Some("A".to_string()));
    assert_eq!(name(15, 1), Some("A".to_string()));
    assert_eq!(name(20, 1), Some("A".to_string()));
    assert_eq!(name(21, 1), Some("B".to_string()));
    assert_eq!(name(29, 49), Some("B".to_string()));
    assert_eq!(name(29, 50), Some("B".to_string()));
    // The second row is centered: it starts at 10.
    assert_eq!(name(1, 51), Some("C".to_string()));
    assert_eq!(name(29, 59), Some("C".to_string()));
    let place = view.find_button_by_position(Point { x: 29, y: 59 }).unwrap();
    assert_eq!(place.offset, Point { x: 10, y: 50 });
    let place = view.find_button_by_position(Point { x: 25, y: 3 }).unwrap();
    assert_eq!(place.offset, Point { x: 20, y: 0 });
}

#[test]
fn hit_test_finds_nothing_in_an_empty_row() {
    let view = View::new(vec![
        (0, Row::new(vec![(0, sized_button("A", 0.00003, 0.00001, KeyId(0)))])),
        (10, Row::new(vec![])),
        (20, Row::new(vec![(0, sized_button("C", 0.00003, 0.00001, KeyId(1)))])),
    ]);
    assert!(view.find_button_by_position(Point { x: 5, y: 5 }).is_some());
    assert!(view.find_button_by_position(Point { x: 5, y: 15 }).is_none());
    assert!(view.find_button_by_position(Point { x: 5, y: 25 }).is_some());
}

#[test]
fn layout_hit_test_counts_from_the_view_offset() {
    let view = View::new(vec![(
        0,
        Row::new(vec![
            (0, sized_button("A", 0.00001, 0.00002, KeyId(0))),
            (10, sized_button("B", 0.00001, 0.00002, KeyId(1))),
        ]),
    )]);
    let mut views = ViewMap::new();
    views.insert("base".into(), (Point { x: 100, y: 200 }, view));
    let layout = Layout::new(
        LayoutData {
            views,
            keymaps: Vec::new(),
            margins: no_margins(),
            keys: vec![make_state(), make_state()],
        },
        ArrangementKind::Wide,
        ContentPurpose::Digits,
    );
    assert_eq!(layout.get_kind(), ArrangementKind::Wide);
    assert_eq!(layout.get_purpose(), ContentPurpose::Digits);
    assert_eq!(layout.get_current_view_position().0, Point { x: 100, y: 200 });
    assert_eq!(layout.get_current_view().get_size(), Size { width: 20, height: 20 });
    assert!(layout.find_button_by_position(Point { x: 5, y: 5 }).is_none());
    assert!(layout.find_button_by_position(Point { x: 100, y: 205 }).is_none());
    assert!(layout.find_button_by_position(Point { x: i64::MIN, y: i64::MAX }).is_none());
    let place = layout.find_button_by_position(Point { x: 101, y: 205 }).unwrap();
    assert_eq!(place.button.name, "A");
    assert_eq!(place.offset, Point { x: 0, y: 0 });
    let place = layout.find_button_by_position(Point { x: 115, y: 219 }).unwrap();
    assert_eq!(place.button.name, "B");
    assert_eq!(place.offset, Point { x: 10, y: 0 });

    let visible = layout.foreach_visible_button();
    assert_eq!(visible.len(), 2);
    assert_eq!(visible[0].0, Point { x: 100, y: 200 });
    assert_eq!(visible[0].1.name, "A");
    assert_eq!(visible[1].0, Point { x: 110, y: 200 });
    assert_eq!(visible[1].1.name, "B");
}

#[test]
fn transformation_needs_some_size() {
    let layout = one_button_layout(no_margins());
    assert_eq!(layout.calculate_transformation(Size { width: 0, height: 10 }), None);
    assert_eq!(layout.calculate_transformation(Size { width: 10, height: 0 }), None);
    assert_eq!(layout.calculate_transformation(Size { width: -1, height: 10 }), None);
    assert_eq!(
        layout.calculate_transformation(Size { width: (1 << 40) + 1, height: 10 }),
        None
    );
    assert!(layout.calculate_transformation(Size { width: 1 << 40, height: 10 }).is_some());

    let mut views = ViewMap::new();
    views.insert("base".into(), (origin(), View::new(vec![])));
    let empty = Layout::new(
        LayoutData { views, keymaps: Vec::new(), margins: no_margins(), keys: vec![] },
        ArrangementKind::Base,
        ContentPurpose::Normal,
    );
    assert_eq!(empty.calculate_size(), Size { width: 0, height: 0 });
    assert_eq!(empty.calculate_transformation(Size { width: 10, height: 10 }), None);
}

#[test]
fn margins_move_the_origin_at_the_chosen_scale() {
    // 1 x 1 button, margins of 1 left and 2 on top: 2 x 3 in all.
    let layout = one_button_layout(Margins {
        top: units(2.0),
        left: units(1.0),
        right: 0,
        bottom: 0,
    });
    assert_eq!(layout.calculate_size(), Size { width: units(2.0), height: units(3.0) });
    // The width allows a scale of 10, the height one of 5: uniform 5.
    let t = layout
        .calculate_transformation(Size { width: units(20.0), height: units(15.0) })
        .unwrap();
    assert_eq!(factor(t.scale_x), 5.0);
    assert_eq!(factor(t.scale_y), 5.0);
    // (20 - 5 * 2) / 2 + 5 * 1 and (15 - 5 * 3) / 2 + 5 * 2
    assert_eq!(pixels(t.origin_x), 10.0);
    assert_eq!(pixels(t.origin_y), 10.0);
    // The button's corner inside the margins lands here in the widget.
    assert_eq!(t.reverse(origin()), Some(Point { x: units(10.0), y: units(10.0) }));
    assert_eq!(t.forward(Point { x: units(15.0), y: units(15.0) }), Some(Point {
        x: units(1.0),
        y: units(1.0),
    }));
}

#[test]
fn view_map_keeps_one_view_per_name() {
    let small = View::new(vec![(0, Row::new(vec![(0, sized_button("s", 0.00001, 0.00001, KeyId(0)))]))]);
    let large = View::new(vec![(0, Row::new(vec![(0, sized_button("l", 0.00005, 0.00005, KeyId(0)))]))]);
    let mut views = ViewMap::new();
    assert_eq!(views.len(), 0);
    assert!(!views.contains_key(&"base".into()));
    assert!(views.get(&"base".into()).is_none());
    views.insert("base".into(), (origin(), small.clone()));
    views.insert("other".into(), (Point { x: 1, y: 2 }, small));
    assert_eq!(views.len(), 2);
    views.insert("base".into(), (Point { x: 3, y: 4 }, large));
    assert_eq!(views.len(), 2);
    assert!(views.contains_key(&"base".into()));
    assert!(views.contains_key(&"other".into()));
    assert!(!views.contains_key(&"third".into()));
    let base = views.get(&"base".into()).unwrap();
    assert_eq!(base.0, Point { x: 3, y: 4 });
    assert_eq!(base.1.get_size(), Size { width: 50, height: 50 });
    assert_eq!(views.nth(0).0, Point { x: 3, y: 4 });
    assert_eq!(views.nth(1).0, Point { x: 1, y: 2 });
}

#[test]
fn inner_size_holds_every_view() {
    let wide = View::new(vec![(0, Row::new(vec![(0, sized_button("w", 0.00009, 0.00001, KeyId(0)))]))]);
    let tall = View::new(vec![(0, Row::new(vec![(0, sized_button("t", 0.00002, 0.00007, KeyId(0)))]))]);
    let mut views = ViewMap::new();
    views.insert("base".into(), (origin(), wide));
    views.insert("tall".into(), (origin(), tall));
    let layout = Layout::new(
        LayoutData {
            views,
            keymaps: Vec::new(),
            margins: Margins { top: 1, bottom: 2, left: 3, right: 4 },
            keys: vec![make_state()],
        },
        ArrangementKind::Base,
        ContentPurpose::Normal,
    );
    assert_eq!(layout.calculate_inner_size(), Size { width: 90, height: 70 });
    assert_eq!(layout.calculate_size(), Size { width: 97, height: 73 });
}

#[test]
fn new_layout_shows_base_unlatched() {
    let layout = switching_layout(&["base"], Action::Erase, Action::Erase);
    assert_eq!(layout.current_view, "base");
    assert_eq!(layout.get_view_latched(), &LatchedState::Not);
    assert!(layout.pressed_keys.is_empty());
}

#[test]
fn set_view_refuses_a_missing_view() {
    let mut layout = switching_layout(&["base", "other"], Action::Erase, Action::Erase);
    assert_eq!(layout.set_view("other".into()), Ok(()));
    assert_eq!(layout.current_view, "other");
    assert_eq!(layout.set_view("nowhere".into()), Err(NoSuchView));
    assert_eq!(layout.current_view, "other");
    assert_eq!(NoSuchView.message(), "No such view");
    assert_eq!(try_set_view(&mut layout, &"nowhere".into()), Some("nowhere".to_string()));
    assert_eq!(layout.current_view, "other");
    assert_eq!(try_set_view(&mut layout, &"base".into()), None);
    assert_eq!(layout.current_view, "base");
}

#[test]
fn transition_to_a_missing_view_keeps_the_view_and_sets_the_latch() {
    let switch = Action::LockView {
        lock: "nowhere".into(),
        unlock: "base".into(),
        latches: true,
        looks_locked_from: vec![],
    };
    let mut layout = switching_layout(&["base"], switch.clone(), Action::Erase);
    assert_eq!(layout.apply_view_transition(&switch), Some("nowhere".to_string()));
    assert_eq!(layout.current_view, "base");
    assert_eq!(layout.get_view_latched(), &LatchedState::FromView("base".into()));
    assert_eq!(layout.apply_view_transition(&Action::SetView("elsewhere".into())), Some(
        "elsewhere".to_string()
    ));
    assert_eq!(layout.current_view, "base");
    assert_eq!(layout.get_view_latched(), &LatchedState::Not);
}

#[test]
fn unlatching_to_a_missing_view_is_reported() {
    let mut layout = switching_layout(&["base", "locked"], Action::Erase, Action::Erase);
    layout.view_latched = LatchedState::FromView("gone".into());
    layout.current_view = "locked".into();
    assert_eq!(layout.unstick_locks(), Some("gone".to_string()));
    assert_eq!(layout.current_view, "locked");
    assert_eq!(layout.get_view_latched(), &LatchedState::FromView("gone".into()));
    // The policy switches the latch off all the same.
    assert_eq!(layout.apply_view_transition(&Action::Erase), Some("gone".to_string()));
    assert_eq!(layout.current_view, "locked");
    assert_eq!(layout.get_view_latched(), &LatchedState::Not);

    layout.view_latched = LatchedState::FromView("base".into());
    assert_eq!(layout.unstick_locks(), None);
    assert_eq!(layout.current_view, "base");
    assert_eq!(layout.get_view_latched(), &LatchedState::Not);
    assert_eq!(layout.unstick_locks(), None);
    assert_eq!(layout.current_view, "base");
}

#[test]
fn policy_table() {
    let current: String = "here".into();
    let there: String = "there".into();
    let back: String = "back".into();
    let not = LatchedState::Not;
    let from = LatchedState::FromView("before".into());
    let decide = Layout::process_action_for_view;

    let submit = Action::Submit { text: Some("a".into()), keys: vec![97] };
    assert_eq!(decide(&submit, &current, &not), (ViewTransition::NoChange, LatchedState::Not));
    assert_eq!(decide(&submit, &current, &from), (ViewTransition::UnlatchAll, LatchedState::Not));
    let modifier = Action::ApplyModifier(Modifier::Control);
    assert_eq!(decide(&modifier, &current, &not), (ViewTransition::NoChange, LatchedState::Not));
    assert_eq!(decide(&modifier, &current, &from), (ViewTransition::UnlatchAll, LatchedState::Not));

    let set = Action::SetView("there".into());
    assert_eq!(decide(&set, &current, &from), (ViewTransition::ChangeTo(&there), LatchedState::Not));
    assert_eq!(decide(&set, &current, &not), (ViewTransition::ChangeTo(&there), LatchedState::Not));

    let prefs = Action::ShowPreferences;
    assert_eq!(decide(&prefs, &current, &from), (ViewTransition::NoChange, from.clone()));
    assert_eq!(decide(&prefs, &current, &not), (ViewTransition::NoChange, LatchedState::Not));

    let lock = |latches: bool| Action::LockView {
        lock: "there".into(),
        unlock: "back".into(),
        latches,
        looks_locked_from: vec![],
    };
    // Not locked, latches: latch, and keep an earlier latch.
    assert_eq!(
        decide(&lock(true), &current, &not),
        (ViewTransition::ChangeTo(&there), LatchedState::FromView("here".into())),
    );
    assert_eq!(
        decide(&lock(true), &current, &from),
        (ViewTransition::ChangeTo(&there), LatchedState::FromView("before".into())),
    );
    // Not locked, does not latch: lock.
    assert_eq!(
        decide(&lock(false), &current, &not),
        (ViewTransition::ChangeTo(&there), LatchedState::Not),
    );
    assert_eq!(
        decide(&lock(false), &current, &from),
        (ViewTransition::ChangeTo(&there), LatchedState::Not),
    );
    // Locked and latched, latches: only the latch ends.
    assert_eq!(decide(&lock(true), &there, &from), (ViewTransition::NoChange, LatchedState::Not));
    // Locked otherwise: unlock.
    assert_eq!(
        decide(&lock(true), &there, &not),
        (ViewTransition::ChangeTo(&back), LatchedState::Not),
    );
    assert_eq!(
        decide(&lock(false), &there, &from),
        (ViewTransition::ChangeTo(&back), LatchedState::Not),
    );
    assert_eq!(
        decide(&lock(false), &there, &not),
        (ViewTransition::ChangeTo(&back), LatchedState::Not),
    );
}

#[test]
fn lock_is_told_by_the_lock_view() {
    let lock = Action::LockView {
        lock: "there".into(),
        unlock: "back".into(),
        latches: true,
        looks_locked_from: vec!["back".into()],
    };
    assert!(lock.is_locked(&"there".into()));
    assert!(!lock.is_locked(&"back".into()));
    assert!(!Action::SetView("there".into()).is_locked(&"there".into()));
    assert!(!Action::Erase.is_locked(&"there".into()));
}

#[test]
fn kind_and_purpose_have_their_numbers() {
    assert_eq!(ArrangementKind::Base.code(), 0);
    assert_eq!(ArrangementKind::Wide.code(), 1);
    assert_eq!(ContentPurpose::Normal.code(), 0);
    assert_eq!(ContentPurpose::Digits.code(), 2);
    assert_eq!(ContentPurpose::Terminal.code(), 13);
}

#[test]
fn rows_are_checked_before_they_are_made() {
    let button = |width: i64, height: i64| Button {
        size: Size { width, height },
        ..make_button_with_state("b".into(), KeyId(0))
    };
    assert!(Row::valid(&vec![]));
    assert!(Row::valid(&vec![(0, button(5, 5)), (5, button(5, 5))]));
    assert!(Row::valid(&vec![(3, button(0, 0)), (4, button(1 << 40, 1 << 40))]));
    // Not further right than the one before.
    assert!(!Row::valid(&vec![(5, button(5, 5)), (5, button(5, 5))]));
    assert!(!Row::valid(&vec![(0, button(5, 5)), (7, button(5, 5)), (6, button(5, 5))]));
    // Out of range.
    assert!(!Row::valid(&vec![(-1, button(5, 5))]));
    assert!(!Row::valid(&vec![((1 << 40) + 1, button(5, 5))]));
    assert!(!Row::valid(&vec![(0, button(-5, 5))]));
    assert!(!Row::valid(&vec![(0, button(5, (1 << 40) + 1))]));
    assert!(button(5, 5).is_valid());
    assert!(!button(5, -1).is_valid());

    let row = Row::new(vec![(0, button(5, 5)), (5, button(5, 7))]);
    assert!(row.is_valid());
    assert!(row.has_keys_below(1));
    assert!(!row.has_keys_below(0));
}

#[test]
fn views_are_checked_before_they_are_made() {
    let row = || Row::new(vec![(0, sized_button("a", 0.00001, 0.00001, KeyId(3)))]);
    assert!(View::valid(&vec![]));
    assert!(View::valid(&vec![(0, row()), (10, row())]));
    assert!(!View::valid(&vec![(10, row()), (10, row())]));
    assert!(!View::valid(&vec![(10, row()), (0, row())]));
    assert!(!View::valid(&vec![(-10, row())]));
    assert!(!View::valid(&vec![((1 << 40) + 1, row())]));

    let view = View::new(vec![(0, row()), (10, row())]);
    assert!(view.is_valid());
    assert!(view.has_keys_below(4));
    assert!(!view.has_keys_below(3));
    assert!(View::new(vec![]).is_valid());
}

#[test]
fn layouts_tell_whether_their_parts_fit() {
    let mut layout = switching_layout(&["base", "other"], Action::Erase, Action::Erase);
    assert!(layout.is_valid());
    assert!(layout.shows_a_view());
    layout.current_view = "nowhere".into();
    assert!(layout.is_valid());
    assert!(!layout.shows_a_view());

    layout.pressed_keys = vec![KeyId(1), KeyId(0)];
    assert!(layout.is_valid());
    layout.pressed_keys = vec![KeyId(1), KeyId(0), KeyId(1)];
    assert!(!layout.is_valid());
    layout.pressed_keys = vec![KeyId(2)];
    assert!(!layout.is_valid());
    layout.pressed_keys = vec![];

    layout.margins.left = -1;
    assert!(!layout.is_valid());
    layout.margins.left = 0;
    assert!(layout.margins.is_valid());

    // A button for a key that the layout does not have.
    layout.keys.pop();
    assert!(!layout.is_valid());
    assert!(layout.views.has_valid_places(2));
    assert!(!layout.views.has_valid_places(1));
}

#[test]
fn layout_data_tells_whether_its_parts_fit() {
    let view = View::new(vec![(
        0,
        Row::new(vec![(0, sized_button("a", 0.00001, 0.00001, KeyId(1)))]),
    )]);
    let data = |offset: Point, keys: usize, margins: Margins| {
        let mut views = ViewMap::new();
        views.insert("base".into(), (offset, view.clone()));
        LayoutData {
            views,
            keymaps: Vec::new(),
            margins,
            keys: (0..keys).map(|_| make_state()).collect(),
        }
    };
    assert!(data(origin(), 2, no_margins()).is_valid());
    assert!(data(Point { x: -5, y: 1 << 40 }, 2, no_margins()).is_valid());
    assert!(!data(Point { x: 0, y: (1 << 40) + 1 }, 2, no_margins()).is_valid());
    assert!(!data(origin(), 1, no_margins()).is_valid());
    assert!(!data(origin(), 2, Margins { top: 0, bottom: -1, left: 0, right: 0 }).is_valid());
    let layout =
        Layout::new(data(origin(), 1, no_margins()), ArrangementKind::Base, ContentPurpose::Normal);
    assert!(!layout.is_valid());
    let layout =
        Layout::new(data(origin(), 2, no_margins()), ArrangementKind::Base, ContentPurpose::Normal);
    assert!(layout.is_valid());
}

#[test]
fn transformations_need_a_scale() {
    let scale = |num: i64, den: i64| Scale { num, den };
    assert!(scale(1, 1).is_valid());
    assert!(scale(-3, 7).is_valid());
    assert!(!scale(0, 7).is_valid());
    assert!(!scale(3, 0).is_valid());
    assert!(!scale(3, -1).is_valid());
    let t = |x: Scale, y: Scale| Transformation { origin_x: 0, origin_y: 0, scale_x: x, scale_y: y };
    assert!(t(scale(1, 2), scale(2, 1)).is_valid());
    assert!(!t(scale(0, 2), scale(2, 1)).is_valid());
    assert!(!t(scale(1, 2), scale(2, 0)).is_valid());
}

#[test]
fn key_places_come_row_by_row() {
    // Key 7 stands behind three buttons, key 8 behind one.
    let view = View::new(vec![
        (
            0,
            Row::new(vec![
                (0, sized_button("a", 0.00001, 0.00001, KeyId(7))),
                (10, sized_button("b", 0.00001, 0.00001, KeyId(8))),
                (20, sized_button("c", 0.00001, 0.00001, KeyId(7))),
            ]),
        ),
        (10, Row::new(vec![(0, sized_button("d", 0.00001, 0.00001, KeyId(7)))])),
    ]);
    let names = |key: usize| -> Vec<(Point, String)> {
        find_key_places(&view, KeyId(key))
            .into_iter()
            .map(|(place, button)| (place, button.name.clone()))
            .collect()
    };
    // The second row is 10 wide in a view of 30: it starts at 10.
    assert_eq!(
        names(7),
        vec![
            (Point { x: 0, y: 0 }, "a".to_string()),
            (Point { x: 20, y: 0 }, "c".to_string()),
            (Point { x: 10, y: 10 }, "d".to_string()),
        ],
    );
    assert_eq!(names(8), vec![(Point { x: 10, y: 0 }, "b".to_string())]);
    assert_eq!(names(9), vec![]);

    let all: Vec<(Point, String)> = view
        .button_places(Point { x: 100, y: -50 })
        .into_iter()
        .map(|(place, button)| (place, button.name.clone()))
        .collect();
    assert_eq!(
        all,
        vec![
            (Point { x: 100, y: -50 }, "a".to_string()),
            (Point { x: 110, y: -50 }, "b".to_string()),
            (Point { x: 120, y: -50 }, "c".to_string()),
            (Point { x: 110, y: -40 }, "d".to_string()),
        ],
    );
}
