//! The widget graph's bookkeeping and the window driver's decisions.

use gui::{
    Change, Event, KeyAction, KeyCode, KeyEvent, MinSize, MouseEvent, PrefSize, Rect, Size,
    StateID, Vec2, WidgetGraph, WindowBuilder, WindowInput,
};

#[test]
fn bounds_changes_climb_to_the_root() {
    let mut graph = WidgetGraph::new(StateID::new(0));
    let a = graph.insert(0, StateID::new(1));
    let b = graph.insert(a, StateID::new(2));
    let c = graph.insert(0, StateID::new(3));
    // Settle every node first.
    for i in [0, a, b, c] {
        graph.store_layout(i, Size::new(10, 10));
    }
    assert!(!graph.needs_pref(b));

    graph.bounds_changed(b);
    assert!(graph.needs_pref(b));
    assert!(graph.needs_pref(a));
    assert!(graph.needs_pref(0));
    // The sibling subtree is untouched.
    assert!(!graph.needs_pref(c));
}

#[test]
fn dependents_fan_out_by_state() {
    let mut graph = WidgetGraph::new(StateID::new(7));
    let a = graph.insert(0, StateID::new(8));
    let b = graph.insert(0, StateID::new(8));
    assert_eq!(graph.env.dependents(StateID::new(8)), vec![a, b]);
    assert_eq!(graph.env.dependents(StateID::new(7)), vec![0]);
    assert_eq!(graph.env.dependents(StateID::new(99)), Vec::<u32>::new());
}

#[test]
fn layout_runs_once_per_size_or_invalidation() {
    let mut graph = WidgetGraph::new(StateID::new(0));
    assert!(graph.begin_layout(Size::new(100, 100)));
    assert_eq!(graph.dirty(), Some(Rect::new(0, 0, 100, 100)));
    graph.note_paint(Rect::new(0, 0, 100, 100));
    assert_eq!(graph.dirty(), None);

    // Same size, nothing invalidated: no second pass.
    assert!(!graph.begin_layout(Size::new(100, 100)));
    // A new size forces one.
    assert!(graph.begin_layout(Size::new(200, 100)));
}

#[test]
fn record_update_shifts_into_window_coordinates() {
    let mut graph = WidgetGraph::new(StateID::new(0));
    let a = graph.insert(0, StateID::new(1));
    graph.nodes[a as usize].position = Vec2::new(30, 40);
    let shifted = graph.record_update(a, Change::Content(Rect::new(0, 0, 10, 10)));
    match shifted {
        Change::Content(r) => assert_eq!(r, Rect::new(30, 40, 40, 50)),
        _ => panic!("expected a content change"),
    }
    assert_eq!(graph.dirty(), Some(Rect::new(30, 40, 40, 50)));
}

#[test]
fn bounds_updates_force_relayout() {
    let mut graph = WidgetGraph::new(StateID::new(0));
    assert!(graph.begin_layout(Size::new(50, 50)));
    assert!(!graph.needs_layout());
    let _ = graph.record_update(0, Change::Bounds);
    assert!(graph.needs_layout());
}

#[test]
fn partial_paint_keeps_the_dirty_region() {
    let mut graph = WidgetGraph::new(StateID::new(0));
    graph.apply_change(Change::Content(Rect::new(0, 0, 50, 50)));
    graph.note_paint(Rect::new(0, 0, 20, 20));
    assert_eq!(graph.dirty(), Some(Rect::new(0, 0, 50, 50)));
    graph.note_paint(Rect::new(0, 0, 60, 60));
    assert_eq!(graph.dirty(), None);
}

#[test]
fn window_input_synthesizes_the_first_enter() {
    let mut input = WindowInput::new();
    let me = MouseEvent::new(Vec2::new(1, 2), 1, 1);
    let events = input.mouse_move(me);
    assert_eq!(events.len(), 2);
    assert!(matches!(events[0], Event::MouseEnter(_)));
    assert!(matches!(events[1], Event::MouseMove(_)));

    let events = input.mouse_down(me);
    assert_eq!(events.len(), 1);
    assert!(matches!(events[0], Event::MouseDown(_)));

    assert!(matches!(input.mouse_leave(), Some(Event::MouseExit)));
    assert!(input.mouse_leave().is_none());

    let events = input.mouse_up(me);
    assert_eq!(events.len(), 2);
    assert!(matches!(events[0], Event::MouseEnter(_)));
    assert!(matches!(events[1], Event::MouseUp(_)));
}

#[test]
fn tab_traverses_focus_and_other_keys_dispatch() {
    let tab = KeyEvent::new(KeyCode::Tab, None);
    assert!(matches!(gui::window::key_down_action(tab), KeyAction::TraverseFocus));
    let other = KeyEvent::new(KeyCode::Other, Some(String::from("x")));
    match gui::window::key_down_action(other) {
        KeyAction::Dispatch(Event::KeyDown(ke)) => assert_eq!(ke.text.as_deref(), Some("x")),
        _ => panic!("expected a dispatch"),
    }
}

#[test]
fn window_sizing_policies() {
    let pref = PrefSize::min_max(Size::new(40, 10), Size::new(600, 400));
    assert_eq!(WindowBuilder::initial_size(pref), Size::new(600, 400));
    let tiny = PrefSize::fixed(Size::new(10, 10));
    assert_eq!(WindowBuilder::initial_size(tiny), Size::new(200, 150));

    let fixed = WindowBuilder::new().keep_fixed_min_size(Size::new(300, 20));
    assert_eq!(fixed.min_window_size(pref), Size::new(300, 50));
    let derived = WindowBuilder::new().keep_min_size();
    assert_eq!(derived.min_window_size(pref), Size::new(150, 50));
    assert!(matches!(WindowBuilder::new().min_size, MinSize::Fixed(_)));
}
