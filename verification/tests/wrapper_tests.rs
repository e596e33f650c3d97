//! Composition adapters: stacking, event modifiers, size overrides and
//! the state-root widget.

use gui::{
    event_filter, event_listener, Change, CloneState, Empty, Event, EventResponse, Grow, Grow2,
    Key, MouseEvent, PrefSize, PrefSizeWrapper, Size, Spacer, StateManager, StateWidgetImpl,
    Vec2, Widget, WidgetContext, statcked,
};

fn mouse(x: i64, y: i64) -> MouseEvent {
    MouseEvent::new(Vec2::new(x, y), 1, 1)
}

#[test]
fn stacked_combines_preferences_by_maxima() {
    let mut stack = statcked(Spacer::fixed(10, 40), Spacer::fixed(30, 20));
    let mut ctx = WidgetContext::new(Size::new(100, 100));
    let pref: PrefSize = stack.get_pref_size(&mut ctx, &0u32);
    assert_eq!(pref.min, Size::new(30, 40));
    assert_eq!(pref.max, Size::new(30, 40));
}

#[test]
fn event_listener_runs_after_the_widget() {
    let mut wrapped = event_listener(Empty, |_ev: Event, mut key: Key<u32>| {
        let v = *key.get();
        key.set(v + 1);
        (EventResponse::deleted(), key)
    });
    let mut ctx = WidgetContext::new(Size::new(10, 10));
    let (response, key) = wrapped.handle_event(Event::MouseDown(mouse(1, 1)), &mut ctx, Key::new(0u32));
    assert!(response.is_consumed());
    let (count, _) = key.into_parts();
    assert_eq!(count, 1);
}

#[test]
fn event_filter_can_starve_the_widget() {
    // The filter consumes everything, so the click listener inside
    // never sees the press.
    let inner = gui::click_listener(Empty, |_me: MouseEvent, mut key: Key<u32>| {
        let v = *key.get();
        key.set(v + 100);
        key
    });
    let mut wrapped = event_filter(inner, |_ev: Event, key: Key<u32>| {
        (EventResponse::deleted(), key)
    });
    let mut ctx = WidgetContext::new(Size::new(10, 10));
    let (_, key) = wrapped.handle_event(Event::MouseDown(mouse(1, 1)), &mut ctx, Key::new(0u32));
    let (_, key) = wrapped.handle_event(Event::MouseUp(mouse(1, 1)), &mut ctx, key);
    let (count, _) = key.into_parts();
    assert_eq!(count, 0);
}

#[test]
fn pref_size_override_policies() {
    let mut ctx = WidgetContext::new(Size::new(100, 100));
    let native = Spacer(PrefSize::min_max(Size::new(10, 10), Size::new(40, 40)));

    // Restrict clamps the maximum down.
    let cap = PrefSize::min_max(Size::new(0, 0), Size::new(20, 50));
    let mut restricted = PrefSizeWrapper::new(native, cap, true, false, false);
    let pref = restricted.get_pref_size(&mut ctx, &0u32);
    assert_eq!(pref.max, Size::new(20, 40));
    assert_eq!(pref.min, Size::new(10, 10));

    // Loosen raises the maximum.
    let mut loosened = PrefSizeWrapper::new(native, cap, false, true, false);
    let pref = loosened.get_pref_size(&mut ctx, &0u32);
    assert_eq!(pref.max, Size::new(40, 50));

    // Replacement takes the override's maximum and growth wholesale.
    let grown = PrefSize::new(
        Size::new(0, 0),
        Size::new(5, 5),
        Grow2::new(Grow::normal(), Grow::none()),
    );
    let mut replaced = PrefSizeWrapper::new(native, grown, false, false, false);
    let pref = replaced.get_pref_size(&mut ctx, &0u32);
    assert_eq!(pref.max, Size::new(10, 10));
    assert_eq!(pref.grow.x, Grow::normal());

    // The minimum floor.
    let mut floored = PrefSizeWrapper::new(native, PrefSize::fixed(Size::new(25, 5)), false, true, true);
    let pref = floored.get_pref_size(&mut ctx, &0u32);
    assert_eq!(pref.min, Size::new(25, 10));
}

#[test]
fn empty_wants_nothing_but_absorbs_leftovers() {
    let mut empty = Empty;
    let mut ctx = WidgetContext::new(Size::new(10, 10));
    let pref: PrefSize = empty.get_pref_size(&mut ctx, &0u32);
    assert_eq!(pref.min, Size::new(0, 0));
    assert_eq!(pref.max, Size::new(0, 0));
    assert_eq!(pref.grow.x, Grow::if_needed());
    assert_eq!(pref.grow.y, Grow::if_needed());
}

#[test]
fn event_duplicate_is_exact() {
    let e = Event::KeyDown(gui::KeyEvent::new(
        gui::KeyCode::Other,
        Some(String::from("q")),
    ));
    match (e.duplicate(), e) {
        (Event::KeyDown(a), Event::KeyDown(b)) => {
            assert_eq!(a.code, b.code);
            assert_eq!(a.text, b.text);
        },
        _ => panic!("variant changed"),
    }
}

#[test]
fn state_widget_commits_changes_from_events() {
    let mut mgr = StateManager::new();
    let listener = mgr.register_listener();
    let (front, mut inner) = CloneState::new(&mut mgr, 5u32);
    let id = inner.id();

    let widget = gui::click_listener(Spacer::fixed(10, 10), |_me: MouseEvent, mut key: Key<
        u32,
    >| {
        let v = *key.get();
        key.set(v * 2);
        key
    });
    let mut root = StateWidgetImpl::new(front, widget);
    assert_eq!(root.states(), id);

    let mut ctx = WidgetContext::new(Size::new(10, 10));
    let _ = root.handle_event(Event::MouseDown(mouse(1, 1)), &mut ctx, &mut inner, &mut mgr);
    let _ = root.handle_event(Event::MouseUp(mouse(1, 1)), &mut ctx, &mut inner, &mut mgr);

    assert_eq!(*inner.use_value(), 10);
    assert_eq!(inner.commit(), 1);
    assert_eq!(mgr.drain(listener), vec![id]);
    assert!(matches!(root.update(&inner), Change::Nothing));
}

#[test]
fn focus_traversal_retries_from_the_top() {
    let mut mgr = StateManager::new();
    let (front, _inner) = CloneState::new(&mut mgr, 0u32);
    let mut root = StateWidgetImpl::new(front, Empty);
    let mut ctx = WidgetContext::new(Size::new(10, 10));
    // Nothing is focusable: both the first pass and the retry fail.
    assert!(!root.traverse_focus_from_top(&mut ctx));
}
