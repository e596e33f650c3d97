//! Change merging, event responses and event shifting on concrete
//! values.

use gui::{Change, Event, EventResponse, MouseEvent, Rect, Size, Vec2};

fn rect(x0: i64, y0: i64, x1: i64, y1: i64) -> Rect {
    Rect::new(x0, y0, x1, y1)
}

fn mouse(x: i64, y: i64) -> MouseEvent {
    MouseEvent::new(Vec2::new(x, y), 1, 1)
}

#[test]
fn change_merge_is_commutative() {
    let a = Change::Content(rect(0, 0, 10, 10));
    let b = Change::Content(rect(5, 5, 20, 20));
    match (a.merge(b), b.merge(a)) {
        (Change::Content(r1), Change::Content(r2)) => {
            assert_eq!(r1, r2);
            assert_eq!(r1, rect(0, 0, 20, 20));
        },
        _ => panic!("expected content changes"),
    }
}

#[test]
fn change_merge_identity_is_nothing() {
    let c = Change::Content(rect(1, 2, 3, 4));
    match Change::Nothing.merge(c) {
        Change::Content(r) => assert_eq!(r, rect(1, 2, 3, 4)),
        _ => panic!("identity lost the content"),
    }
    assert!(matches!(c.merge(Change::Nothing), Change::Content(_)));
    assert!(matches!(Change::Nothing.merge(Change::Nothing), Change::Nothing));
}

#[test]
fn change_merge_bounds_absorbs() {
    let c = Change::Content(rect(1, 2, 3, 4));
    assert!(matches!(Change::Bounds.merge(c), Change::Bounds));
    assert!(matches!(c.merge(Change::Bounds), Change::Bounds));
    assert!(matches!(Change::Bounds.merge(Change::Nothing), Change::Bounds));
}

#[test]
fn change_merge_is_associative_on_samples() {
    let a = Change::Content(rect(0, 0, 1, 1));
    let b = Change::Nothing;
    let c = Change::Content(rect(4, 4, 9, 9));
    let left = a.merge(b).merge(c);
    let right = a.merge(b.merge(c));
    match (left, right) {
        (Change::Content(r1), Change::Content(r2)) => assert_eq!(r1, r2),
        _ => panic!("expected content changes"),
    }
}

#[test]
fn change_shift_moves_content_only() {
    let c = Change::Content(rect(1, 1, 3, 3)).shift(Vec2::new(10, 20));
    match c {
        Change::Content(r) => assert_eq!(r, rect(11, 21, 13, 23)),
        _ => panic!("content lost"),
    }
    assert!(matches!(Change::Bounds.shift(Vec2::new(10, 20)), Change::Bounds));
}

#[test]
fn event_shift_round_trip_restores_position() {
    let v = Vec2::new(37, -12);
    let mut e = Event::MouseMove(mouse(100, 200));
    let size = Size::new(1000, 1000);
    e.shift(v, size);
    e.shift(Vec2::new(-v.x, -v.y), size);
    match e {
        Event::MouseMove(me) => assert_eq!(me.pos, Vec2::new(100, 200)),
        _ => panic!("variant changed"),
    }
}

#[test]
fn event_shift_reports_fit_exactly() {
    let size = Size::new(50, 50);
    let mut inside = Event::MouseDown(mouse(60, 60));
    assert!(inside.shift(Vec2::new(10, 10), size));
    match inside {
        Event::MouseDown(me) => assert_eq!(me.pos, Vec2::new(50, 50)),
        _ => panic!("variant changed"),
    }
    let mut outside = Event::MouseDown(mouse(60, 60));
    assert!(!outside.shift(Vec2::new(15, 0), size));
    let mut negative = Event::MouseDown(mouse(5, 5));
    assert!(!negative.shift(Vec2::new(10, 0), size));
    let mut keyboard = Event::MouseExit;
    assert!(keyboard.shift(Vec2::new(99, 99), size));
}

#[test]
fn event_response_merges_changes_and_consumption() {
    let a = EventResponse::changed(Size::new(10, 10), false);
    let b = EventResponse::deleted();
    let m = a.merge(b);
    assert!(m.is_consumed());
    assert!(!m.is_present());
    assert_eq!(m.dirty_rect(), Some(rect(0, 0, 10, 10)));
    let n = EventResponse::none().merge(EventResponse::unchanged(false));
    assert!(n.is_present());
    assert_eq!(n.dirty_rect(), None);
}

#[test]
fn event_response_bounds_has_no_dirty_rect() {
    let r = EventResponse::bounds_changed(true);
    assert_eq!(r.dirty_rect(), None);
    assert!(matches!(r.change(), Change::Bounds));
}

#[test]
fn event_response_shift_moves_the_dirty_rect() {
    let r = EventResponse::changed(Size::new(4, 4), false).shift(Vec2::new(7, 9));
    assert_eq!(r.dirty_rect(), Some(rect(7, 9, 11, 13)));
}
