//! The preferred-size algebra on concrete values.

use gui::{Grow, Grow2, PrefSize, Size};

fn pref(min_w: i64, min_h: i64, max_w: i64, max_h: i64) -> PrefSize {
    PrefSize::min_max(Size::new(min_w, min_h), Size::new(max_w, max_h))
}

#[test]
fn row_adds_widths_and_maxes_heights() {
    let mut a = pref(10, 20, 30, 40);
    let b = pref(5, 50, 7, 60);
    a.row(b);
    assert_eq!(a.min, Size::new(15, 50));
    assert_eq!(a.max, Size::new(37, 60));
}

#[test]
fn row_adds_horizontal_grow_and_maxes_vertical() {
    let mut a = PrefSize::new(
        Size::new(1, 1),
        Size::new(2, 2),
        Grow2::new(Grow::normal(), Grow::if_needed()),
    );
    let b = PrefSize::new(
        Size::new(1, 1),
        Size::new(2, 2),
        Grow2::new(Grow::normal(), Grow::normal()),
    );
    a.row(b);
    assert_eq!(a.grow.x, Grow { units: 2, eps: 0 });
    assert_eq!(a.grow.y, Grow { units: 1, eps: 0 });
}

#[test]
fn column_is_the_dual_of_row() {
    let mut a = pref(10, 20, 30, 40);
    let b = pref(5, 50, 7, 60);
    a.column(b);
    assert_eq!(a.min, Size::new(10, 70));
    assert_eq!(a.max, Size::new(30, 100));
}

#[test]
fn stacked_takes_componentwise_maxima() {
    let a = pref(10, 2, 30, 4);
    let b = pref(5, 50, 7, 60);
    let s = a.stacked(b);
    assert_eq!(s.min, Size::new(10, 50));
    assert_eq!(s.max, Size::new(30, 60));
    let t = b.stacked(a);
    assert_eq!(s, t);
}

#[test]
fn stacked_is_associative() {
    let a = pref(1, 9, 10, 20);
    let b = pref(5, 5, 8, 30);
    let c = pref(7, 2, 9, 40);
    assert_eq!(a.stacked(b).stacked(c), a.stacked(b.stacked(c)));
}

#[test]
fn new_restores_min_below_max() {
    let p = PrefSize::new(Size::new(50, 50), Size::new(10, 10), Grow2::none());
    assert_eq!(p.min, Size::new(50, 50));
    assert_eq!(p.max, Size::new(50, 50));
}

#[test]
fn fixed_floors_negative_sizes_at_zero() {
    let p = PrefSize::fixed(Size::new(-4, 7));
    assert_eq!(p.min, Size::new(0, 7));
    assert_eq!(p.max, p.min);
}

#[test]
fn grow_classes_stay_distinct() {
    // The passive class never reaches the competing class, however many
    // passive contributors add up.
    let mut passive = Grow::if_needed();
    for _ in 0..1000 {
        passive = passive.add(Grow::if_needed());
    }
    assert_eq!(passive.max(Grow::normal()), Grow::normal());
    assert!(!passive.is_zero());
    assert_eq!(Grow::none().max(passive), passive);
}

#[test]
fn grow_toggles() {
    let mut p = PrefSize::zero();
    p.set_grow_x();
    assert_eq!(p.grow.x, Grow::normal());
    p.grow_needed_y();
    assert_eq!(p.grow.y, Grow::if_needed());
    p.dont_grow_x();
    assert!(p.grow.x.is_zero());
}

#[test]
fn resize_adds_padding_everywhere() {
    let mut p = pref(10, 10, 20, 20);
    p.resize(Size::new(6, 8));
    assert_eq!(p.min, Size::new(16, 18));
    assert_eq!(p.max, Size::new(26, 28));
}

#[test]
fn size_override_combinators() {
    let mut p = pref(10, 10, 20, 20);
    p.max_min_size(Size::new(15, 5));
    assert_eq!(p.min, Size::new(15, 10));
    p.min_max_size(Size::new(18, 30));
    assert_eq!(p.max, Size::new(18, 20));
    p.max_max_size(p.min);
    assert_eq!(p.max, Size::new(18, 20));
    p.min_min_size(Size::new(1, 50));
    assert_eq!(p.min, Size::new(1, 10));
}
