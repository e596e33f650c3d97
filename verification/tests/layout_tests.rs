//! Box layout on concrete values: the spacing policies, conservation,
//! shrinking, growth distribution and the cross axis.

use gui::layout::ChildMeta;
use gui::{Grow, Grow2, HBox, VBox, PrefSize, Size, Spacing, Vec2};

fn fixed_child(w: i64, h: i64) -> ChildMeta<()> {
    ChildMeta::new((), Vec2::zero(), Size::zero(), PrefSize::fixed(Size::new(w, h)))
}

fn growing_child(w: i64, h: i64, units: i64) -> ChildMeta<()> {
    ChildMeta::new(
        (),
        Vec2::zero(),
        Size::zero(),
        PrefSize::new(
            Size::new(w, h),
            Size::new(w, h),
            Grow2::new(Grow { units, eps: 0 }, Grow::none()),
        ),
    )
}

#[test]
fn hbox_between_two_fixed_children() {
    // Two fixed 50-wide children in a 200-wide box with padding 10:
    // the single mid gap swallows everything, children at 0 and 150.
    let hbox = HBox::new(Spacing::Between, 10);
    let mut metas = vec![fixed_child(50, 20), fixed_child(50, 20)];
    hbox.layout_row(Size::new(200, 20), &mut metas);
    assert_eq!(metas[0].offset.x, 0);
    assert_eq!(metas[0].size.width, 50);
    assert_eq!(metas[1].offset.x, 150);
    assert_eq!(metas[1].size.width, 50);
    assert_eq!(metas[1].offset.x + metas[1].size.width, 200);
}

#[test]
fn hbox_right_packs_children_to_the_end() {
    let hbox = HBox::new(Spacing::Right, 0);
    let mut metas = vec![fixed_child(30, 10), fixed_child(30, 10)];
    hbox.layout_row(Size::new(100, 10), &mut metas);
    assert_eq!(metas[0].offset.x, 40);
    assert_eq!(metas[1].offset.x, 70);
}

#[test]
fn hbox_left_packs_children_to_the_start() {
    let hbox = HBox::new(Spacing::Left, 0);
    let mut metas = vec![fixed_child(30, 10), fixed_child(30, 10)];
    hbox.layout_row(Size::new(100, 10), &mut metas);
    assert_eq!(metas[0].offset.x, 0);
    assert_eq!(metas[1].offset.x, 30);
}

#[test]
fn hbox_equal_spreads_gaps_evenly() {
    // Remaining 90 over 2 children -> three gaps of 30.
    let hbox = HBox::new(Spacing::Equal, 0);
    let mut metas = vec![fixed_child(30, 10), fixed_child(30, 10)];
    hbox.layout_row(Size::new(150, 10), &mut metas);
    assert_eq!(metas[0].offset.x, 30);
    assert_eq!(metas[1].offset.x, 90);
}

#[test]
fn hbox_around_puts_space_at_the_edges() {
    let hbox = HBox::new(Spacing::Around, 0);
    let mut metas = vec![fixed_child(30, 10), fixed_child(30, 10)];
    hbox.layout_row(Size::new(100, 10), &mut metas);
    assert_eq!(metas[0].offset.x, 20);
    assert_eq!(metas[1].offset.x, 50);
}

#[test]
fn hbox_padding_conserves_odd_remainders() {
    // Three fixed 10-wide children in 40 units: the remainder 10 is cut
    // into half-gaps without losing a unit.
    let hbox = HBox::new(Spacing::Padding, 0);
    let mut metas = vec![fixed_child(10, 10), fixed_child(10, 10), fixed_child(10, 10)];
    hbox.layout_row(Size::new(40, 10), &mut metas);
    assert_eq!(metas[0].offset.x, 1);
    assert_eq!(metas[1].offset.x, 15);
    assert_eq!(metas[2].offset.x, 28);
}

#[test]
fn hbox_shrinking_keeps_minimum_sizes() {
    // Allocation below the combined minimum: children take exactly
    // their minimum, nothing negative.
    let hbox = HBox::new(Spacing::Left, 0);
    let mut metas = vec![fixed_child(50, 10), fixed_child(50, 10)];
    hbox.layout_row(Size::new(30, 10), &mut metas);
    assert_eq!(metas[0].size.width, 50);
    assert_eq!(metas[1].size.width, 50);
    assert_eq!(metas[0].offset.x, 0);
    assert_eq!(metas[1].offset.x, 50);
}

#[test]
fn hbox_growth_distributes_exactly() {
    // 100 leftover units over weights 1 and 2: shares 33 and 67, so the
    // whole leftover is spent.
    let hbox = HBox::new(Spacing::Left, 0);
    let mut metas = vec![growing_child(50, 10, 1), growing_child(50, 10, 2)];
    hbox.layout_row(Size::new(200, 10), &mut metas);
    assert_eq!(metas[0].size.width, 83);
    assert_eq!(metas[1].size.width, 117);
    assert_eq!(metas[0].size.width + metas[1].size.width, 200);
    assert_eq!(metas[1].offset.x, 83);
}

#[test]
fn hbox_passive_growth_gives_way_to_normal() {
    // One passive and one competing child: the competitor takes the
    // whole leftover.
    let passive = ChildMeta::new(
        (),
        Vec2::zero(),
        Size::zero(),
        PrefSize::new(
            Size::new(50, 10),
            Size::new(50, 10),
            Grow2::new(Grow::if_needed(), Grow::none()),
        ),
    );
    let hbox = HBox::new(Spacing::Left, 0);
    let mut metas = vec![passive, growing_child(50, 10, 1)];
    hbox.layout_row(Size::new(200, 10), &mut metas);
    assert_eq!(metas[0].size.width, 50);
    assert_eq!(metas[1].size.width, 150);
}

#[test]
fn hbox_interpolates_between_min_and_max() {
    let stretchy = ChildMeta::new(
        (),
        Vec2::zero(),
        Size::zero(),
        PrefSize::min_max(Size::new(10, 10), Size::new(30, 10)),
    );
    let hbox = HBox::new(Spacing::Left, 0);
    let mut metas = vec![stretchy, fixed_child(10, 10)];
    // 30 allocated, combined min 20, max 40: half the slack is granted.
    hbox.layout_row(Size::new(30, 10), &mut metas);
    assert_eq!(metas[0].size.width, 20);
    assert_eq!(metas[1].size.width, 10);
}

#[test]
fn hbox_centers_on_the_cross_axis() {
    let hbox = HBox::new(Spacing::Left, 0);
    let mut metas = vec![fixed_child(10, 20)];
    hbox.layout_row(Size::new(10, 100), &mut metas);
    assert_eq!(metas[0].offset.y, 40);
    assert_eq!(metas[0].size.height, 20);
}

#[test]
fn hbox_cross_axis_growth_fills_the_box() {
    let tall = ChildMeta::new(
        (),
        Vec2::zero(),
        Size::zero(),
        PrefSize::new(
            Size::new(10, 20),
            Size::new(10, 20),
            Grow2::new(Grow::none(), Grow::normal()),
        ),
    );
    let hbox = HBox::new(Spacing::Left, 0);
    let mut metas = vec![tall];
    hbox.layout_row(Size::new(10, 100), &mut metas);
    assert_eq!(metas[0].size.height, 100);
    assert_eq!(metas[0].offset.y, 0);
}

#[test]
fn vbox_stacks_downward_at_the_left_edge() {
    let vbox = VBox::new(Spacing::Left, 5);
    let mut metas = vec![fixed_child(30, 10), fixed_child(30, 10)];
    vbox.layout_column(Size::new(30, 100), &mut metas);
    assert_eq!(metas[0].offset, Vec2::new(0, 5));
    assert_eq!(metas[1].offset, Vec2::new(0, 15));
    assert_eq!(metas[0].size, Size::new(30, 10));
}

#[test]
fn empty_boxes_report_the_zero_preference() {
    let mut hbox = HBox::new(Spacing::Equal, 10);
    let metas: Vec<ChildMeta<()>> = Vec::new();
    let pref = hbox.pref_size_row(&metas);
    assert_eq!(pref.min, Size::new(0, 0));
    assert_eq!(pref.max, Size::new(0, 0));
    assert!(pref.grow.x.is_zero() && pref.grow.y.is_zero());
    let mut vbox = VBox::new(Spacing::Equal, 10);
    let pref = vbox.pref_size_column(&metas);
    assert_eq!(pref.min, Size::new(0, 0));
}

#[test]
fn hbox_reports_children_plus_padding() {
    let mut hbox = HBox::new(Spacing::Between, 10);
    let metas = vec![fixed_child(50, 20), fixed_child(50, 30)];
    let pref = hbox.pref_size_row(&metas);
    // One mid gap of 10 for the Between policy.
    assert_eq!(pref.min, Size::new(110, 30));
    assert_eq!(pref.max, Size::new(110, 30));
    assert_eq!(pref.grow.x, Grow::normal());
}

#[test]
fn vbox_reports_children_plus_padding() {
    let mut vbox = VBox::new(Spacing::Equal, 10);
    let metas = vec![fixed_child(50, 20), fixed_child(40, 30)];
    let pref = vbox.pref_size_column(&metas);
    // Three gaps of 10 for the Equal policy.
    assert_eq!(pref.min, Size::new(50, 80));
    assert_eq!(pref.grow.y, Grow::normal());
}

#[test]
fn single_child_between_centers_it() {
    let hbox = HBox::new(Spacing::Between, 0);
    let mut metas = vec![fixed_child(10, 10)];
    hbox.layout_row(Size::new(50, 10), &mut metas);
    assert_eq!(metas[0].offset.x, 20);
}
