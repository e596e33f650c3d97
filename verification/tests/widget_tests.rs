//! Widgets end to end: click synthesis through a container, text input,
//! the style state machine, wrappers and the painter.

use gui::widgets::style::{button_style, default_style, get_style, DynamicStyle, MouseState, Sheet, StyleState};
use gui::widgets::text::DynLabel;
use gui::widgets::wrap::WrapperResponse;
use gui::{
    click_listener, Color, Container, Event, HBox, Key, KeyCode, KeyEvent, MouseEvent, PaintCmd,
    Padding, Painter, PrefSize, Rect, Size, Spacer, Spacing, Vec2, Widget, WidgetContext,
    Wrapper, WrapperWidget,
};

fn mouse(x: i64, y: i64) -> MouseEvent {
    MouseEvent::new(Vec2::new(x, y), 1, 1)
}

fn counting_container() -> Container<
    u32,
    gui::ClickListener<Spacer, impl Fn(MouseEvent, Key<u32>) -> Key<u32>>,
    HBox,
> {
    let child = click_listener(Spacer::fixed(50, 50), |_me: MouseEvent, mut key: Key<u32>| {
        let v = *key.get();
        key.set(v + 1);
        key
    });
    Container::new(HBox::new(Spacing::Left, 0)).child(child)
}

#[test]
fn click_fires_once_for_press_and_release_inside() {
    let mut container = counting_container();
    let mut ctx = WidgetContext::new(Size::new(100, 100));
    let _ = container.get_pref_size(&mut ctx, &0u32);
    container.layout(Size::new(100, 100), &mut ctx, &0u32);

    // The child sits at x 0..50, vertically centered at y 25..75.
    let key = Key::new(0u32);
    let (_, key) = container.handle_event(Event::MouseDown(mouse(10, 30)), &mut ctx, key);
    let (_, key) = container.handle_event(Event::MouseUp(mouse(12, 32)), &mut ctx, key);
    let (count, changed) = key.into_parts();
    assert_eq!(count, 1);
    assert!(changed);
}

#[test]
fn no_click_after_leaving_the_child() {
    let mut container = counting_container();
    let mut ctx = WidgetContext::new(Size::new(100, 100));
    let _ = container.get_pref_size(&mut ctx, &0u32);
    container.layout(Size::new(100, 100), &mut ctx, &0u32);

    let key = Key::new(0u32);
    let (_, key) = container.handle_event(Event::MouseDown(mouse(10, 30)), &mut ctx, key);
    // Moving outside the child's rectangle synthesizes its exit.
    let (_, key) = container.handle_event(Event::MouseMove(mouse(90, 90)), &mut ctx, key);
    let (_, key) = container.handle_event(Event::MouseUp(mouse(90, 90)), &mut ctx, key);
    let (count, changed) = key.into_parts();
    assert_eq!(count, 0);
    assert!(!changed);
}

#[test]
fn text_input_appends_and_erases() {
    let mut input = gui::widgets::text::TextInput::new(|s: &String| (s.len() as i64) * 7);
    let mut ctx = WidgetContext::new(Size::new(100, 20));

    let typed = Event::KeyDown(KeyEvent::new(KeyCode::Other, Some(String::from("c"))));
    let key = Key::new(String::from("ab"));
    let (_, key) = input.handle_event(typed, &mut ctx, key);
    assert_eq!(key.get(), "abc");

    let backspace = Event::KeyDown(KeyEvent::new(KeyCode::Backspace, None));
    let (_, key) = input.handle_event(backspace, &mut ctx, key);
    assert_eq!(key.get(), "ab");
    let (_, changed) = key.into_parts();
    assert!(changed);
}

#[test]
fn text_input_ignores_backspace_on_empty_text() {
    let mut input = gui::widgets::text::TextInput::new(|s: &String| (s.len() as i64) * 7);
    let mut ctx = WidgetContext::new(Size::new(100, 20));
    let backspace = Event::KeyDown(KeyEvent::new(KeyCode::Backspace, None));
    let key = Key::new(String::new());
    let (_, key) = input.handle_event(backspace, &mut ctx, key);
    let (value, changed) = key.into_parts();
    assert_eq!(value, "");
    assert!(!changed);
}

#[test]
fn dynamic_style_follows_the_interaction() {
    let mut style = DynamicStyle::new(button_style(), true);
    assert_eq!(style.current, Sheet::Idle);

    let r = style.handle_event(&Event::MouseEnter(mouse(0, 0)));
    assert_eq!(r, WrapperResponse::Changed);
    assert_eq!(style.current, Sheet::Hovered);

    let r = style.handle_event(&Event::MouseDown(mouse(0, 0)));
    assert_eq!(r, WrapperResponse::Changed);
    assert_eq!(style.current, Sheet::Pressed);

    let r = style.handle_event(&Event::MouseUp(mouse(0, 0)));
    assert_eq!(r, WrapperResponse::Changed);
    assert_eq!(style.current, Sheet::Hovered);

    let r = style.handle_event(&Event::MouseExit);
    assert_eq!(r, WrapperResponse::Changed);
    assert_eq!(style.current, Sheet::Idle);
}

#[test]
fn styles_without_variants_never_change() {
    let mut style = DynamicStyle::new(default_style(), true);
    let r = style.handle_event(&Event::MouseEnter(mouse(0, 0)));
    assert_eq!(r, WrapperResponse::Unchanged);
    assert_eq!(style.current, Sheet::Idle);
}

#[test]
fn atlas_sheet_selection() {
    let atlas = button_style();
    let hovering = StyleState { focused: false, active: false, mouse_state: MouseState::Hovered };
    assert_eq!(atlas.sheet(hovering), Sheet::Hovered);
    let clicked = StyleState { mouse_state: MouseState::Clicked, ..hovering };
    assert_eq!(atlas.sheet(clicked), Sheet::Pressed);
    let idle = StyleState { mouse_state: MouseState::Idle, ..hovering };
    assert_eq!(atlas.sheet(idle), Sheet::Idle);
    // The focused sheet is unset for buttons: idle wins.
    let focused = StyleState { focused: true, ..idle };
    assert_eq!(atlas.sheet(focused), Sheet::Idle);
}

#[test]
fn padding_wrapper_grows_the_preference() {
    let mut wrapped = WrapperWidget::new(Padding::equal(5), Spacer::fixed(20, 20));
    let mut ctx = WidgetContext::new(Size::new(100, 100));
    let pref: PrefSize = wrapped.get_pref_size(&mut ctx, &0u32);
    assert_eq!(pref.min, Size::new(30, 30));
    assert_eq!(pref.max, Size::new(30, 30));
}

#[test]
fn painter_applies_scoped_offsets() {
    let mut painter = Painter::new();
    painter.save();
    painter.translate(Vec2::new(10, 20));
    painter.fill_rect(Rect::new(0, 0, 5, 5), Color::grey8(1), 0);
    painter.restore();
    painter.fill_rect(Rect::new(1, 1, 2, 2), Color::grey8(2), 0);

    assert_eq!(painter.offset, Vec2::new(0, 0));
    assert_eq!(painter.cmds.len(), 2);
    match &painter.cmds[0] {
        PaintCmd::FillRect { rect, .. } => assert_eq!(*rect, Rect::new(10, 20, 15, 25)),
        _ => panic!("expected a filled rectangle"),
    }
    match &painter.cmds[1] {
        PaintCmd::FillRect { rect, .. } => assert_eq!(*rect, Rect::new(1, 1, 2, 2)),
        _ => panic!("expected a filled rectangle"),
    }
}

#[test]
fn container_draw_restores_the_painter() {
    let mut container = counting_container();
    let mut ctx = WidgetContext::new(Size::new(100, 100));
    let _ = container.get_pref_size(&mut ctx, &0u32);
    container.layout(Size::new(100, 100), &mut ctx, &0u32);
    let mut painter = Painter::new();
    container.draw(&mut painter, Size::new(100, 100), Rect::new(0, 0, 100, 100), &mut ctx, &0u32);
    assert_eq!(painter.offset, Vec2::new(0, 0));
    assert_eq!(painter.saved.len(), 0);
}

#[test]
fn full_padding_adds_both_insets() {
    let padding = Padding::new(1, 2, 3, 4);
    assert_eq!(padding.get_left_top_padding(), Size::new(1, 2));
    assert_eq!(padding.get_right_bottom_padding(), Size::new(3, 4));
    assert_eq!(padding.get_full_padding(), Size::new(4, 6));
}

#[test]
fn dyn_label_measures_the_derived_text() {
    let mut label: DynLabel<u32, _, _> = DynLabel::new(
        |v: &u32| if *v > 9 { String::from("wide") } else { String::from("x") },
        |s: &String| (s.len() as i64) * 7,
    );
    let mut ctx = WidgetContext::new(Size::new(100, 20));
    let pref = label.get_pref_size(&mut ctx, &3u32);
    assert_eq!(pref.min.width, 7 + 8);
    let pref = label.get_pref_size(&mut ctx, &42u32);
    assert_eq!(pref.min.width, 28 + 8);
}

#[test]
fn stock_styles_are_looked_up_by_name() {
    let b = get_style("button");
    assert!(b.hovered.is_some() && b.pressed.is_some());
    let t = get_style("textfield");
    assert!(t.focused.is_some());
    let other = get_style("unknown");
    assert!(other.hovered.is_none() && other.pressed.is_none());
}

#[test]
fn hit_test_picks_the_topmost_child() {
    let mut container = gui::Container::new(HBox::new(Spacing::Left, 0))
        .child(Spacer::fixed(50, 50))
        .child(Spacer::fixed(50, 50));
    let mut ctx = WidgetContext::new(Size::new(100, 50));
    let _ = container.get_pref_size(&mut ctx, &0u32);
    container.layout(Size::new(100, 50), &mut ctx, &0u32);

    assert_eq!(container.hit_child(Vec2::new(10, 10)), Some(0));
    assert_eq!(container.hit_child(Vec2::new(60, 10)), Some(1));
    // The shared edge belongs to the later (topmost) child.
    assert_eq!(container.hit_child(Vec2::new(50, 10)), Some(1));
    assert_eq!(container.hit_child(Vec2::new(99, 60)), None);
}

#[test]
fn text_input_update_refreshes_the_displayed_label() {
    let mut input = gui::widgets::text::TextInput::new(|s: &String| (s.len() as i64) * 7);
    let mut ctx = WidgetContext::new(Size::new(100, 20));
    let data = String::from("hello");
    let change = input.update(&data, None);
    assert!(matches!(change, gui::Change::Bounds));

    let mut painter = Painter::new();
    input.draw(&mut painter, Size::new(100, 20), Rect::new(0, 0, 100, 20), &mut ctx, &data);
    match painter.cmds.last() {
        Some(PaintCmd::Text { text, .. }) => assert_eq!(text, "hello"),
        _ => panic!("expected the label text to be painted"),
    }

    // The input's own preference stays the fixed 80..150 range.
    let pref = input.get_pref_size(&mut ctx, &data);
    assert_eq!(pref.min, Size::new(80, 17));
    assert_eq!(pref.max, Size::new(150, 17));
}

#[test]
fn style_padding_changes_report_new_bounds() {
    // A hovered sheet with a wider padding: entering must force an
    // ancestor relayout, not just a repaint.
    let mut idle = gui::widgets::style::Style {
        margin: 0,
        padding: 2,
        border: 0,
        border_fill: gui::widgets::style::Fill::Solid(Color::grey8(0)),
        background: None,
        corners: 0,
    };
    let mut atlas = gui::widgets::style::StyleAtlas::new(idle);
    idle.padding = 6;
    atlas.hovered = Some(idle);

    let mut wrapped = WrapperWidget::new(DynamicStyle::new(atlas, false), Spacer::fixed(10, 10));
    let mut ctx = WidgetContext::new(Size::new(50, 50));
    let key = Key::new(0u32);
    let (response, _) = wrapped.handle_event(Event::MouseEnter(mouse(1, 1)), &mut ctx, key);
    assert!(matches!(response.change(), gui::Change::Bounds));
}
