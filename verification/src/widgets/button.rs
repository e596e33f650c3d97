//! The stock button: a widget wrapped in the dynamic button style with a
//! click listener around it.

use vstd::prelude::*;
use crate::event::MouseEvent;
use crate::state::Key;
use crate::widget::Widget;
use crate::widgets::listener::{ClickListener, click_listener, spec_total_click};
use crate::widgets::style::{StyleAtlas, DynamicStyle, button_style};
use crate::widgets::wrap::WrapperWidget;

verus! {

/// Wraps `widget` in a button style (the stock one when none is given)
/// and fires `handler` once per completed click.
pub fn button<T, W: Widget<T>, F: Fn(MouseEvent, Key<T>) -> Key<T>>(
    widget: W,
    style: Option<StyleAtlas>,
    handler: F,
) -> (r: ClickListener<WrapperWidget<DynamicStyle, W>, F>)
    requires
        widget.inv(),
        match style {
            Some(atlas) => atlas.wf(),
            None => true,
        },
        spec_total_click::<T, F>(handler),
    ensures
        !r.spec_pressed(),
{
    let atlas = match style {
        Some(atlas) => atlas,
        None => button_style(),
    };
    let styled = WrapperWidget::new(DynamicStyle::new(atlas, true), widget);
    click_listener(styled, handler)
}

} // verus!
