//! A wrapper painting a filled background behind its child; purely
//! additive to drawing, pass-through everywhere else.

use vstd::prelude::*;
use crate::geom::{Size, Rect};
use crate::size::PrefSize;
use crate::event::{Event, EventResponse, Change};
use crate::paint::{Painter, PaintCmd, Color};
use crate::context::WidgetContext;
use crate::state::Key;
use crate::widget::Widget;
use crate::widgets::style::Background;

verus! {

/// A widget with a filled, optionally rounded background behind it.
pub struct BackgroundWrapper<W> {
    widget: W,
    background: Background,
    corners: i64,
}

/// Puts a background of `color` with the given corner radius behind
/// `widget`.
pub fn background<T, W: Widget<T>>(color: Color, radius: i64, widget: W) -> (r: BackgroundWrapper<
    W,
>)
    requires
        widget.inv(),
        0 <= radius <= 0xFFFF_FFFF,
    ensures
        r.spec_widget() == widget,
        r.spec_color() == color,
        r.spec_corners() == radius,
{
    BackgroundWrapper { widget, corners: radius, background: Background::from_color(color) }
}

impl<W> BackgroundWrapper<W> {
    /// The wrapped widget.
    pub closed spec fn spec_widget(&self) -> W {
        self.widget
    }

    /// The background color.
    pub closed spec fn spec_color(&self) -> Color {
        match self.background.color {
            crate::widgets::style::Fill::Solid(c) => c,
        }
    }

    /// The corner radius.
    pub closed spec fn spec_corners(&self) -> i64 {
        self.corners
    }
}

impl<T, W: Widget<T>> Widget<T> for BackgroundWrapper<W> {
    open spec fn inv(&self) -> bool {
        self.spec_widget().inv() && 0 <= self.spec_corners() <= 0xFFFF_FFFF
    }

    open spec fn spec_handle(&self, event: Event, data: Key<T>, post: Self, r: (
        EventResponse,
        Key<T>,
    )) -> bool {
        &&& self.spec_widget().spec_handle(event, data, post.spec_widget(), r)
        &&& post.spec_color() == self.spec_color()
        &&& post.spec_corners() == self.spec_corners()
    }

    open spec fn spec_traverse(&self, post: Self, took: bool) -> bool {
        &&& self.spec_widget().spec_traverse(post.spec_widget(), took)
        &&& post.spec_color() == self.spec_color()
        &&& post.spec_corners() == self.spec_corners()
    }

    fn draw(
        &mut self,
        painter: &mut Painter,
        size: Size,
        dirty_rect: Rect,
        context: &mut WidgetContext,
        data: &T,
    )
        ensures
            final(painter).cmds@.len() >= old(painter).cmds@.len() + 1,
            final(painter).cmds@[old(painter).cmds@.len() as int] == (PaintCmd::FillRect {
                rect: (Rect { x0: 0, y0: 0, x1: size.width, y1: size.height }).spec_translate(
                    old(painter).offset,
                ),
                color: old(self).spec_color(),
                corner_radius: old(self).spec_corners(),
            }),
    {
        let styled = Background { color: self.background.color, corner_radius: self.corners };
        styled.draw(painter, size.to_rect());
        self.widget.draw(painter, size, dirty_rect, context, data);
    }

    fn handle_event(&mut self, event: Event, context: &mut WidgetContext, data: Key<T>) -> (r: (
        EventResponse,
        Key<T>,
    )) {
        self.widget.handle_event(event, context, data)
    }

    fn get_pref_size(&mut self, context: &mut WidgetContext, data: &T) -> (r: PrefSize) {
        self.widget.get_pref_size(context, data)
    }

    fn layout(&mut self, size: Size, context: &mut WidgetContext, data: &T) {
        self.widget.layout(size, context, data)
    }

    fn build(&mut self, context: &mut WidgetContext) {
        self.widget.build(context)
    }

    fn traverse_focus(&mut self, context: &mut WidgetContext) -> (r: bool) {
        self.widget.traverse_focus(context)
    }

    fn update(&mut self, new: &T, old_data: Option<&T>) -> (r: Change) {
        self.widget.update(new, old_data)
    }
}

} // verus!
