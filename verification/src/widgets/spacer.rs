//! Invisible spacers that only occupy layout space.

use vstd::prelude::*;
use crate::geom::{Size, Rect, COORD_LIMIT};
use crate::size::PrefSize;
use crate::event::{Event, EventResponse, Change};
use crate::paint::Painter;
use crate::context::WidgetContext;
use crate::state::Key;
use crate::widget::{Widget, spec_inert_handle, spec_inert_traverse};

verus! {

/// A widget that paints nothing and reports a fixed or flexible size.
#[derive(Clone, Copy, PartialEq, Eq, Structural, Debug)]
pub struct Spacer(pub PrefSize);

impl Spacer {
    /// A spacer of exactly the given extent.
    pub fn fixed(width: i64, height: i64) -> (r: Spacer)
        requires
            width <= COORD_LIMIT,
            height <= COORD_LIMIT,
        ensures
            r.0.normalized(),
            r.0.max == r.0.min,
    {
        Spacer(PrefSize::fixed(Size::new(width, height)))
    }

    /// A spacer between zero and the given extent that passively absorbs
    /// leftover space.
    pub fn flex(width: i64, height: i64) -> (r: Spacer)
        requires
            0 <= width <= COORD_LIMIT,
            0 <= height <= COORD_LIMIT,
        ensures
            r.0.normalized(),
            r.0.min == (Size { width: 0, height: 0 }),
            r.0.max == (Size { width, height }),
    {
        Spacer(PrefSize::flexible(Size::new(width, height)))
    }

    /// A spacer that only absorbs leftover space.
    pub fn grow() -> (r: Spacer)
        ensures
            r.0.normalized(),
            r.0.min == r.0.max && r.0.min == (Size { width: 0, height: 0 }),
    {
        Spacer(PrefSize::flexible(Size::zero()))
    }
}

impl<T> Widget<T> for Spacer {
    open spec fn inv(&self) -> bool {
        self.0.normalized()
    }

    open spec fn spec_handle(&self, event: Event, data: Key<T>, post: Self, r: (
        EventResponse,
        Key<T>,
    )) -> bool {
        spec_inert_handle(*self, data, post, r)
    }

    open spec fn spec_traverse(&self, post: Self, took: bool) -> bool {
        spec_inert_traverse(*self, post, took)
    }

    fn draw(
        &mut self,
        painter: &mut Painter,
        size: Size,
        dirty_rect: Rect,
        context: &mut WidgetContext,
        data: &T,
    ) {
    }

    fn handle_event(&mut self, event: Event, context: &mut WidgetContext, data: Key<T>) -> (r: (
        EventResponse,
        Key<T>,
    )) {
        (EventResponse::none(), data)
    }

    fn get_pref_size(&mut self, context: &mut WidgetContext, data: &T) -> (r: PrefSize)
        ensures
            *final(self) == *old(self),
            r == old(self).0,
    {
        self.0
    }

    fn layout(&mut self, size: Size, context: &mut WidgetContext, data: &T) {
    }

    fn build(&mut self, context: &mut WidgetContext) {
    }

    fn traverse_focus(&mut self, context: &mut WidgetContext) -> (r: bool) {
        false
    }

    fn update(&mut self, new: &T, old_data: Option<&T>) -> (r: Change) {
        Change::Nothing
    }
}

} // verus!
