//! The empty widget: paints nothing, wants no space, but passively
//! absorbs whatever is left over.

use vstd::prelude::*;
use crate::geom::{Size, Rect};
use crate::size::PrefSize;
use crate::event::{Event, EventResponse, Change};
use crate::paint::Painter;
use crate::context::WidgetContext;
use crate::state::Key;
use crate::widget::{Widget, spec_inert_handle, spec_inert_traverse};

verus! {

/// A widget with nothing in it.
#[derive(Clone, Copy, PartialEq, Eq, Structural, Hash, Debug)]
pub struct Empty;

impl<T> Widget<T> for Empty {
    open spec fn inv(&self) -> bool {
        true
    }

    open spec fn spec_handle(&self, event: Event, data: Key<T>, post: Self, r: (
        EventResponse,
        Key<T>,
    )) -> bool {
        spec_inert_handle(*self, data, post, r)
    }

    open spec fn spec_traverse(&self, post: Self, took: bool) -> bool {
        spec_inert_traverse(*self, post, took)
    }

    fn draw(
        &mut self,
        painter: &mut Painter,
        size: Size,
        dirty_rect: Rect,
        context: &mut WidgetContext,
        data: &T,
    ) {
    }

    fn handle_event(&mut self, event: Event, context: &mut WidgetContext, data: Key<T>) -> (r: (
        EventResponse,
        Key<T>,
    )) {
        (EventResponse::none(), data)
    }

    fn get_pref_size(&mut self, context: &mut WidgetContext, data: &T) -> (r: PrefSize) {
        let size = PrefSize::zero();
        size.grow_if_needed()
    }

    fn layout(&mut self, size: Size, context: &mut WidgetContext, data: &T) {
    }

    fn build(&mut self, context: &mut WidgetContext) {
    }

    fn traverse_focus(&mut self, context: &mut WidgetContext) -> (r: bool) {
        false
    }

    fn update(&mut self, new: &T, old_data: Option<&T>) -> (r: Change) {
        Change::Nothing
    }
}

} // verus!
