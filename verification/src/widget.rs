//! The polymorphic widget contract: drawing, event handling, size
//! negotiation, layout and focus traversal. Every concrete widget keeps
//! its own invariant, reports well-formed sizes, and leaves the painter's
//! translation scope the way it found it.

use vstd::prelude::*;
use crate::geom::{Size, Rect};
use crate::size::PrefSize;
use crate::event::{Event, EventResponse, Change};
use crate::paint::Painter;
use crate::context::WidgetContext;
use crate::state::Key;

verus! {

/// The event relation of a widget that ignores events: it stays as it
/// was, nothing changed, nothing consumed, and the key is handed back
/// exactly as it came.
pub open spec fn spec_inert_handle<T, W>(
    pre: W,
    data: Key<T>,
    post: W,
    r: (EventResponse, Key<T>),
) -> bool {
    &&& post == pre
    &&& r.0.spec_change() is Nothing
    &&& !r.0.spec_consumed()
    &&& r.1 == data
}

/// The focus relation of a widget that never takes focus.
pub open spec fn spec_inert_traverse<W>(pre: W, post: W, took: bool) -> bool {
    post == pre && !took
}

/// The contract every widget implements.
pub trait Widget<T>: Sized {
    /// The widget's structural invariant.
    spec fn inv(&self) -> bool;

    /// The exact relation `handle_event` establishes between the widget
    /// before the call, the event and mutation key it was handed, the
    /// widget after the call, and the returned response and key. Each
    /// widget defines it over its own fields; a composite defines it
    /// over its children's relations, so the behaviour of a whole tree
    /// of concrete widgets stays derivable from contracts alone.
    spec fn spec_handle(&self, event: Event, data: Key<T>, post: Self, r: (EventResponse, Key<T>)) -> bool;

    /// The exact relation `traverse_focus` establishes between the
    /// widget before the call, the widget after it, and whether this
    /// subtree took focus.
    spec fn spec_traverse(&self, post: Self, took: bool) -> bool;

    /// Paints the widget into `painter`, which arrives translated to the
    /// widget's origin; the translation scope is left balanced and
    /// commands are only added.
    fn draw(
        &mut self,
        painter: &mut Painter,
        size: Size,
        dirty_rect: Rect,
        context: &mut WidgetContext,
        data: &T,
    )
        requires
            old(self).inv(),
            size.wf(),
            dirty_rect.wf(),
            old(painter).wf(),
            old(context).wf(),
        ensures
            final(self).inv(),
            final(painter).wf(),
            final(painter).offset == old(painter).offset,
            final(painter).saved@ == old(painter).saved@,
            final(painter).cmds@.len() >= old(painter).cmds@.len(),
            forall|i: int|
                0 <= i < old(painter).cmds@.len() ==> (#[trigger] final(painter).cmds@[i]) == old(
                    painter,
                ).cmds@[i],
            final(context).wf(),
    ;

    /// Handles an event against the widget's bound data, handing the
    /// mutation key back to the caller.
    fn handle_event(&mut self, event: Event, context: &mut WidgetContext, data: Key<T>) -> (r: (
        EventResponse,
        Key<T>,
    ))
        requires
            old(self).inv(),
            event.wf(),
            old(context).wf(),
        ensures
            final(self).inv(),
            r.0.wf(),
            final(context).wf(),
            old(self).spec_handle(event, data, *final(self), r),
    ;

    /// Reports the widget's size preference.
    fn get_pref_size(&mut self, context: &mut WidgetContext, data: &T) -> (r: PrefSize)
        requires
            old(self).inv(),
            old(context).wf(),
        ensures
            final(self).inv(),
            r.normalized(),
            final(context).wf(),
    ;

    /// Accepts the size the parent allocated.
    fn layout(&mut self, size: Size, context: &mut WidgetContext, data: &T)
        requires
            old(self).inv(),
            size.wf(),
            old(context).wf(),
        ensures
            final(self).inv(),
            final(context).wf(),
    ;

    /// One-time setup after attachment.
    fn build(&mut self, context: &mut WidgetContext)
        requires
            old(self).inv(),
            old(context).wf(),
        ensures
            final(self).inv(),
            final(context).wf(),
    ;

    /// Moves keyboard focus one step; true when this subtree took it.
    fn traverse_focus(&mut self, context: &mut WidgetContext) -> (r: bool)
        requires
            old(self).inv(),
            old(context).wf(),
        ensures
            final(self).inv(),
            final(context).wf(),
            old(self).spec_traverse(*final(self), r),
    ;

    /// Reacts to the bound data having changed from `old_data` to `new`.
    fn update(&mut self, new: &T, old_data: Option<&T>) -> (r: Change)
        requires
            old(self).inv(),
        ensures
            final(self).inv(),
            r.wf(),
    ;
}

} // verus!
