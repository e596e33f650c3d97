//! A state root's widget: a cached state front-end paired with the
//! widget bound to it. Event handling fetches the state, hands the
//! widget a mutation key, and commits the new value back to the shared
//! cell if and only if the key's changed flag was raised — a commit and
//! its notification can never separate.

use vstd::prelude::*;
use crate::geom::{Size, Rect};
use crate::size::PrefSize;
use crate::event::{Event, EventResponse, Change};
use crate::paint::Painter;
use crate::context::WidgetContext;
use crate::state::{StateID, StateManager, Key, CloneState, StateInner, clone_faithful, State};
use crate::state::clone_state::{spec_fetched, spec_fetched_commit};
use crate::state::state_inner::spec_committed;
use crate::widget::Widget;

verus! {

/// One widget bound to one piece of state.
pub struct StateWidgetImpl<T, W> {
    state: CloneState<T>,
    widget: W,
}

impl<T: Clone, W: Widget<T>> StateWidgetImpl<T, W> {
    /// The bound front-end.
    pub closed spec fn spec_state(&self) -> CloneState<T> {
        self.state
    }

    /// The bound widget.
    pub closed spec fn spec_widget(&self) -> W {
        self.widget
    }

    /// The widget's own invariant.
    pub open spec fn spec_inv(&self) -> bool {
        self.spec_widget().inv()
    }

    /// Binds `widget` to the state behind `state`.
    pub fn new(state: CloneState<T>, widget: W) -> (r: StateWidgetImpl<T, W>)
        requires
            widget.inv(),
        ensures
            r.spec_state() == state,
            r.spec_widget() == widget,
            r.spec_inv(),
    {
        StateWidgetImpl { state, widget }
    }

    /// The identity of the state this subtree depends on.
    pub fn states(&self) -> (r: StateID)
        ensures
            r == self.spec_state().spec_id(),
    {
        self.state.get_id()
    }

    /// Refreshes the cache and lets the widget react to the new value.
    pub fn update(&mut self, inner: &StateInner<T>) -> (r: Change)
        requires
            clone_faithful::<T>(),
            old(self).spec_inv(),
            old(self).spec_state().spec_id() == inner.spec_id(),
        ensures
            final(self).spec_inv(),
            final(self).spec_state().spec_id() == old(self).spec_state().spec_id(),
            final(self).spec_state().spec_cache() == spec_fetched(
                old(self).spec_state(),
                *inner,
            ),
            r.wf(),
    {
        let value = self.state.with_fetched_value(inner).clone();
        proof {
            assert(vstd::pervasive::cloned(self.state.spec_cache(), value));
        }
        self.widget.update(&value, None)
    }

    /// Paints the widget against the cached value.
    pub fn draw(
        &mut self,
        painter: &mut Painter,
        size: Size,
        dirty_rect: Rect,
        context: &mut WidgetContext,
    )
        requires
            clone_faithful::<T>(),
            old(self).spec_inv(),
            size.wf(),
            dirty_rect.wf(),
            old(painter).wf(),
            old(context).wf(),
        ensures
            final(self).spec_inv(),
            final(self).spec_state() == old(self).spec_state(),
            final(painter).wf(),
            final(painter).offset == old(painter).offset,
            final(painter).saved@ == old(painter).saved@,
            final(painter).cmds@.len() >= old(painter).cmds@.len(),
            forall|i: int|
                0 <= i < old(painter).cmds@.len() ==> (#[trigger] final(painter).cmds@[i]) == old(
                    painter,
                ).cmds@[i],
            final(context).wf(),
    {
        let value = self.state.cache_clone();
        self.widget.draw(painter, size, dirty_rect, context, &value)
    }

    /// Routes an event to the widget over a mutation key; a raised flag
    /// commits the key's value to the cell, bumping its commit by one
    /// and notifying every listener.
    pub fn handle_event(
        &mut self,
        event: Event,
        context: &mut WidgetContext,
        inner: &mut StateInner<T>,
        mgr: &mut StateManager,
    ) -> (r: EventResponse)
        requires
            clone_faithful::<T>(),
            old(self).spec_inv(),
            old(self).spec_state().spec_id() == old(inner).spec_id(),
            old(inner).spec_commit() < u64::MAX,
            old(mgr).wf(),
            event.wf(),
            old(context).wf(),
        ensures
            final(self).spec_inv(),
            final(self).spec_state().spec_id() == old(self).spec_state().spec_id(),
            final(inner).spec_id() == old(inner).spec_id(),
            r.wf(),
            final(context).wf(),
            final(mgr).wf(),
            final(inner).spec_commit() == old(inner).spec_commit() || final(inner).spec_commit()
                == old(inner).spec_commit() + 1,
            final(inner).spec_commit() == old(inner).spec_commit() + 1 ==> {
                &&& *final(inner) == spec_committed(*old(inner), final(inner).spec_value())
                &&& final(self).spec_state().spec_cache() == final(inner).spec_value()
                &&& final(self).spec_state().spec_commit() == final(inner).spec_commit()
                &&& forall|i: int|
                    0 <= i < final(mgr).listeners@.len() ==> {
                        &&& (#[trigger] final(mgr).listeners@[i]).id == old(mgr).listeners@[i].id
                        &&& final(mgr).listeners@[i].pending@ == old(
                            mgr,
                        ).listeners@[i].pending@.push(old(inner).spec_id())
                    }
            },
            final(inner).spec_commit() == old(inner).spec_commit() ==> {
                &&& *final(inner) == *old(inner)
                &&& *final(mgr) == *old(mgr)
            },
    {
        self.state.fetch(inner);
        let cache = self.state.cache_clone();
        let key = Key::new(cache);
        let (response, key) = self.widget.handle_event(event, context, key);
        let (value, changed) = key.into_parts();
        if changed {
            let committed = value.clone();
            proof {
                assert(vstd::pervasive::cloned(value, committed));
            }
            let commit = inner.update_value(mgr, committed);
            self.state.sync_after_commit(value, commit);
        }
        response
    }

    /// Reports the widget's size preference against the cached value.
    pub fn get_pref_size(&mut self, context: &mut WidgetContext) -> (r: PrefSize)
        requires
            clone_faithful::<T>(),
            old(self).spec_inv(),
            old(context).wf(),
        ensures
            final(self).spec_inv(),
            final(self).spec_state() == old(self).spec_state(),
            r.normalized(),
            final(context).wf(),
    {
        let value = self.state.cache_clone();
        self.widget.get_pref_size(context, &value)
    }

    /// Lays the widget out against the cached value.
    pub fn layout(&mut self, size: Size, context: &mut WidgetContext)
        requires
            clone_faithful::<T>(),
            old(self).spec_inv(),
            size.wf(),
            old(context).wf(),
        ensures
            final(self).spec_inv(),
            final(self).spec_state() == old(self).spec_state(),
            final(context).wf(),
    {
        let value = self.state.cache_clone();
        self.widget.layout(size, context, &value)
    }

    /// One-time setup.
    pub fn build(&mut self, context: &mut WidgetContext)
        requires
            old(self).spec_inv(),
            old(context).wf(),
        ensures
            final(self).spec_inv(),
            final(self).spec_state() == old(self).spec_state(),
            final(context).wf(),
    {
        self.widget.build(context)
    }

    /// Moves keyboard focus one step.
    pub fn traverse_focus(&mut self, context: &mut WidgetContext) -> (r: bool)
        requires
            old(self).spec_inv(),
            old(context).wf(),
        ensures
            final(self).spec_inv(),
            final(self).spec_state() == old(self).spec_state(),
            final(context).wf(),
    {
        self.widget.traverse_focus(context)
    }
}

} // verus!
// Focus traversal as the window drives it.

verus! {

impl<T: Clone, W: Widget<T>> StateWidgetImpl<T, W> {
    /// Moves keyboard focus one step, retrying once from the top when
    /// focus cycled off the end; false means nothing here is focusable.
    pub fn traverse_focus_from_top(&mut self, context: &mut WidgetContext) -> (r: bool)
        requires
            old(self).spec_inv(),
            old(context).wf(),
        ensures
            final(self).spec_inv(),
            final(self).spec_state() == old(self).spec_state(),
            final(context).wf(),
    {
        if self.traverse_focus(context) {
            true
        } else {
            self.traverse_focus(context)
        }
    }
}

} // verus!
