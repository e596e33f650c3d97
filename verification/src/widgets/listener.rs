//! Event listeners around a widget: a modifier that runs a handler
//! before or after the wrapped widget, and the click listener that turns
//! a press/release pair inside the widget into one click.

use vstd::prelude::*;
use crate::geom::{Size, Rect};
use crate::size::PrefSize;
use crate::event::{Event, EventResponse, Change, MouseEvent, spec_change_merge};
use crate::paint::Painter;
use crate::context::WidgetContext;
use crate::state::Key;
use crate::widget::Widget;
use crate::widgets::empty::Empty;

verus! {

/// A handler over events and the mutation key that can always run and
/// always hands a well-formed response back.
pub open spec fn spec_total_handler<T, F: Fn(Event, Key<T>) -> (EventResponse, Key<T>)>(
    f: F,
) -> bool {
    &&& forall|ev: Event, k: Key<T>| #[trigger] call_requires(f, (ev, k))
    &&& forall|args: (Event, Key<T>), out: (EventResponse, Key<T>)|
        #[trigger] call_ensures(f, args, out) ==> out.0.wf()
}

/// A click handler that can always run.
pub open spec fn spec_total_click<T, F: Fn(MouseEvent, Key<T>) -> Key<T>>(f: F) -> bool {
    forall|me: MouseEvent, k: Key<T>| #[trigger] call_requires(f, (me, k))
}

/// Runs a handler beside the wrapped widget: as a filter it sees the
/// event first and the widget only gets what it leaves unconsumed; as a
/// listener the widget goes first.
pub struct EventModifier<W, F> {
    widget: W,
    listener: F,
    filter: bool,
}

impl<W, F> EventModifier<W, F> {
    /// The wrapped widget.
    pub closed spec fn spec_widget(&self) -> W {
        self.widget
    }

    /// The handler.
    pub closed spec fn spec_listener(&self) -> F {
        self.listener
    }

    /// Whether the handler runs before the widget.
    pub closed spec fn spec_filter(&self) -> bool {
        self.filter
    }
}

/// The wrapped widget handles the event first; the handler sees what the
/// widget leaves unconsumed.
pub fn event_listener<T, W: Widget<T>, F: Fn(Event, Key<T>) -> (EventResponse, Key<T>)>(
    widget: W,
    listener: F,
) -> (r: EventModifier<W, F>)
    requires
        widget.inv(),
        spec_total_handler::<T, F>(listener),
    ensures
        r.spec_widget() == widget,
        r.spec_listener() == listener,
        !r.spec_filter(),
{
    EventModifier { widget, listener, filter: false }
}

/// The handler sees the event first; the widget only gets what the
/// handler leaves unconsumed.
pub fn event_filter<T, W: Widget<T>, F: Fn(Event, Key<T>) -> (EventResponse, Key<T>)>(
    widget: W,
    listener: F,
) -> (r: EventModifier<W, F>)
    requires
        widget.inv(),
        spec_total_handler::<T, F>(listener),
    ensures
        r.spec_widget() == widget,
        r.spec_listener() == listener,
        r.spec_filter(),
{
    EventModifier { widget, listener, filter: true }
}

impl<T, W: Widget<T>, F: Fn(Event, Key<T>) -> (EventResponse, Key<T>)> Widget<T> for EventModifier<
    W,
    F,
> {
    open spec fn inv(&self) -> bool {
        self.spec_widget().inv() && spec_total_handler::<T, F>(self.spec_listener())
    }

    open spec fn spec_handle(&self, event: Event, data: Key<T>, post: Self, r: (
        EventResponse,
        Key<T>,
    )) -> bool {
        &&& post.spec_listener() == self.spec_listener()
        &&& post.spec_filter() == self.spec_filter()
        &&& if self.spec_filter() {
            // The handler runs first; the widget only sees what it left
            // unconsumed.
            exists|out: (EventResponse, Key<T>)|
                {
                    &&& #[trigger] call_ensures(self.spec_listener(), (event, data), out)
                    &&& if out.0.spec_consumed() {
                        &&& post.spec_widget() == self.spec_widget()
                        &&& r == out
                    } else {
                        exists|wr: (EventResponse, Key<T>)|
                            {
                                &&& #[trigger] self.spec_widget().spec_handle(
                                    event,
                                    out.1,
                                    post.spec_widget(),
                                    wr,
                                )
                                &&& r.0.spec_change() == spec_change_merge(
                                    out.0.spec_change(),
                                    wr.0.spec_change(),
                                )
                                &&& r.0.spec_consumed() == wr.0.spec_consumed()
                                &&& r.1 == wr.1
                            }
                    }
                }
        } else {
            // The widget runs first; the handler only sees what it left
            // unconsumed.
            exists|wr: (EventResponse, Key<T>)|
                {
                    &&& #[trigger] self.spec_widget().spec_handle(event, data, post.spec_widget(), wr)
                    &&& if wr.0.spec_consumed() {
                        r == wr
                    } else {
                        exists|out: (EventResponse, Key<T>)|
                            {
                                &&& #[trigger] call_ensures(self.spec_listener(), (event, wr.1), out)
                                &&& r.0.spec_change() == spec_change_merge(
                                    wr.0.spec_change(),
                                    out.0.spec_change(),
                                )
                                &&& r.0.spec_consumed() == out.0.spec_consumed()
                                &&& r.1 == out.1
                            }
                    }
                }
        }
    }

    open spec fn spec_traverse(&self, post: Self, took: bool) -> bool {
        &&& self.spec_widget().spec_traverse(post.spec_widget(), took)
        &&& post.spec_listener() == self.spec_listener()
        &&& post.spec_filter() == self.spec_filter()
    }

    fn draw(
        &mut self,
        painter: &mut Painter,
        size: Size,
        dirty_rect: Rect,
        context: &mut WidgetContext,
        data: &T,
    ) {
        self.widget.draw(painter, size, dirty_rect, context, data)
    }

    fn handle_event(&mut self, event: Event, context: &mut WidgetContext, data: Key<T>) -> (r: (
        EventResponse,
        Key<T>,
    )) {
        let ghost in_event = event;
        let ghost in_data = data;
        let result: (EventResponse, Key<T>);
        if self.filter {
            let (response, hdata) = (self.listener)(event.duplicate(), data);
            let ghost out = (response, hdata);
            proof {
                assert(call_ensures(old(self).spec_listener(), (in_event, in_data), out));
            }
            if response.is_present() {
                let (r2, d2) = self.widget.handle_event(event, context, hdata);
                let ghost gwr = (r2, d2);
                proof {
                    assert(old(self).spec_widget().spec_handle(
                        in_event,
                        out.1,
                        self.spec_widget(),
                        gwr,
                    ));
                }
                result = (response.merge(r2), d2);
            } else {
                result = (response, hdata);
            }
        } else {
            let (response, wdata) = self.widget.handle_event(event.duplicate(), context, data);
            let ghost gwr = (response, wdata);
            proof {
                assert(old(self).spec_widget().spec_handle(
                    in_event,
                    in_data,
                    self.spec_widget(),
                    gwr,
                ));
            }
            if response.is_present() {
                let (r2, d2) = (self.listener)(event, wdata);
                let ghost out = (r2, d2);
                proof {
                    assert(call_ensures(old(self).spec_listener(), (in_event, gwr.1), out));
                }
                result = (response.merge(r2), d2);
            } else {
                result = (response, wdata);
            }
        }
        proof {
            assert(old(self).spec_handle(in_event, in_data, *self, result));
        }
        result
    }

    fn get_pref_size(&mut self, context: &mut WidgetContext, data: &T) -> (r: PrefSize) {
        self.widget.get_pref_size(context, data)
    }

    fn layout(&mut self, size: Size, context: &mut WidgetContext, data: &T) {
        self.widget.layout(size, context, data)
    }

    fn build(&mut self, context: &mut WidgetContext) {
        self.widget.build(context)
    }

    fn traverse_focus(&mut self, context: &mut WidgetContext) -> (r: bool) {
        self.widget.traverse_focus(context)
    }

    fn update(&mut self, new: &T, old_data: Option<&T>) -> (r: Change) {
        self.widget.update(new, old_data)
    }
}

/// Turns a press and a release inside the same widget into one click:
/// the press arms it, leaving the widget resets it, and the release
/// fires the handler exactly once while armed.
pub struct ClickListener<W, F> {
    widget: W,
    listener: F,
    pressed: bool,
}

impl<W, F> ClickListener<W, F> {
    /// The wrapped widget.
    pub closed spec fn spec_widget(&self) -> W {
        self.widget
    }

    /// The click handler.
    pub closed spec fn spec_listener(&self) -> F {
        self.listener
    }

    /// Whether a press is waiting for its release.
    pub closed spec fn spec_pressed(&self) -> bool {
        self.pressed
    }
}

/// Wraps `widget` so that `listener` fires once per completed click.
pub fn click_listener<T, W: Widget<T>, F: Fn(MouseEvent, Key<T>) -> Key<T>>(
    widget: W,
    listener: F,
) -> (r: ClickListener<W, F>)
    requires
        widget.inv(),
        spec_total_click::<T, F>(listener),
    ensures
        r.spec_widget() == widget,
        r.spec_listener() == listener,
        !r.spec_pressed(),
{
    ClickListener { widget, listener, pressed: false }
}

impl<T, W: Widget<T>, F: Fn(MouseEvent, Key<T>) -> Key<T>> Widget<T> for ClickListener<W, F> {
    open spec fn inv(&self) -> bool {
        self.spec_widget().inv() && spec_total_click::<T, F>(self.spec_listener())
    }

    open spec fn spec_handle(&self, event: Event, data: Key<T>, post: Self, r: (
        EventResponse,
        Key<T>,
    )) -> bool {
        &&& post.spec_listener() == self.spec_listener()
        &&& exists|wr: (EventResponse, Key<T>)|
            {
                &&& #[trigger] self.spec_widget().spec_handle(event, data, post.spec_widget(), wr)
                &&& if wr.0.spec_consumed() {
                    // The wrapped widget consumed the event before the
                    // click logic could see it.
                    &&& post.spec_pressed() == self.spec_pressed()
                    &&& r == wr
                } else {
                    match event {
                        Event::MouseDown(_) => {
                            // A press arms the listener and is consumed.
                            &&& post.spec_pressed()
                            &&& r.0.spec_change() == wr.0.spec_change()
                            &&& r.0.spec_consumed()
                            &&& r.1 == wr.1
                        },
                        Event::MouseExit => {
                            // Leaving the widget disarms it.
                            &&& !post.spec_pressed()
                            &&& r == wr
                        },
                        Event::MouseUp(me) => if self.spec_pressed() {
                            // The armed release: the handler ran exactly
                            // once, on this event and the key the widget
                            // handed back; the click is consumed and
                            // disarmed.
                            &&& !post.spec_pressed()
                            &&& r.0.spec_change() == wr.0.spec_change()
                            &&& r.0.spec_consumed()
                            &&& call_ensures(self.spec_listener(), (me, wr.1), r.1)
                        } else {
                            &&& post.spec_pressed() == self.spec_pressed()
                            &&& r == wr
                        },
                        _ => {
                            &&& post.spec_pressed() == self.spec_pressed()
                            &&& r == wr
                        },
                    }
                }
            }
    }

    open spec fn spec_traverse(&self, post: Self, took: bool) -> bool {
        &&& self.spec_widget().spec_traverse(post.spec_widget(), took)
        &&& post.spec_listener() == self.spec_listener()
        &&& post.spec_pressed() == self.spec_pressed()
    }

    fn draw(
        &mut self,
        painter: &mut Painter,
        size: Size,
        dirty_rect: Rect,
        context: &mut WidgetContext,
        data: &T,
    ) {
        self.widget.draw(painter, size, dirty_rect, context, data)
    }

    fn handle_event(&mut self, event: Event, context: &mut WidgetContext, data: Key<T>) -> (r: (
        EventResponse,
        Key<T>,
    )) {
        let ghost in_event = event;
        let ghost in_data = data;
        let (mut response, mut kdata) = self.widget.handle_event(event.duplicate(), context, data);
        let ghost gwr = (response, kdata);
        proof {
            assert(old(self).spec_widget().spec_handle(in_event, in_data, self.spec_widget(), gwr));
        }
        if response.is_present() {
            match &event {
                Event::MouseDown(_) => {
                    self.pressed = true;
                    response = response.merge(EventResponse::deleted());
                },
                Event::MouseExit => {
                    self.pressed = false;
                },
                Event::MouseUp(me) => {
                    if self.pressed {
                        self.pressed = false;
                        kdata = (self.listener)(*me, kdata);
                        response = response.merge(EventResponse::deleted());
                    }
                },
                _ => {},
            }
        }
        let result = (response, kdata);
        proof {
            assert(old(self).spec_widget().spec_handle(in_event, in_data, self.spec_widget(), gwr));
            assert(old(self).spec_handle(in_event, in_data, *self, result));
        }
        result
    }

    fn get_pref_size(&mut self, context: &mut WidgetContext, data: &T) -> (r: PrefSize) {
        self.widget.get_pref_size(context, data)
    }

    fn layout(&mut self, size: Size, context: &mut WidgetContext, data: &T) {
        self.widget.layout(size, context, data)
    }

    fn build(&mut self, context: &mut WidgetContext) {
        self.widget.build(context)
    }

    fn traverse_focus(&mut self, context: &mut WidgetContext) -> (r: bool) {
        self.widget.traverse_focus(context)
    }

    fn update(&mut self, new: &T, old_data: Option<&T>) -> (r: Change) {
        self.widget.update(new, old_data)
    }
}

/// Law: around a widget that ignores events, a press arms the click
/// listener and is consumed; the release that follows, with no exit in
/// between, fires the handler exactly once — on the release event and
/// the key as the press left it — consumes the release and disarms the
/// listener.
pub proof fn lemma_click_press_then_release<T, F: Fn(MouseEvent, Key<T>) -> Key<T>>(
    c0: ClickListener<Empty, F>,
    e1: MouseEvent,
    d0: Key<T>,
    c1: ClickListener<Empty, F>,
    r1: (EventResponse, Key<T>),
    e2: MouseEvent,
    c2: ClickListener<Empty, F>,
    r2: (EventResponse, Key<T>),
)
    requires
        c0.spec_handle(Event::MouseDown(e1), d0, c1, r1),
        c1.spec_handle(Event::MouseUp(e2), r1.1, c2, r2),
    ensures
        r1.0.spec_consumed(),
        r1.0.spec_change() is Nothing,
        r1.1 == d0,
        c1.spec_pressed(),
        r2.0.spec_consumed(),
        r2.0.spec_change() is Nothing,
        !c2.spec_pressed(),
        call_ensures(c0.spec_listener(), (e2, d0), r2.1),
{
}

/// Law: an exit between the press and the release disarms the listener;
/// the release is then handed back untouched — unconsumed, with nothing
/// changed, the key as it came — and the handler never ran on it.
pub proof fn lemma_click_exit_disarms<T, F: Fn(MouseEvent, Key<T>) -> Key<T>>(
    c0: ClickListener<Empty, F>,
    e1: MouseEvent,
    d0: Key<T>,
    c1: ClickListener<Empty, F>,
    r1: (EventResponse, Key<T>),
    c2: ClickListener<Empty, F>,
    r2: (EventResponse, Key<T>),
    e3: MouseEvent,
    c3: ClickListener<Empty, F>,
    r3: (EventResponse, Key<T>),
)
    requires
        c0.spec_handle(Event::MouseDown(e1), d0, c1, r1),
        c1.spec_handle(Event::MouseExit, r1.1, c2, r2),
        c2.spec_handle(Event::MouseUp(e3), r2.1, c3, r3),
    ensures
        !c2.spec_pressed(),
        r2.1 == d0,
        !r3.0.spec_consumed(),
        r3.0.spec_change() is Nothing,
        r3.1 == d0,
        c3.spec_pressed() == c2.spec_pressed(),
{
}

} // verus!
