//! Wrapping decorators: a wrapper paints behind exactly one child,
//! insets it by a padding, and may react to events of its own; plus the
//! size-preference override and the two-layer stack.

use vstd::prelude::*;
use crate::geom::{Size, Rect, Vec2, spec_clamp, spec_sat_add};
use crate::size::{PrefSize, Grow2, spec_size_max, spec_size_min};
use crate::event::{Event, EventResponse, Change, spec_change_merge};
use crate::paint::Painter;
use crate::context::WidgetContext;
use crate::state::Key;
use crate::widget::Widget;

verus! {

/// What a wrapper reports after handling an event of its own.
#[derive(Clone, Copy, PartialEq, Eq, Structural, Debug)]
pub enum WrapperResponse {
    Unchanged,
    Changed,
    Deleted,
    Consumed,
}

impl WrapperResponse {
    /// Whether the wrapper's painted content changed.
    pub fn content_change(&self) -> (r: bool)
        ensures
            r == (*self is Changed || *self is Consumed),
    {
        match self {
            WrapperResponse::Changed | WrapperResponse::Consumed => true,
            _ => false,
        }
    }

    /// Whether the wrapper consumed the event.
    pub fn consumed(&self) -> (r: bool)
        ensures
            r == (*self is Deleted || *self is Consumed),
    {
        match self {
            WrapperResponse::Deleted | WrapperResponse::Consumed => true,
            _ => false,
        }
    }

    /// The equivalent widget response over a content of `content_size`.
    pub fn to_event_response(&self, content_size: Size) -> (r: EventResponse)
        requires
            content_size.wf(),
        ensures
            r.wf(),
            r.spec_consumed() == spec_wrap_consumed(*self),
            r.spec_change() == spec_wrap_change(*self, content_size),
    {
        if self.content_change() {
            EventResponse::changed(content_size, self.consumed())
        } else {
            EventResponse::unchanged(self.consumed())
        }
    }
}

/// Whether a wrapper response consumes the event.
pub open spec fn spec_wrap_consumed(r: WrapperResponse) -> bool {
    r is Deleted || r is Consumed
}

/// The widget-level change a wrapper response reports over an area of
/// `outer`: the whole area when its painted content changed, nothing
/// otherwise.
pub open spec fn spec_wrap_change(r: WrapperResponse, outer: Size) -> Change {
    if r is Changed || r is Consumed {
        Change::Content(Rect { x0: 0, y0: 0, x1: outer.width, y1: outer.height })
    } else {
        Change::Nothing
    }
}

/// Componentwise saturating sum of two sizes, at the spec level.
pub open spec fn spec_size_sat_add(a: Size, b: Size) -> Size {
    Size {
        width: spec_sat_add(a.width as int, b.width as int) as i64,
        height: spec_sat_add(a.height as int, b.height as int) as i64,
    }
}

/// The decoration around a wrapped widget: it draws before (behind) the
/// child and may claim padding around it.
pub trait Wrapper: Sized {
    /// The wrapper's structural invariant.
    spec fn inv(&self) -> bool;

    /// The exact relation `handle_event` establishes between the
    /// wrapper before the call, the event, the wrapper after the call
    /// and its response; each wrapper defines it over its own fields.
    spec fn spec_handle(&self, event: Event, post: Self, r: WrapperResponse) -> bool;

    /// The inset between the wrapper's top-left corner and the child.
    spec fn spec_lt(&self) -> Size;

    /// The inset between the child and the bottom-right corner.
    spec fn spec_rb(&self) -> Size;

    /// Draws the decoration; the child paints on top afterwards.
    fn draw(&self, painter: &mut Painter, size: Size, dirty_rect: Rect)
        requires
            self.inv(),
            size.wf(),
            dirty_rect.wf(),
            old(painter).wf(),
        ensures
            final(painter).wf(),
            final(painter).offset == old(painter).offset,
            final(painter).saved@ == old(painter).saved@,
            final(painter).cmds@.len() >= old(painter).cmds@.len(),
            forall|i: int|
                0 <= i < old(painter).cmds@.len() ==> (#[trigger] final(painter).cmds@[i]) == old(
                    painter,
                ).cmds@[i],
    ;

    /// Handles an event the wrapped child left unconsumed.
    fn handle_event(&mut self, event: &Event) -> (r: WrapperResponse)
        requires
            old(self).inv(),
            event.wf(),
        ensures
            final(self).inv(),
            old(self).spec_handle(*event, *final(self), r),
    ;

    /// The inset between the wrapper's top-left corner and the child.
    fn get_left_top_padding(&self) -> (r: Size)
        requires
            self.inv(),
        ensures
            r == self.spec_lt(),
            r.wf(),
    ;

    /// The inset between the child and the bottom-right corner.
    fn get_right_bottom_padding(&self) -> (r: Size)
        requires
            self.inv(),
        ensures
            r == self.spec_rb(),
            r.wf(),
    ;

    /// Both insets together.
    fn get_full_padding(&self) -> (r: Size)
        requires
            self.inv(),
        ensures
            r == spec_full_padding(self.spec_lt(), self.spec_rb()),
            r.wf(),
    {
        let lt = self.get_left_top_padding();
        let rb = self.get_right_bottom_padding();
        lt.add(rb)
    }
}

/// The total inset of a wrapper: the saturating componentwise sum of its
/// two corner insets.
pub open spec fn spec_full_padding(lt: Size, rb: Size) -> Size {
    spec_size_sat_add(lt, rb)
}

/// A fixed inset on all four sides.
#[derive(Clone, Copy, PartialEq, Eq, Structural, Debug)]
pub struct Padding(pub Size, pub Size);

impl Padding {
    /// Insets from each side: left, top, right, bottom.
    pub fn new(x: i64, y: i64, width: i64, height: i64) -> (r: Padding)
        requires
            0 <= x && 0 <= y && 0 <= width && 0 <= height,
            x <= 0x2000_0000_0000_0000 && y <= 0x2000_0000_0000_0000,
            width <= 0x2000_0000_0000_0000 && height <= 0x2000_0000_0000_0000,
        ensures
            r.0 == (Size { width: x, height: y }),
            r.1 == (Size { width, height }),
            r.inv(),
    {
        Padding(Size::new(x, y), Size::new(width, height))
    }

    /// The same inset on every side.
    pub fn equal(amount: i64) -> (r: Padding)
        requires
            0 <= amount <= 0x2000_0000_0000_0000,
        ensures
            r.0 == (Size { width: amount, height: amount }),
            r.1 == r.0,
            r.inv(),
    {
        Padding(Size::new(amount, amount), Size::new(amount, amount))
    }

    /// The same inset at both corners.
    pub fn from_size(size: Size) -> (r: Padding)
        requires
            size.wf(),
        ensures
            r.0 == size && r.1 == size,
            r.inv(),
    {
        Padding(size, size)
    }
}

impl Wrapper for Padding {
    open spec fn inv(&self) -> bool {
        self.0.wf() && self.1.wf()
    }

    open spec fn spec_handle(&self, event: Event, post: Self, r: WrapperResponse) -> bool {
        post == *self && r == WrapperResponse::Unchanged
    }

    open spec fn spec_lt(&self) -> Size {
        self.0
    }

    open spec fn spec_rb(&self) -> Size {
        self.1
    }

    fn draw(&self, painter: &mut Painter, size: Size, dirty_rect: Rect) {
    }

    fn handle_event(&mut self, event: &Event) -> (r: WrapperResponse) {
        WrapperResponse::Unchanged
    }

    fn get_left_top_padding(&self) -> (r: Size) {
        self.0
    }

    fn get_right_bottom_padding(&self) -> (r: Size) {
        self.1
    }
}

/// One widget decorated by one wrapper. The wrapper paints first, the
/// child is shifted in by the top-left padding, and events the child
/// leaves unconsumed reach the wrapper; a wrapper whose padding changes
/// forces an ancestor relayout instead of a local repaint.
pub struct WrapperWidget<U, W> {
    wrapped_widget: W,
    wrapper: U,
    shift: Size,
    padding: Size,
    content_size: Size,
}

impl<U: Wrapper, W> WrapperWidget<U, W> {
    /// The cached insets and content size stay within range.
    pub closed spec fn spec_parts_wf(&self) -> bool {
        self.shift.wf() && self.padding.wf() && self.content_size.wf()
    }

    /// Decorates `wrapped_widget` with `wrapper`.
    pub fn new(wrapper: U, wrapped_widget: W) -> (r: WrapperWidget<U, W>)
        requires
            wrapper.inv(),
        ensures
            r.spec_parts_wf(),
            r.spec_wrapper() == wrapper,
            r.spec_wrapped() == wrapped_widget,
    {
        let shift = wrapper.get_left_top_padding();
        let padding = shift.add(wrapper.get_right_bottom_padding());
        WrapperWidget { wrapped_widget, wrapper, shift, padding, content_size: Size::zero() }
    }

    /// The wrapper.
    pub closed spec fn spec_wrapper(&self) -> U {
        self.wrapper
    }

    /// The cached top-left inset the child is shifted by.
    pub closed spec fn spec_shift(&self) -> Size {
        self.shift
    }

    /// The cached total padding around the child.
    pub closed spec fn spec_padding(&self) -> Size {
        self.padding
    }

    /// The size the child was last laid out at.
    pub closed spec fn spec_content_size(&self) -> Size {
        self.content_size
    }

    /// The wrapped widget.
    pub closed spec fn spec_wrapped(&self) -> W {
        self.wrapped_widget
    }
}

/// The wrapped child's part of a wrapper widget's event handling: when
/// the event, shifted into the padded area, still falls inside the
/// content, the child handles the shifted event first and its change is
/// shifted back out; an event outside the content never reaches it.
pub open spec fn spec_wrapped_phase<T, U: Wrapper, W: Widget<T>>(
    pre: WrapperWidget<U, W>,
    event: Event,
    data: Key<T>,
    wpost: W,
    ch: Change,
    co: bool,
    d1: Key<T>,
) -> bool {
    let sv = Vec2 { x: pre.spec_shift().width, y: pre.spec_shift().height };
    if event.spec_shift_fits(sv, pre.spec_content_size()) {
        exists|wr: (EventResponse, Key<T>)|
            {
                &&& #[trigger] pre.spec_wrapped().spec_handle(event.spec_shift(sv), data, wpost, wr)
                &&& ch == wr.0.spec_change().spec_shift(sv)
                &&& co == wr.0.spec_consumed()
                &&& d1 == wr.1
            }
    } else {
        &&& wpost == pre.spec_wrapped()
        &&& ch is Nothing
        &&& !co
        &&& d1 == data
    }
}

impl<T, U: Wrapper, W: Widget<T>> Widget<T> for WrapperWidget<U, W> {
    open spec fn inv(&self) -> bool {
        self.spec_parts_wf() && self.spec_wrapper().inv() && self.spec_wrapped().inv()
    }

    open spec fn spec_handle(&self, event: Event, data: Key<T>, post: Self, r: (
        EventResponse,
        Key<T>,
    )) -> bool {
        &&& post.spec_content_size() == self.spec_content_size()
        &&& exists|ch: Change, co: bool, d1: Key<T>|
            {
                &&& #[trigger] spec_wrapped_phase(*self, event, data, post.spec_wrapped(), ch, co, d1)
                &&& r.1 == d1
                &&& if co {
                    // The child consumed the event: the wrapper never ran.
                    &&& post.spec_wrapper() == self.spec_wrapper()
                    &&& post.spec_shift() == self.spec_shift()
                    &&& post.spec_padding() == self.spec_padding()
                    &&& r.0.spec_change() == ch
                    &&& r.0.spec_consumed()
                } else {
                    exists|wres: WrapperResponse|
                        {
                            &&& #[trigger] self.spec_wrapper().spec_handle(
                                event,
                                post.spec_wrapper(),
                                wres,
                            )
                            &&& {
                                let lt = post.spec_wrapper().spec_lt();
                                let full = spec_full_padding(lt, post.spec_wrapper().spec_rb());
                                if self.spec_shift() == lt && self.spec_padding() == full {
                                    // Stable padding: the wrapper's own change
                                    // covers the full wrapped area.
                                    &&& post.spec_shift() == self.spec_shift()
                                    &&& post.spec_padding() == self.spec_padding()
                                    &&& r.0.spec_change() == spec_change_merge(
                                        ch,
                                        spec_wrap_change(
                                            wres,
                                            spec_size_sat_add(
                                                self.spec_content_size(),
                                                self.spec_padding(),
                                            ),
                                        ),
                                    )
                                    &&& r.0.spec_consumed() == spec_wrap_consumed(wres)
                                } else {
                                    // The padding moved: the caches follow it
                                    // and the ancestors must re-run layout.
                                    &&& post.spec_shift() == lt
                                    &&& post.spec_padding() == full
                                    &&& r.0.spec_change() is Bounds
                                    &&& r.0.spec_consumed() == spec_wrap_consumed(wres)
                                }
                            }
                        }
                }
            }
    }

    open spec fn spec_traverse(&self, post: Self, took: bool) -> bool {
        &&& self.spec_wrapped().spec_traverse(post.spec_wrapped(), took)
        &&& post.spec_wrapper() == self.spec_wrapper()
        &&& post.spec_shift() == self.spec_shift()
        &&& post.spec_padding() == self.spec_padding()
        &&& post.spec_content_size() == self.spec_content_size()
    }

    fn draw(
        &mut self,
        painter: &mut Painter,
        size: Size,
        dirty_rect: Rect,
        context: &mut WidgetContext,
        data: &T,
    ) {
        self.wrapper.draw(painter, size, dirty_rect);
        let inner_size = size.sub_clamped(self.padding);
        let shift_v = self.shift.to_vec2();
        painter.save();
        painter.translate(shift_v);
        let mut cctx = context.child(shift_v, inner_size);
        self.wrapped_widget.draw(painter, inner_size, dirty_rect, &mut cctx, data);
        context.absorb(cctx);
        painter.restore();
    }

    fn handle_event(&mut self, event: Event, context: &mut WidgetContext, data: Key<T>) -> (r: (
        EventResponse,
        Key<T>,
    ))
        ensures
            final(self).spec_content_size() == old(self).spec_content_size(),
            (final(self).spec_shift() != old(self).spec_shift() || final(self).spec_padding()
                != old(self).spec_padding()) ==> r.0.spec_change() is Bounds,
    {
        let ghost data0 = data;
        let mut data = data;
        let shift_v = self.shift.to_vec2();
        let mut client_event = event.duplicate();
        let fits = client_event.shift(shift_v, self.content_size);
        let mut response;
        if fits {
            let mut cctx = context.child(shift_v, self.content_size);
            let (r2, d2) = self.wrapped_widget.handle_event(client_event, &mut cctx, data);
            let ghost gwr = (r2, d2);
            context.absorb(cctx);
            data = d2;
            response = r2.shift(shift_v);
            proof {
                assert(old(self).spec_wrapped().spec_handle(
                    event.spec_shift(
                        Vec2 { x: old(self).spec_shift().width, y: old(self).spec_shift().height },
                    ),
                    data0,
                    self.wrapped_widget,
                    gwr,
                ));
            }
        } else {
            response = EventResponse::unchanged(false);
        }
        let ghost g_ch = response.spec_change();
        let ghost g_co = response.spec_consumed();
        let ghost g_d1 = data;
        let ghost g_wrapped = self.wrapped_widget;
        proof {
            assert(spec_wrapped_phase(*old(self), event, data0, g_wrapped, g_ch, g_co, g_d1));
        }
        let ghost mut g_wres = WrapperResponse::Unchanged;
        if response.is_present() {
            let response2 = self.wrapper.handle_event(&event);
            proof {
                g_wres = response2;
            }
            let lt = self.wrapper.get_left_top_padding();
            let full = self.wrapper.get_full_padding();
            proof {
                assert(old(self).spec_wrapper().spec_handle(event, self.spec_wrapper(), g_wres));
            }
            if self.shift == lt && self.padding == full {
                let outer = self.content_size.add(self.padding);
                response = response.merge(response2.to_event_response(outer));
            } else {
                self.shift = lt;
                self.padding = full;
                response = response.merge(EventResponse::bounds_changed(response2.consumed()));
            }
        }
        let result = (response, data);
        proof {
            assert(spec_wrapped_phase(*old(self), event, data0, self.spec_wrapped(), g_ch, g_co, g_d1));
            if !g_co {
                assert(old(self).spec_wrapper().spec_handle(event, self.spec_wrapper(), g_wres));
            }
            assert(old(self).spec_handle(event, data0, *self, result));
        }
        result
    }

    fn get_pref_size(&mut self, context: &mut WidgetContext, data: &T) -> (r: PrefSize) {
        let mut pref = self.wrapped_widget.get_pref_size(context, data);
        pref.resize(self.padding);
        pref
    }

    fn layout(&mut self, size: Size, context: &mut WidgetContext, data: &T)
        ensures
            final(self).spec_shift() == old(self).spec_shift(),
            final(self).spec_padding() == old(self).spec_padding(),
            final(self).spec_content_size().width as int == if size.width - old(
                self,
            ).spec_padding().width >= 0 {
                size.width - old(self).spec_padding().width
            } else {
                0
            },
            final(self).spec_content_size().height as int == if size.height - old(
                self,
            ).spec_padding().height >= 0 {
                size.height - old(self).spec_padding().height
            } else {
                0
            },
    {
        self.content_size = size.sub_clamped(self.padding);
        let shift_v = self.shift.to_vec2();
        let csize = self.content_size;
        let mut cctx = context.child(shift_v, csize);
        self.wrapped_widget.layout(csize, &mut cctx, data);
        context.absorb(cctx);
    }

    fn build(&mut self, context: &mut WidgetContext) {
        self.wrapped_widget.build(context)
    }

    fn traverse_focus(&mut self, context: &mut WidgetContext) -> (r: bool) {
        self.wrapped_widget.traverse_focus(context)
    }

    fn update(&mut self, new: &T, old_data: Option<&T>) -> (r: Change) {
        self.wrapped_widget.update(new, old_data)
    }
}

/// The override fold applied to a child's reported preference `child`
/// under the stored preference `p`: an optional minimum floor, then one
/// of the three policies — restrict clamps the maximum (and growth)
/// down, loosen raises them, and replacement takes the stored maximum
/// and growth wholesale; each policy re-establishes `min <= max`.
pub open spec fn spec_override(
    child: PrefSize,
    p: PrefSize,
    restrict: bool,
    loosen: bool,
    set_min: bool,
) -> PrefSize {
    let base = if set_min {
        PrefSize { min: spec_size_max(child.min, p.min), ..child }
    } else {
        child
    };
    if restrict {
        let capped = PrefSize { max: spec_size_min(base.max, p.max), ..base };
        let ordered = PrefSize { max: spec_size_max(capped.max, capped.min), ..capped };
        PrefSize {
            grow: Grow2 {
                x: ordered.grow.x.spec_min(p.grow.x),
                y: ordered.grow.y.spec_min(p.grow.y),
            },
            ..ordered
        }
    } else if loosen {
        let raised = PrefSize { max: spec_size_max(base.max, p.max), ..base };
        PrefSize {
            grow: Grow2 {
                x: raised.grow.x.spec_max(p.grow.x),
                y: raised.grow.y.spec_max(p.grow.y),
            },
            ..raised
        }
    } else {
        let replaced = PrefSize { max: p.max, ..base };
        let ordered = PrefSize { max: spec_size_max(replaced.max, replaced.min), ..replaced };
        PrefSize { grow: p.grow, ..ordered }
    }
}

/// Overrides the wrapped widget's reported size preference under one of
/// three policies: restrict (clamp down), loosen (clamp up), or replace.
pub struct PrefSizeWrapper<W> {
    widget: W,
    pref_size: PrefSize,
    restrict: bool,
    loosen: bool,
    set_min_size: bool,
}

impl<W> PrefSizeWrapper<W> {
    /// The override preference.
    pub closed spec fn spec_pref(&self) -> PrefSize {
        self.pref_size
    }

    /// The wrapped widget.
    pub closed spec fn spec_widget(&self) -> W {
        self.widget
    }

    /// Whether the restrict policy is active.
    pub closed spec fn spec_restrict(&self) -> bool {
        self.restrict
    }

    /// Whether the loosen policy is active.
    pub closed spec fn spec_loosen(&self) -> bool {
        self.loosen
    }

    /// Whether the minimum floor is active.
    pub closed spec fn spec_set_min(&self) -> bool {
        self.set_min_size
    }

    /// Wraps `widget` with an override under the given policy flags.
    pub fn new(widget: W, pref_size: PrefSize, restrict: bool, loosen: bool, set_min_size: bool) -> (r: PrefSizeWrapper<W>)
        requires
            pref_size.normalized(),
        ensures
            r.spec_pref() == pref_size,
            r.spec_widget() == widget,
            r.spec_pref().normalized(),
    {
        PrefSizeWrapper { widget, pref_size, restrict, loosen, set_min_size }
    }
}

impl<T, W: Widget<T>> Widget<T> for PrefSizeWrapper<W> {
    open spec fn inv(&self) -> bool {
        self.spec_widget().inv() && self.spec_pref().normalized()
    }

    open spec fn spec_handle(&self, event: Event, data: Key<T>, post: Self, r: (
        EventResponse,
        Key<T>,
    )) -> bool {
        &&& self.spec_widget().spec_handle(event, data, post.spec_widget(), r)
        &&& post.spec_pref() == self.spec_pref()
        &&& post.spec_restrict() == self.spec_restrict()
        &&& post.spec_loosen() == self.spec_loosen()
        &&& post.spec_set_min() == self.spec_set_min()
    }

    open spec fn spec_traverse(&self, post: Self, took: bool) -> bool {
        &&& self.spec_widget().spec_traverse(post.spec_widget(), took)
        &&& post.spec_pref() == self.spec_pref()
        &&& post.spec_restrict() == self.spec_restrict()
        &&& post.spec_loosen() == self.spec_loosen()
        &&& post.spec_set_min() == self.spec_set_min()
    }

    fn draw(
        &mut self,
        painter: &mut Painter,
        size: Size,
        dirty_rect: Rect,
        context: &mut WidgetContext,
        data: &T,
    ) {
        self.widget.draw(painter, size, dirty_rect, context, data)
    }

    fn handle_event(&mut self, event: Event, context: &mut WidgetContext, data: Key<T>) -> (r: (
        EventResponse,
        Key<T>,
    )) {
        self.widget.handle_event(event, context, data)
    }

    fn get_pref_size(&mut self, context: &mut WidgetContext, data: &T) -> (r: PrefSize)
        ensures
            final(self).spec_pref() == old(self).spec_pref(),
            final(self).spec_restrict() == old(self).spec_restrict(),
            final(self).spec_loosen() == old(self).spec_loosen(),
            final(self).spec_set_min() == old(self).spec_set_min(),
            exists|c: PrefSize|
                c.normalized() && r == spec_override(
                    c,
                    old(self).spec_pref(),
                    old(self).spec_restrict(),
                    old(self).spec_loosen(),
                    old(self).spec_set_min(),
                ),
    {
        let mut pref_size = self.widget.get_pref_size(context, data);
        let ghost child = pref_size;

        if self.set_min_size {
            pref_size.max_min_size(self.pref_size.min);
        }

        if self.restrict {
            pref_size.min_max_size(self.pref_size.max);
            let min = pref_size.min;
            pref_size.max_max_size(min);
            pref_size.min_grow(self.pref_size.grow);
        } else if self.loosen {
            pref_size.max_max_size(self.pref_size.max);
            pref_size.max_grow(self.pref_size.grow);
        } else {
            pref_size.max = self.pref_size.max;
            let min = pref_size.min;
            pref_size.max_max_size(min);
            pref_size.grow = self.pref_size.grow;
        }

        proof {
            assert(pref_size == spec_override(
                child,
                self.spec_pref(),
                self.spec_restrict(),
                self.spec_loosen(),
                self.spec_set_min(),
            ));
        }
        pref_size
    }

    fn layout(&mut self, size: Size, context: &mut WidgetContext, data: &T) {
        self.widget.layout(size, context, data)
    }

    fn build(&mut self, context: &mut WidgetContext) {
        self.widget.build(context)
    }

    fn traverse_focus(&mut self, context: &mut WidgetContext) -> (r: bool) {
        self.widget.traverse_focus(context)
    }

    fn update(&mut self, new: &T, old_data: Option<&T>) -> (r: Change) {
        self.widget.update(new, old_data)
    }
}

/// Which of the two stacked layers holds focus.
#[derive(Clone, Copy, PartialEq, Eq, Structural, Debug)]
pub enum AB {
    A,
    B,
}

/// Two widgets over the same area: `widget_top` paints last and sees
/// events first.
pub struct Stacked<A, B> {
    widget_top: A,
    widget_bottom: B,
    focus: Option<AB>,
    mouse_focus: Option<AB>,
}

/// Stacks `widget_top` over `widget_bottom`: the top layer paints last
/// and sees events first; neither layer holds focus yet.
pub fn statcked<A, B>(widget_top: A, widget_bottom: B) -> (r: Stacked<A, B>)
    ensures
        r.spec_top() == widget_top,
        r.spec_bottom() == widget_bottom,
        r.spec_focus() is None,
        r.spec_mouse_focus() is None,
{
    Stacked { widget_top, widget_bottom, focus: None, mouse_focus: None }
}

impl<A, B> Stacked<A, B> {
    /// The upper layer.
    pub closed spec fn spec_top(&self) -> A {
        self.widget_top
    }

    /// The lower layer.
    pub closed spec fn spec_bottom(&self) -> B {
        self.widget_bottom
    }

    /// Which layer holds keyboard focus.
    pub closed spec fn spec_focus(&self) -> Option<AB> {
        self.focus
    }

    /// Which layer holds the pointer.
    pub closed spec fn spec_mouse_focus(&self) -> Option<AB> {
        self.mouse_focus
    }
}

impl<T, A: Widget<T>, B: Widget<T>> Widget<T> for Stacked<A, B> {
    open spec fn inv(&self) -> bool {
        self.spec_top().inv() && self.spec_bottom().inv()
    }

    open spec fn spec_handle(&self, event: Event, data: Key<T>, post: Self, r: (
        EventResponse,
        Key<T>,
    )) -> bool {
        &&& post.spec_focus() == self.spec_focus()
        &&& post.spec_mouse_focus() == self.spec_mouse_focus()
        &&& exists|tr: (EventResponse, Key<T>)|
            {
                &&& #[trigger] self.spec_top().spec_handle(event, data, post.spec_top(), tr)
                &&& if tr.0.spec_consumed() {
                    // The top layer consumed the event: the bottom never saw it.
                    &&& post.spec_bottom() == self.spec_bottom()
                    &&& r == tr
                } else {
                    exists|br: (EventResponse, Key<T>)|
                        {
                            &&& #[trigger] self.spec_bottom().spec_handle(
                                event,
                                tr.1,
                                post.spec_bottom(),
                                br,
                            )
                            &&& r.0.spec_change() == spec_change_merge(
                                tr.0.spec_change(),
                                br.0.spec_change(),
                            )
                            &&& r.0.spec_consumed() == br.0.spec_consumed()
                            &&& r.1 == br.1
                        }
                }
            }
    }

    open spec fn spec_traverse(&self, post: Self, took: bool) -> bool {
        &&& post.spec_mouse_focus() == self.spec_mouse_focus()
        &&& if self.spec_focus() != Some(AB::B) {
            exists|t1: bool|
                {
                    &&& #[trigger] self.spec_top().spec_traverse(post.spec_top(), t1)
                    &&& if t1 {
                        &&& post.spec_bottom() == self.spec_bottom()
                        &&& post.spec_focus() == Some(AB::A)
                        &&& took
                    } else {
                        exists|t2: bool|
                            {
                                &&& #[trigger] self.spec_bottom().spec_traverse(
                                    post.spec_bottom(),
                                    t2,
                                )
                                &&& if t2 {
                                    post.spec_focus() == Some(AB::B) && took
                                } else {
                                    post.spec_focus() is None && !took
                                }
                            }
                    }
                }
        } else {
            &&& post.spec_top() == self.spec_top()
            &&& exists|t2: bool|
                {
                    &&& #[trigger] self.spec_bottom().spec_traverse(post.spec_bottom(), t2)
                    &&& if t2 {
                        post.spec_focus() == Some(AB::B) && took
                    } else {
                        post.spec_focus() is None && !took
                    }
                }
        }
    }

    fn draw(
        &mut self,
        painter: &mut Painter,
        size: Size,
        dirty_rect: Rect,
        context: &mut WidgetContext,
        data: &T,
    ) {
        painter.save();
        let mut cctx = context.child(Vec2::zero(), size);
        self.widget_bottom.draw(painter, size, dirty_rect, &mut cctx, data);
        context.absorb(cctx);
        painter.restore();
        self.widget_top.draw(painter, size, dirty_rect, context, data);
    }

    fn handle_event(&mut self, event: Event, context: &mut WidgetContext, data: Key<T>) -> (r: (
        EventResponse,
        Key<T>,
    ))
        ensures
            final(self).spec_focus() == old(self).spec_focus(),
            final(self).spec_mouse_focus() == old(self).spec_mouse_focus(),
    {
        let ghost data0 = data;
        let copy = event.duplicate();
        let (mut response, mut data) = self.widget_top.handle_event(copy, context, data);
        let ghost gtr = (response, data);
        proof {
            assert(old(self).spec_top().spec_handle(event, data0, self.widget_top, gtr));
        }
        if response.is_present() {
            let (r2, d2) = self.widget_bottom.handle_event(event, context, data);
            let ghost gbr = (r2, d2);
            proof {
                assert(old(self).spec_bottom().spec_handle(event, gtr.1, self.widget_bottom, gbr));
            }
            data = d2;
            response = response.merge(r2);
        }
        (response, data)
    }

    fn get_pref_size(&mut self, context: &mut WidgetContext, data: &T) -> (r: PrefSize) {
        let pref = self.widget_top.get_pref_size(context, data);
        let bottom = self.widget_bottom.get_pref_size(context, data);
        pref.stacked(bottom)
    }

    fn layout(&mut self, size: Size, context: &mut WidgetContext, data: &T) {
        self.widget_top.layout(size, context, data);
        self.widget_bottom.layout(size, context, data);
    }

    fn build(&mut self, context: &mut WidgetContext) {
        self.widget_top.build(context);
        self.widget_bottom.build(context);
    }

    fn traverse_focus(&mut self, context: &mut WidgetContext) -> (r: bool) {
        let at_a = match self.focus {
            None => true,
            Some(AB::A) => true,
            Some(AB::B) => false,
        };
        let ghost mut gt1 = false;
        if at_a {
            let t1 = self.widget_top.traverse_focus(context);
            proof {
                gt1 = t1;
                assert(old(self).spec_top().spec_traverse(self.spec_top(), t1));
            }
            if t1 {
                self.focus = Some(AB::A);
                proof {
                    assert(old(self).spec_top().spec_traverse(self.spec_top(), true));
                    assert(old(self).spec_traverse(*self, true));
                }
                return true;
            } else {
                self.focus = Some(AB::B);
            }
        }
        let t2 = self.widget_bottom.traverse_focus(context);
        proof {
            assert(old(self).spec_bottom().spec_traverse(self.spec_bottom(), t2));
            if at_a {
                assert(old(self).spec_top().spec_traverse(self.spec_top(), gt1));
            }
        }
        if t2 {
            proof {
                assert(old(self).spec_traverse(*self, true));
            }
            return true;
        }
        self.focus = None;
        proof {
            assert(old(self).spec_bottom().spec_traverse(self.spec_bottom(), t2));
            if at_a {
                assert(old(self).spec_top().spec_traverse(self.spec_top(), gt1));
            }
            assert(old(self).spec_traverse(*self, false));
        }
        false
    }

    fn update(&mut self, new: &T, old_data: Option<&T>) -> (r: Change) {
        let c1 = self.widget_top.update(new, old_data);
        let c2 = self.widget_bottom.update(new, old_data);
        c1.merge(c2)
    }
}

} // verus!
