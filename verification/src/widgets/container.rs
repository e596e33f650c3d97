//! The generic container: an ordered list of children placed by a
//! pluggable layout strategy. Children paint back to front; pointer
//! events are hit-tested against the placed rectangles, and the child
//! under the pointer receives synthesized enter and exit events before
//! the real one.

use vstd::prelude::*;
use core::marker::PhantomData;
use crate::geom::{Size, Rect, Vec2};
use crate::size::PrefSize;
use crate::event::{Event, EventResponse, Change, MouseEvent, spec_change_merge};
use crate::paint::Painter;
use crate::context::WidgetContext;
use crate::state::Key;
use crate::widget::Widget;
use crate::layout::{Layout, ChildMeta, prefs_of};

verus! {

/// A container of `W` children bound to data `T`, arranged by `L`.
pub struct Container<T, W, L: Layout> {
    widgets: Vec<W>,
    metas: Vec<ChildMeta<L::Meta>>,
    layout: L,
    mouse_focus: Option<u32>,
    focus: Option<u32>,
    _data: PhantomData<T>,
}

impl<T, W: Widget<T>, L: Layout> Container<T, W, L> {
    /// Children and their metadata stay aligned with the strategy's
    /// bookkeeping, and the focus indices stay in bounds.
    pub closed spec fn spec_inv(&self) -> bool {
        &&& self.widgets@.len() == self.metas@.len()
        &&& self.widgets@.len() < 0xFFFF_FFFF
        &&& self.layout.inv()
        &&& self.layout.count() == self.widgets@.len()
        &&& forall|i: int| 0 <= i < self.widgets@.len() ==> (#[trigger] self.widgets@[i]).inv()
        &&& forall|i: int| 0 <= i < self.metas@.len() ==> (#[trigger] self.metas@[i]).wf()
        &&& match self.mouse_focus {
            Some(i) => (i as int) < self.widgets@.len(),
            None => true,
        }
        &&& match self.focus {
            Some(i) => (i as int) < self.widgets@.len(),
            None => true,
        }
    }

    /// How many children the container holds.
    pub closed spec fn spec_len(&self) -> int {
        self.widgets@.len() as int
    }

    /// The per-child bookkeeping, in child order.
    pub closed spec fn spec_metas(&self) -> Seq<ChildMeta<L::Meta>> {
        self.metas@
    }

    /// The children themselves, in child order.
    pub closed spec fn spec_widgets(&self) -> Seq<W> {
        self.widgets@
    }

    /// The layout strategy.
    pub closed spec fn spec_strategy(&self) -> L {
        self.layout
    }

    /// Which child holds the pointer.
    pub closed spec fn spec_mouse_focus(&self) -> Option<u32> {
        self.mouse_focus
    }

    /// Which child holds keyboard focus.
    pub closed spec fn spec_focus(&self) -> Option<u32> {
        self.focus
    }

    /// Where child `i` was placed.
    pub closed spec fn spec_child_offset(&self, i: int) -> Vec2 {
        self.metas@[i].offset
    }

    /// The size child `i` was placed at.
    pub closed spec fn spec_child_size(&self, i: int) -> Size {
        self.metas@[i].size
    }

    /// Whether `pos` falls into child `i`'s placed rectangle.
    pub open spec fn spec_child_hit(&self, pos: Vec2, i: int) -> bool {
        (Rect {
            x0: self.spec_child_offset(i).x,
            y0: self.spec_child_offset(i).y,
            x1: crate::geom::spec_sat_add(
                self.spec_child_offset(i).x as int,
                self.spec_child_size(i).width as int,
            ) as i64,
            y1: crate::geom::spec_sat_add(
                self.spec_child_offset(i).y as int,
                self.spec_child_size(i).height as int,
            ) as i64,
        }).spec_contains(pos)
    }

    /// The topmost hit among the first `n` children.
    pub open spec fn spec_hit_before(&self, pos: Vec2, n: int) -> Option<u32>
        decreases n,
    {
        if n <= 0 {
            None
        } else if self.spec_child_hit(pos, n - 1) {
            Some((n - 1) as u32)
        } else {
            self.spec_hit_before(pos, n - 1)
        }
    }

    /// The child owning the pointer at `pos`: among the hits, the one
    /// with the highest index, since later children paint on top.
    pub open spec fn spec_topmost_hit(&self, pos: Vec2) -> Option<u32> {
        self.spec_hit_before(pos, self.spec_len())
    }

    /// Stage one of pointer routing: when the pointer's owner changes,
    /// the old holder receives `MouseExit` first, and its change comes
    /// back shifted into container coordinates.
    pub open spec fn spec_exit_stage(
        &self,
        hit: Option<u32>,
        data: Key<T>,
        ws1: Seq<W>,
        ch1: Change,
        co1: bool,
        d1: Key<T>,
    ) -> bool {
        match self.spec_mouse_focus() {
            Some(of) => if hit == Some(of) {
                ws1 == self.spec_widgets() && ch1 is Nothing && !co1 && d1 == data
            } else {
                exists|w1: W, rr: (EventResponse, Key<T>)|
                    {
                        &&& #[trigger] self.spec_widgets()[of as int].spec_handle(
                            Event::MouseExit,
                            data,
                            w1,
                            rr,
                        )
                        &&& ws1 == self.spec_widgets().update(of as int, w1)
                        &&& ch1 == rr.0.spec_change().spec_shift(self.spec_child_offset(of as int))
                        &&& co1 == rr.0.spec_consumed()
                        &&& d1 == rr.1
                    }
            },
            None => ws1 == self.spec_widgets() && ch1 is Nothing && !co1 && d1 == data,
        }
    }

    /// Stage two: the child gaining the pointer receives `MouseEnter`
    /// with the position moved into its own coordinates.
    pub open spec fn spec_enter_stage(
        &self,
        hit: Option<u32>,
        me: MouseEvent,
        ws1: Seq<W>,
        d1: Key<T>,
        ws2: Seq<W>,
        ch2: Change,
        co2: bool,
        d2: Key<T>,
    ) -> bool {
        match hit {
            Some(nf) => {
                let entering = match self.spec_mouse_focus() {
                    Some(f) => f != nf,
                    None => true,
                };
                if entering {
                    let off = self.spec_child_offset(nf as int);
                    exists|w2: W, rr: (EventResponse, Key<T>)|
                        {
                            &&& #[trigger] ws1[nf as int].spec_handle(
                                Event::MouseEnter(me).spec_shift(off),
                                d1,
                                w2,
                                rr,
                            )
                            &&& ws2 == ws1.update(nf as int, w2)
                            &&& ch2 == rr.0.spec_change().spec_shift(off)
                            &&& co2 == rr.0.spec_consumed()
                            &&& d2 == rr.1
                        }
                } else {
                    ws2 == ws1 && ch2 is Nothing && !co2 && d2 == d1
                }
            },
            None => ws2 == ws1 && ch2 is Nothing && !co2 && d2 == d1,
        }
    }

    /// Stage three: the hit child receives the real event, its position
    /// moved by the child's offset; the event is dropped when it is
    /// itself an enter, or when the shifted position falls outside the
    /// child's placed size. The child's change comes back shifted into
    /// container coordinates.
    pub open spec fn spec_forward_stage(
        &self,
        hit: Option<u32>,
        event: Event,
        ws2: Seq<W>,
        d2: Key<T>,
        ws3: Seq<W>,
        ch3: Change,
        co3: bool,
        d3: Key<T>,
    ) -> bool {
        match hit {
            Some(nf) => {
                let off = self.spec_child_offset(nf as int);
                let csize = self.spec_child_size(nf as int);
                if !(event is MouseEnter) && event.spec_shift_fits(off, csize) {
                    exists|w3: W, rr: (EventResponse, Key<T>)|
                        {
                            &&& #[trigger] ws2[nf as int].spec_handle(
                                event.spec_shift(off),
                                d2,
                                w3,
                                rr,
                            )
                            &&& ws3 == ws2.update(nf as int, w3)
                            &&& ch3 == rr.0.spec_change().spec_shift(off)
                            &&& co3 == rr.0.spec_consumed()
                            &&& d3 == rr.1
                        }
                } else {
                    ws3 == ws2 && ch3 is Nothing && !co3 && d3 == d2
                }
            },
            None => ws3 == ws2 && ch3 is Nothing && !co3 && d3 == d2,
        }
    }

    /// The monotone focus scan from index `i` over the children `ws`:
    /// each child is asked in turn, the first whose traversal takes
    /// focus becomes it, and when none does the focus clears.
    pub open spec fn spec_focus_scan(
        ws: Seq<W>,
        i: int,
        post: Seq<W>,
        focus: Option<u32>,
        took: bool,
    ) -> bool
        decreases ws.len() - i,
    {
        if i < 0 || i >= ws.len() {
            post == ws && focus is None && !took
        } else {
            exists|w2: W, t: bool|
                {
                    &&& #[trigger] ws[i].spec_traverse(w2, t)
                    &&& if t {
                        post == ws.update(i, w2) && focus == Some(i as u32) && took
                    } else {
                        Self::spec_focus_scan(ws.update(i, w2), i + 1, post, focus, took)
                    }
                }
        }
    }

    /// The child owning the pointer at `pos`: the hit with the highest
    /// index, since later children paint on top of earlier ones.
    pub fn hit_child(&self, pos: Vec2) -> (r: Option<u32>)
        requires
            self.spec_inv(),
            pos.wf(),
        ensures
            r == self.spec_topmost_hit(pos),
            match r {
                Some(c) => {
                    &&& 0 <= (c as int) && (c as int) < self.spec_len()
                    &&& self.spec_child_hit(pos, c as int)
                    &&& forall|j: int|
                        (c as int) < j < self.spec_len() ==> !self.spec_child_hit(pos, j)
                },
                None => forall|j: int|
                    0 <= j < self.spec_len() ==> !self.spec_child_hit(pos, j),
            },
    {
        let n = self.widgets.len();
        let mut consumer: Option<u32> = None;
        let mut i: usize = 0;
        while i < n
            invariant
                0 <= i <= n,
                n == self.spec_len(),
                self.spec_inv(),
                pos.wf(),
                consumer == self.spec_hit_before(pos, i as int),
                match consumer {
                    Some(c) => {
                        &&& 0 <= (c as int) && (c as int) < i as int
                        &&& self.spec_child_hit(pos, c as int)
                        &&& forall|j: int|
                            (c as int) < j < i as int ==> !self.spec_child_hit(pos, j)
                    },
                    None => forall|j: int| 0 <= j < i as int ==> !self.spec_child_hit(pos, j),
                },
            decreases n - i,
        {
            let hit = Rect::from_origin_size(self.metas[i].offset, self.metas[i].size);
            if hit.contains(pos) {
                consumer = Some(i as u32);
            }
            i += 1;
        }
        consumer
    }

    /// An empty container over a fresh strategy.
    pub fn new(layout: L) -> (r: Container<T, W, L>)
        requires
            layout.inv(),
            layout.count() == 0,
        ensures
            r.spec_inv(),
            r.spec_len() == 0,
    {
        Container {
            widgets: Vec::new(),
            metas: Vec::new(),
            layout,
            mouse_focus: None,
            focus: None,
            _data: PhantomData,
        }
    }

    /// Adds a child under an explicit layout constraint.
    pub fn constrained_child(self, constrain: L::Constrain, widget: W) -> (r: Container<T, W, L>)
        requires
            self.spec_inv(),
            self.spec_len() < 0xFFFF_FFFE,
            widget.inv(),
        ensures
            r.spec_inv(),
            r.spec_len() == self.spec_len() + 1,
    {
        let mut this = self;
        let (index, meta) = this.layout.insert(constrain);
        this.widgets.insert(index as usize, widget);
        this.metas.insert(index as usize, ChildMeta::empty(meta));
        this
    }
}

impl<T, W: Widget<T>, L: Layout> Container<T, W, L> where L::Constrain: Default {
    /// Adds a child under the default constraint.
    pub fn child(self, widget: W) -> (r: Container<T, W, L>)
        requires
            self.spec_inv(),
            self.spec_len() < 0xFFFF_FFFE,
            widget.inv(),
        ensures
            r.spec_inv(),
            r.spec_len() == self.spec_len() + 1,
    {
        self.constrained_child(Default::default(), widget)
    }
}

impl<T, W: Widget<T>, L: Layout> Widget<T> for Container<T, W, L> {
    open spec fn inv(&self) -> bool {
        self.spec_inv()
    }

    open spec fn spec_handle(&self, event: Event, data: Key<T>, post: Self, r: (
        EventResponse,
        Key<T>,
    )) -> bool {
        &&& post.spec_metas() == self.spec_metas()
        &&& post.spec_strategy() == self.spec_strategy()
        &&& post.spec_focus() == self.spec_focus()
        &&& match event.spec_mouse_event() {
            Some(me) => {
                let hit = self.spec_topmost_hit(me.pos);
                &&& post.spec_mouse_focus() == hit
                &&& exists|
                    ws1: Seq<W>,
                    ch1: Change,
                    co1: bool,
                    d1: Key<T>,
                    ws2: Seq<W>,
                    ch2: Change,
                    co2: bool,
                    d2: Key<T>,
                    ch3: Change,
                    co3: bool,
                    d3: Key<T>,
                |
                    {
                        // The old holder's exit, the new holder's enter,
                        // then the event itself, with the responses
                        // merged in that order.
                        &&& #[trigger] self.spec_exit_stage(hit, data, ws1, ch1, co1, d1)
                        &&& #[trigger] self.spec_enter_stage(hit, me, ws1, d1, ws2, ch2, co2, d2)
                        &&& #[trigger] self.spec_forward_stage(
                            hit,
                            event,
                            ws2,
                            d2,
                            post.spec_widgets(),
                            ch3,
                            co3,
                            d3,
                        )
                        &&& r.0.spec_change() == spec_change_merge(spec_change_merge(ch1, ch2), ch3)
                        &&& r.0.spec_consumed() == (co1 || co2 || co3)
                        &&& r.1 == d3
                    }
            },
            None => {
                // Non-pointer events are not routed by the container.
                &&& post.spec_widgets() == self.spec_widgets()
                &&& post.spec_mouse_focus() == self.spec_mouse_focus()
                &&& r.0.spec_change() is Nothing
                &&& !r.0.spec_consumed()
                &&& r.1 == data
            },
        }
    }

    open spec fn spec_traverse(&self, post: Self, took: bool) -> bool {
        &&& post.spec_metas() == self.spec_metas()
        &&& post.spec_strategy() == self.spec_strategy()
        &&& post.spec_mouse_focus() == self.spec_mouse_focus()
        &&& took == (post.spec_focus() is Some)
        &&& Self::spec_focus_scan(
            self.spec_widgets(),
            match self.spec_focus() {
                Some(f) => f as int,
                None => 0,
            },
            post.spec_widgets(),
            post.spec_focus(),
            took,
        )
    }

    fn draw(
        &mut self,
        painter: &mut Painter,
        size: Size,
        dirty_rect: Rect,
        context: &mut WidgetContext,
        data: &T,
    ) {
        let n = self.widgets.len();
        let mut i: usize = 0;
        while i < n
            invariant
                0 <= i <= n,
                n == self.widgets@.len(),
                self.spec_inv(),
                size.wf(),
                dirty_rect.wf(),
                painter.wf(),
                painter.offset == old(painter).offset,
                painter.saved@ == old(painter).saved@,
                painter.cmds@.len() >= old(painter).cmds@.len(),
                forall|i2: int|
                    0 <= i2 < old(painter).cmds@.len() ==> (#[trigger] painter.cmds@[i2]) == old(
                        painter,
                    ).cmds@[i2],
                context.wf(),
            decreases n - i,
        {
            let offset = self.metas[i].offset;
            let csize = self.metas[i].size;
            painter.save();
            painter.translate(offset);
            let mut cctx = context.child(offset, csize);
            self.widgets[i].draw(painter, csize, dirty_rect, &mut cctx, data);
            context.absorb(cctx);
            painter.restore();
            i += 1;
        }
    }

    fn handle_event(&mut self, event: Event, context: &mut WidgetContext, data: Key<T>) -> (r: (
        EventResponse,
        Key<T>,
    ))
        ensures
            final(self).spec_len() == old(self).spec_len(),
            final(self).spec_metas() == old(self).spec_metas(),
            final(self).spec_strategy() == old(self).spec_strategy(),
            final(self).spec_focus() == old(self).spec_focus(),
            match event.spec_mouse_pos() {
                Some(p) => final(self).spec_mouse_focus() == old(self).spec_topmost_hit(p)
                    && ((old(self).spec_topmost_hit(p) is None && old(self).spec_mouse_focus()
                    is None) ==> {
                    // A pointer event over no child, with none focused:
                    // nothing to route.
                    &&& r.0.spec_change() is Nothing
                    &&& !r.0.spec_consumed()
                    &&& r.1 == data
                }),
                None => {
                    // Non-pointer events are not routed by the container.
                    &&& *final(self) == *old(self)
                    &&& r.0.spec_change() is Nothing
                    &&& !r.0.spec_consumed()
                    &&& r.1 == data
                },
            },
    {
        let ghost data0 = data;
        let ghost pre = *self;
        let mut response = EventResponse::none();
        let mut data = data;

        let me_copy: Option<MouseEvent> = match &event {
            Event::MouseEnter(me) => Some(*me),
            Event::MouseMove(me) => Some(*me),
            Event::MouseDown(me) => Some(*me),
            Event::MouseUp(me) => Some(*me),
            _ => None,
        };

        if let Some(me) = me_copy {
            // Which child owns the pointer now; the topmost hit wins.
            let consumer: Option<u32> = self.hit_child(me.pos);
            let ghost hit = consumer;

            // The child losing the pointer gets an exit first.
            let ghost mut ws1 = pre.spec_widgets();
            let ghost mut ch1 = Change::Nothing;
            let ghost mut co1 = false;
            let ghost mut d1 = data0;
            if let Some(old_focus) = self.mouse_focus {
                let leaving = match consumer {
                    Some(c) => c != old_focus,
                    None => true,
                };
                if leaving {
                    let offset = self.metas[old_focus as usize].offset;
                    let csize = self.metas[old_focus as usize].size;
                    let mut cctx = context.child(offset, csize);
                    let (r2, d2) = self.widgets[old_focus as usize].handle_event(
                        Event::MouseExit,
                        &mut cctx,
                        data,
                    );
                    let ghost grr = (r2, d2);
                    context.absorb(cctx);
                    data = d2;
                    response = response.merge(r2.shift(offset));
                    proof {
                        ws1 = self.spec_widgets();
                        ch1 = grr.0.spec_change().spec_shift(
                            pre.spec_child_offset(old_focus as int),
                        );
                        co1 = grr.0.spec_consumed();
                        d1 = grr.1;
                        assert(pre.spec_widgets()[old_focus as int].spec_handle(
                            Event::MouseExit,
                            data0,
                            self.spec_widgets()[old_focus as int],
                            grr,
                        ));
                        assert(ws1 =~= pre.spec_widgets().update(
                            old_focus as int,
                            self.spec_widgets()[old_focus as int],
                        ));
                    }
                }
            }
            proof {
                assert(pre.spec_exit_stage(hit, data0, ws1, ch1, co1, d1));
            }

            // The child gaining the pointer gets an enter, then the event.
            let ghost mut ws2 = ws1;
            let ghost mut ch2 = Change::Nothing;
            let ghost mut co2 = false;
            let ghost mut d2g = d1;
            let ghost mut ch3 = Change::Nothing;
            let ghost mut co3 = false;
            let ghost mut d3g = d1;
            if let Some(new_focus) = consumer {
                let offset = self.metas[new_focus as usize].offset;
                let csize = self.metas[new_focus as usize].size;

                let entering = match self.mouse_focus {
                    Some(f) => f != new_focus,
                    None => true,
                };
                if entering {
                    let child_me = me.shifted(offset);
                    let mut cctx = context.child(offset, csize);
                    let (r2, d2) = self.widgets[new_focus as usize].handle_event(
                        Event::MouseEnter(child_me),
                        &mut cctx,
                        data,
                    );
                    let ghost grr = (r2, d2);
                    context.absorb(cctx);
                    data = d2;
                    response = response.merge(r2.shift(offset));
                    proof {
                        ws2 = self.spec_widgets();
                        ch2 = grr.0.spec_change().spec_shift(
                            pre.spec_child_offset(new_focus as int),
                        );
                        co2 = grr.0.spec_consumed();
                        d2g = grr.1;
                        assert(Event::MouseEnter(child_me) == Event::MouseEnter(me).spec_shift(
                            pre.spec_child_offset(new_focus as int),
                        ));
                        assert(ws1[new_focus as int].spec_handle(
                            Event::MouseEnter(me).spec_shift(
                                pre.spec_child_offset(new_focus as int),
                            ),
                            d1,
                            self.spec_widgets()[new_focus as int],
                            grr,
                        ));
                        assert(ws2 =~= ws1.update(
                            new_focus as int,
                            self.spec_widgets()[new_focus as int],
                        ));
                    }
                }
                proof {
                    d3g = d2g;
                    assert(pre.spec_enter_stage(hit, me, ws1, d1, ws2, ch2, co2, d2g));
                }

                let is_enter = match &event {
                    Event::MouseEnter(_) => true,
                    _ => false,
                };
                if !is_enter {
                    let mut ev = event.duplicate();
                    if ev.shift(offset, csize) {
                        let mut cctx = context.child(offset, csize);
                        let (r2, d2) = self.widgets[new_focus as usize].handle_event(
                            ev,
                            &mut cctx,
                            data,
                        );
                        let ghost grr = (r2, d2);
                        context.absorb(cctx);
                        data = d2;
                        response = response.merge(r2.shift(offset));
                        proof {
                            ch3 = grr.0.spec_change().spec_shift(
                                pre.spec_child_offset(new_focus as int),
                            );
                            co3 = grr.0.spec_consumed();
                            d3g = grr.1;
                            assert(ws2[new_focus as int].spec_handle(
                                event.spec_shift(pre.spec_child_offset(new_focus as int)),
                                d2g,
                                self.spec_widgets()[new_focus as int],
                                grr,
                            ));
                            assert(self.spec_widgets() =~= ws2.update(
                                new_focus as int,
                                self.spec_widgets()[new_focus as int],
                            ));
                        }
                    }
                }
            } else {
                proof {
                    d3g = d1;
                    assert(pre.spec_enter_stage(hit, me, ws1, d1, ws2, ch2, co2, d2g));
                }
            }
            self.mouse_focus = consumer;
            proof {
                assert(pre.spec_forward_stage(
                    hit,
                    event,
                    ws2,
                    d2g,
                    self.spec_widgets(),
                    ch3,
                    co3,
                    d3g,
                ));
            }
        }

        (response, data)
    }

    fn get_pref_size(&mut self, context: &mut WidgetContext, data: &T) -> (r: PrefSize)
        ensures
            final(self).spec_len() == old(self).spec_len(),
            final(self).spec_focus() == old(self).spec_focus(),
            final(self).spec_mouse_focus() == old(self).spec_mouse_focus(),
            forall|i: int|
                0 <= i < final(self).spec_len() ==> {
                    &&& (#[trigger] final(self).spec_metas()[i]).meta == old(
                        self,
                    ).spec_metas()[i].meta
                    &&& final(self).spec_metas()[i].offset == old(self).spec_metas()[i].offset
                    &&& final(self).spec_metas()[i].size == old(self).spec_metas()[i].size
                },
            r == old(self).spec_strategy().spec_calc(
                prefs_of(final(self).spec_metas()),
            ),
    {
        let n = self.widgets.len();
        let mut i: usize = 0;
        while i < n
            invariant
                0 <= i <= n,
                n == self.widgets@.len(),
                self.spec_inv(),
                context.wf(),
                self.spec_len() == old(self).spec_len(),
                self.spec_strategy() == old(self).spec_strategy(),
                self.spec_focus() == old(self).spec_focus(),
                self.spec_mouse_focus() == old(self).spec_mouse_focus(),
                forall|j: int|
                    0 <= j < self.metas@.len() ==> {
                        &&& (#[trigger] self.metas@[j]).meta == old(self).metas@[j].meta
                        &&& self.metas@[j].offset == old(self).metas@[j].offset
                        &&& self.metas@[j].size == old(self).metas@[j].size
                    },
            decreases n - i,
        {
            let pref = self.widgets[i].get_pref_size(context, data);
            self.metas[i].pref = pref;
            i += 1;
        }
        self.layout.calc_pref_size(&self.metas)
    }

    fn layout(&mut self, size: Size, context: &mut WidgetContext, data: &T)
        ensures
            final(self).spec_len() == old(self).spec_len(),
            final(self).spec_focus() == old(self).spec_focus(),
            final(self).spec_mouse_focus() == old(self).spec_mouse_focus(),
            forall|i: int|
                0 <= i < final(self).spec_len() ==> {
                    &&& (#[trigger] final(self).spec_metas()[i]).meta == old(
                        self,
                    ).spec_metas()[i].meta
                    &&& final(self).spec_metas()[i].pref == old(self).spec_metas()[i].pref
                    &&& final(self).spec_metas()[i].size == old(self).spec_strategy(
                    ).spec_placed_size(
                        prefs_of(old(self).spec_metas()),
                        size,
                        i,
                    )
                    &&& final(self).spec_metas()[i].offset == old(self).spec_strategy(
                    ).spec_placed_offset(
                        prefs_of(old(self).spec_metas()),
                        size,
                        i,
                    )
                },
    {
        self.layout.layout(size, &mut self.metas);
        let ghost placed = self.spec_metas();
        let n = self.widgets.len();
        let mut i: usize = 0;
        while i < n
            invariant
                0 <= i <= n,
                n == self.widgets@.len(),
                self.spec_inv(),
                size.wf(),
                context.wf(),
                self.spec_len() == old(self).spec_len(),
                self.spec_focus() == old(self).spec_focus(),
                self.spec_mouse_focus() == old(self).spec_mouse_focus(),
                self.spec_metas() == placed,
                forall|j: int|
                    0 <= j < self.spec_len() ==> {
                        &&& (#[trigger] placed[j]).meta == old(self).spec_metas()[j].meta
                        &&& placed[j].pref == old(self).spec_metas()[j].pref
                        &&& placed[j].size == old(self).spec_strategy().spec_placed_size(
                            prefs_of(old(self).spec_metas()),
                            size,
                            j,
                        )
                        &&& placed[j].offset == old(self).spec_strategy().spec_placed_offset(
                            prefs_of(old(self).spec_metas()),
                            size,
                            j,
                        )
                    },
            decreases n - i,
        {
            let offset = self.metas[i].offset;
            let csize = self.metas[i].size;
            let mut cctx = context.child(offset, csize);
            self.widgets[i].layout(csize, &mut cctx, data);
            context.absorb(cctx);
            i += 1;
        }
    }

    fn build(&mut self, context: &mut WidgetContext) {
        let n = self.widgets.len();
        let mut i: usize = 0;
        while i < n
            invariant
                0 <= i <= n,
                n == self.widgets@.len(),
                self.spec_inv(),
                context.wf(),
            decreases n - i,
        {
            self.widgets[i].build(context);
            i += 1;
        }
    }

    fn traverse_focus(&mut self, context: &mut WidgetContext) -> (r: bool)
        ensures
            final(self).spec_len() == old(self).spec_len(),
            final(self).spec_metas() == old(self).spec_metas(),
            final(self).spec_strategy() == old(self).spec_strategy(),
            final(self).spec_mouse_focus() == old(self).spec_mouse_focus(),
            r == (final(self).spec_focus() is Some),
            match final(self).spec_focus() {
                Some(c) => {
                    // The scan is monotone from the last focused index.
                    &&& (c as int) < final(self).spec_len()
                    &&& match old(self).spec_focus() {
                        Some(f) => f <= c,
                        None => true,
                    }
                },
                None => true,
            },
    {
        let ghost start: int = match old(self).spec_focus() {
            Some(f) => f as int,
            None => 0,
        };
        let n = self.widgets.len();
        let mut i: usize = match self.focus {
            Some(f) => f as usize,
            None => 0,
        };
        while i < n
            invariant
                0 <= i <= n,
                start <= i as int,
                n == self.widgets@.len(),
                self.spec_inv(),
                context.wf(),
                self.spec_len() == old(self).spec_len(),
                self.spec_metas() == old(self).spec_metas(),
                self.spec_strategy() == old(self).spec_strategy(),
                self.spec_mouse_focus() == old(self).spec_mouse_focus(),
                self.spec_focus() == old(self).spec_focus(),
                start == match old(self).spec_focus() {
                    Some(f) => f as int,
                    None => 0,
                },
                forall|post: Seq<W>, f2: Option<u32>, t2: bool|
                    #[trigger] Self::spec_focus_scan(self.spec_widgets(), i as int, post, f2, t2)
                        ==> Self::spec_focus_scan(old(self).spec_widgets(), start, post, f2, t2),
            decreases n - i,
        {
            let ghost wsi = self.spec_widgets();
            let took = self.widgets[i].traverse_focus(context);
            let ghost w2 = self.spec_widgets()[i as int];
            proof {
                assert(wsi[i as int].spec_traverse(w2, took));
                assert(self.spec_widgets() =~= wsi.update(i as int, w2));
            }
            if took {
                self.focus = Some(i as u32);
                proof {
                    assert(Self::spec_focus_scan(
                        wsi,
                        i as int,
                        self.spec_widgets(),
                        Some(i as u32),
                        true,
                    ));
                }
                return true;
            }
            proof {
                assert forall|post: Seq<W>, f2: Option<u32>, t2: bool|
                    #[trigger] Self::spec_focus_scan(
                        self.spec_widgets(),
                        i as int + 1,
                        post,
                        f2,
                        t2,
                    ) implies Self::spec_focus_scan(
                    old(self).spec_widgets(),
                    start,
                    post,
                    f2,
                    t2,
                ) by {
                    assert(Self::spec_focus_scan(wsi, i as int, post, f2, t2));
                };
            }
            i += 1;
        }
        let ghost ws_end = self.spec_widgets();
        proof {
            assert(Self::spec_focus_scan(ws_end, i as int, ws_end, None::<u32>, false));
            assert(Self::spec_focus_scan(old(self).spec_widgets(), start, ws_end, None::<u32>, false));
        }
        self.focus = None;
        proof {
            assert(Self::spec_focus_scan(
                old(self).spec_widgets(),
                start,
                self.spec_widgets(),
                None::<u32>,
                false,
            ));
            assert(old(self).spec_traverse(*self, false));
        }
        false
    }

    fn update(&mut self, new: &T, old_data: Option<&T>) -> (r: Change) {
        Change::Nothing
    }
}

} // verus!
