//! Input events, the change report of a widget mutation, and the response
//! a widget hands back after handling an event.

use vstd::prelude::*;
use crate::geom::{Vec2, Size, Rect, coord_ok, spec_clamp, sat_sub, sat_add};

verus! {

/// A pointer event: position in the receiving widget's coordinates,
/// the button involved and the click count.
#[derive(Clone, Copy, PartialEq, Eq, Structural, Debug)]
pub struct MouseEvent {
    pub pos: Vec2,
    pub button: u8,
    pub count: u8,
}

impl MouseEvent {
    /// Position within the representable coordinate range.
    pub open spec fn wf(self) -> bool {
        self.pos.wf()
    }

    /// Builds a pointer event.
    pub fn new(pos: Vec2, button: u8, count: u8) -> (r: MouseEvent)
        ensures
            r.pos == pos && r.button == button && r.count == count,
    {
        MouseEvent { pos, button, count }
    }

    /// The same event with its position moved by `-amount` (saturating).
    pub fn shifted(self, amount: Vec2) -> (r: MouseEvent)
        requires
            self.wf(),
            amount.wf(),
        ensures
            r.pos.x as int == spec_clamp(self.pos.x - amount.x),
            r.pos.y as int == spec_clamp(self.pos.y - amount.y),
            r.button == self.button && r.count == self.count,
            r.wf(),
    {
        MouseEvent {
            pos: Vec2 { x: sat_sub(self.pos.x, amount.x), y: sat_sub(self.pos.y, amount.y) },
            button: self.button,
            count: self.count,
        }
    }
}

/// The key involved in a keyboard event, as far as the core reads it.
#[derive(Clone, Copy, PartialEq, Eq, Structural, Debug)]
pub enum KeyCode {
    Backspace,
    Tab,
    Other,
}

/// A keyboard event: the key class and the text it produces, if any.
#[derive(Clone, Debug)]
pub struct KeyEvent {
    pub code: KeyCode,
    pub text: Option<String>,
}

impl KeyEvent {
    /// Builds a keyboard event.
    pub fn new(code: KeyCode, text: Option<String>) -> (r: KeyEvent)
        ensures
            r.code == code && r.text == text,
    {
        KeyEvent { code, text }
    }
}

/// The closed set of input events a widget can receive.
#[derive(Clone, Debug)]
pub enum Event {
    MouseEnter(MouseEvent),
    MouseMove(MouseEvent),
    MouseDown(MouseEvent),
    MouseUp(MouseEvent),
    MouseExit,
    KeyDown(KeyEvent),
    KeyUp(KeyEvent),
}

/// Whether a shifted position still falls inside a widget of `size`.
pub open spec fn spec_pos_fits(p: Vec2, size: Size) -> bool {
    0 <= p.x <= size.width && 0 <= p.y <= size.height
}

impl Event {
    /// Positions within the representable coordinate range.
    pub open spec fn wf(self) -> bool {
        match self {
            Event::MouseEnter(me) => me.wf(),
            Event::MouseMove(me) => me.wf(),
            Event::MouseDown(me) => me.wf(),
            Event::MouseUp(me) => me.wf(),
            _ => true,
        }
    }

    /// The pointer event carried inside, if it is a positioned pointer
    /// event.
    pub open spec fn spec_mouse_event(self) -> Option<MouseEvent> {
        match self {
            Event::MouseEnter(me) => Some(me),
            Event::MouseMove(me) => Some(me),
            Event::MouseDown(me) => Some(me),
            Event::MouseUp(me) => Some(me),
            _ => None,
        }
    }

    /// The pointer position carried by the event, if it is a positioned
    /// pointer event.
    pub open spec fn spec_mouse_pos(self) -> Option<Vec2> {
        match self.spec_mouse_event() {
            Some(me) => Some(me.pos),
            None => None,
        }
    }

    /// This event as seen from a child shifted by `amount`: the pointer
    /// position moves by `-amount` (saturating); any other event is kept
    /// as it is.
    pub open spec fn spec_shift(self, amount: Vec2) -> Event {
        match self {
            Event::MouseEnter(me) => Event::MouseEnter(
                MouseEvent {
                    pos: Vec2 {
                        x: spec_clamp(me.pos.x - amount.x) as i64,
                        y: spec_clamp(me.pos.y - amount.y) as i64,
                    },
                    ..me
                },
            ),
            Event::MouseMove(me) => Event::MouseMove(
                MouseEvent {
                    pos: Vec2 {
                        x: spec_clamp(me.pos.x - amount.x) as i64,
                        y: spec_clamp(me.pos.y - amount.y) as i64,
                    },
                    ..me
                },
            ),
            Event::MouseDown(me) => Event::MouseDown(
                MouseEvent {
                    pos: Vec2 {
                        x: spec_clamp(me.pos.x - amount.x) as i64,
                        y: spec_clamp(me.pos.y - amount.y) as i64,
                    },
                    ..me
                },
            ),
            Event::MouseUp(me) => Event::MouseUp(
                MouseEvent {
                    pos: Vec2 {
                        x: spec_clamp(me.pos.x - amount.x) as i64,
                        y: spec_clamp(me.pos.y - amount.y) as i64,
                    },
                    ..me
                },
            ),
            _ => self,
        }
    }

    /// Whether the shift of this event by `amount` lands inside a child of
    /// `new_size`: true for every event without a position.
    pub open spec fn spec_shift_fits(self, amount: Vec2, new_size: Size) -> bool {
        match self.spec_mouse_pos() {
            Some(p) => spec_pos_fits(
                Vec2 {
                    x: spec_clamp(p.x - amount.x) as i64,
                    y: spec_clamp(p.y - amount.y) as i64,
                },
                new_size,
            ),
            None => true,
        }
    }

    /// Moves a positioned pointer event into the coordinates of a child
    /// shifted by `amount` and reports whether the new position falls
    /// inside the child's `new_size`. Events without a position are left
    /// unchanged and always fit.
    pub fn shift(&mut self, amount: Vec2, new_size: Size) -> (fits: bool)
        requires
            old(self).wf(),
            amount.wf(),
            new_size.wf(),
        ensures
            *final(self) == old(self).spec_shift(amount),
            fits == old(self).spec_shift_fits(amount, new_size),
            final(self).wf(),
    {
        let me = match &*self {
            Event::MouseEnter(me) => me.shifted(amount),
            Event::MouseMove(me) => me.shifted(amount),
            Event::MouseDown(me) => me.shifted(amount),
            Event::MouseUp(me) => me.shifted(amount),
            _ => {
                return true;
            },
        };
        let fits = 0 <= me.pos.x && me.pos.x <= new_size.width && 0 <= me.pos.y && me.pos.y
            <= new_size.height;
        match &*self {
            Event::MouseEnter(_) => {
                *self = Event::MouseEnter(me);
            },
            Event::MouseMove(_) => {
                *self = Event::MouseMove(me);
            },
            Event::MouseDown(_) => {
                *self = Event::MouseDown(me);
            },
            Event::MouseUp(_) => {
                *self = Event::MouseUp(me);
            },
            _ => {},
        }
        fits
    }

    /// The pointer event inside, if any.
    pub fn mouse_event(&self) -> (r: Option<&MouseEvent>)
        ensures
            match r {
                Some(me) => self.spec_mouse_event() == Some(*me),
                None => self.spec_mouse_event() is None,
            },
    {
        match self {
            Event::MouseEnter(me) => Some(me),
            Event::MouseMove(me) => Some(me),
            Event::MouseDown(me) => Some(me),
            Event::MouseUp(me) => Some(me),
            _ => None,
        }
    }
}

/// Law: shifting an event by `v` and then by `-v` restores it exactly,
/// whenever the intermediate position stays representable. An event at
/// `x == COORD_LIMIT` shifted by `v.x == -1` saturates and is excluded.
pub proof fn lemma_event_shift_round_trip(e: Event, v: Vec2)
    requires
        e.wf(),
        v.wf(),
        match e.spec_mouse_pos() {
            Some(p) => coord_ok(p.x - v.x) && coord_ok(p.y - v.y),
            None => true,
        },
    ensures
        e.spec_shift(v).spec_shift(
            Vec2 { x: -v.x as i64, y: -v.y as i64 },
        ) == e,
{
}

/// What a widget mutation affected visually: nothing, a widget-local
/// content rectangle, or the widget's own size preference.
#[derive(Clone, Copy, Debug)]
pub enum Change {
    /// Nothing to repaint.
    Nothing,
    /// Repaint this widget-local rectangle.
    Content(Rect),
    /// The widget's preferred size changed: ancestors must re-run layout.
    Bounds,
}

/// Merge of two change reports: `Bounds` absorbs everything, two content
/// rectangles union, and `Nothing` is the identity.
pub open spec fn spec_change_merge(a: Change, b: Change) -> Change {
    match (a, b) {
        (Change::Bounds, _) => Change::Bounds,
        (_, Change::Bounds) => Change::Bounds,
        (Change::Content(r1), Change::Content(r2)) => Change::Content(r1.spec_union(r2)),
        (Change::Content(r1), _) => Change::Content(r1),
        (_, Change::Content(r2)) => Change::Content(r2),
        (_, _) => Change::Nothing,
    }
}

impl Change {
    /// Any content rectangle is well-formed.
    pub open spec fn wf(self) -> bool {
        match self {
            Change::Content(r) => r.wf(),
            _ => true,
        }
    }

    /// Merges two change reports.
    pub fn merge(&self, other: Change) -> (r: Change)
        requires
            self.wf(),
            other.wf(),
        ensures
            r == spec_change_merge(*self, other),
            r.wf(),
    {
        match (self, other) {
            (Change::Bounds, _) => Change::Bounds,
            (_, Change::Bounds) => Change::Bounds,
            (Change::Content(r1), Change::Content(r2)) => Change::Content(r1.union(r2)),
            (Change::Content(r1), _) => Change::Content(*r1),
            (_, Change::Content(r2)) => Change::Content(r2),
            (_, _) => Change::Nothing,
        }
    }

    /// Whether anything changed at all.
    pub fn changed(&self) -> (r: bool)
        ensures
            r == !(*self is Nothing),
    {
        match self {
            Change::Nothing => false,
            Change::Content(_) => true,
            Change::Bounds => true,
        }
    }

    /// Whether the widget's size preference changed.
    pub fn bounds_changed(&self) -> (r: bool)
        ensures
            r == (*self is Bounds),
    {
        match self {
            Change::Nothing => false,
            Change::Content(_) => false,
            Change::Bounds => true,
        }
    }

    /// The translate of a content rectangle by `amount`; the other
    /// reports carry no position.
    pub open spec fn spec_shift(self, amount: Vec2) -> Change {
        match self {
            Change::Content(r) => Change::Content(r.spec_translate(amount)),
            _ => self,
        }
    }

    /// Moves a content rectangle from child-local into parent-local
    /// coordinates.
    pub fn shift(self, amount: Vec2) -> (r: Change)
        requires
            self.wf(),
            amount.wf(),
        ensures
            r == self.spec_shift(amount),
            r.wf(),
    {
        match self {
            Change::Nothing => Change::Nothing,
            Change::Content(rect) => Change::Content(rect.translate(amount)),
            Change::Bounds => Change::Bounds,
        }
    }
}

/// Law: change merge is commutative.
pub proof fn lemma_change_merge_commutative(a: Change, b: Change)
    ensures
        spec_change_merge(a, b) == spec_change_merge(b, a),
{
}

/// Law: change merge is associative.
pub proof fn lemma_change_merge_associative(a: Change, b: Change, c: Change)
    ensures
        spec_change_merge(spec_change_merge(a, b), c) == spec_change_merge(
            a,
            spec_change_merge(b, c),
        ),
{
}

/// Law: `Nothing` is the identity of change merge.
pub proof fn lemma_change_merge_identity(c: Change)
    ensures
        spec_change_merge(Change::Nothing, c) == c,
        spec_change_merge(c, Change::Nothing) == c,
{
}

/// Law: `Bounds` absorbs every other change.
pub proof fn lemma_change_merge_bounds_absorbs(c: Change)
    ensures
        spec_change_merge(Change::Bounds, c) == Change::Bounds,
        spec_change_merge(c, Change::Bounds) == Change::Bounds,
{
}

/// A widget's answer to an event: what changed visually, and whether the
/// event was consumed so that no sibling or ancestor default handling
/// should continue.
#[derive(Clone, Copy, Debug)]
pub struct EventResponse {
    change: Change,
    consumed: bool,
}

impl EventResponse {
    /// The content rectangle, if any, is well-formed.
    pub closed spec fn wf(self) -> bool {
        self.change.wf()
    }

    /// The change report inside.
    pub closed spec fn spec_change(self) -> Change {
        self.change
    }

    /// Whether the event was consumed.
    pub closed spec fn spec_consumed(self) -> bool {
        self.consumed
    }

    /// Nothing changed, event not consumed.
    pub fn none() -> (r: EventResponse)
        ensures
            r.spec_change() is Nothing,
            !r.spec_consumed(),
            r.wf(),
    {
        EventResponse { change: Change::Nothing, consumed: false }
    }

    /// Nothing changed, but the event is consumed.
    pub fn deleted() -> (r: EventResponse)
        ensures
            r.spec_change() is Nothing,
            r.spec_consumed(),
            r.wf(),
    {
        EventResponse { change: Change::Nothing, consumed: true }
    }

    /// The widget's whole content of `size` changed.
    pub fn changed(size: Size, consumed: bool) -> (r: EventResponse)
        requires
            size.wf(),
        ensures
            r.spec_change() == Change::Content(
                Rect { x0: 0, y0: 0, x1: size.width, y1: size.height },
            ),
            r.spec_consumed() == consumed,
            r.wf(),
    {
        EventResponse {
            change: Change::Content(Rect { x0: 0, y0: 0, x1: size.width, y1: size.height }),
            consumed,
        }
    }

    /// Nothing changed.
    pub fn unchanged(consumed: bool) -> (r: EventResponse)
        ensures
            r.spec_change() is Nothing,
            r.spec_consumed() == consumed,
            r.wf(),
    {
        EventResponse { change: Change::Nothing, consumed }
    }

    /// The widget's size preference changed.
    pub fn bounds_changed(consumed: bool) -> (r: EventResponse)
        ensures
            r.spec_change() is Bounds,
            r.spec_consumed() == consumed,
            r.wf(),
    {
        EventResponse { change: Change::Bounds, consumed }
    }

    /// The rectangle to repaint, if the change is content-local.
    pub fn dirty_rect(&self) -> (r: Option<Rect>)
        ensures
            r == match self.spec_change() {
                Change::Content(rect) => Some(rect),
                _ => None::<Rect>,
            },
    {
        match self.change {
            Change::Nothing => None,
            Change::Content(rect) => Some(rect),
            Change::Bounds => None,
        }
    }

    /// Merges two responses: changes merge, consumed flags or.
    pub fn merge(&self, other: EventResponse) -> (r: EventResponse)
        requires
            self.wf(),
            other.wf(),
        ensures
            r.spec_change() == spec_change_merge(self.spec_change(), other.spec_change()),
            r.spec_consumed() == (self.spec_consumed() || other.spec_consumed()),
            r.wf(),
    {
        EventResponse {
            consumed: self.consumed || other.consumed,
            change: self.change.merge(other.change),
        }
    }

    /// Moves the change into parent-local coordinates.
    pub fn shift(&self, amount: Vec2) -> (r: EventResponse)
        requires
            self.wf(),
            amount.wf(),
        ensures
            r.spec_change() == self.spec_change().spec_shift(amount),
            r.spec_consumed() == self.spec_consumed(),
            r.wf(),
    {
        EventResponse { change: self.change.shift(amount), consumed: self.consumed }
    }

    /// Whether the event is still available for further handling.
    pub fn is_present(&self) -> (r: bool)
        ensures
            r == !self.spec_consumed(),
    {
        !self.consumed
    }

    /// Whether the event was consumed.
    pub fn is_consumed(&self) -> (r: bool)
        ensures
            r == self.spec_consumed(),
    {
        self.consumed
    }

    /// The change report inside.
    pub fn change(&self) -> (r: Change)
        ensures
            r == self.spec_change(),
    {
        self.change
    }
}

} // verus!
// An exact copy operation for events (the derived clone carries no
// specification).

verus! {

impl KeyEvent {
    /// An exact copy of the event.
    pub fn duplicate(&self) -> (r: KeyEvent)
        ensures
            r.code == self.code,
            r.text == self.text,
    {
        let text = match &self.text {
            Some(s) => Some(s.clone()),
            None => None,
        };
        KeyEvent { code: self.code, text }
    }
}

impl Event {
    /// An exact copy of the event.
    pub fn duplicate(&self) -> (r: Event)
        ensures
            r == *self,
    {
        match self {
            Event::MouseEnter(me) => Event::MouseEnter(*me),
            Event::MouseMove(me) => Event::MouseMove(*me),
            Event::MouseDown(me) => Event::MouseDown(*me),
            Event::MouseUp(me) => Event::MouseUp(*me),
            Event::MouseExit => Event::MouseExit,
            Event::KeyDown(ke) => Event::KeyDown(ke.duplicate()),
            Event::KeyUp(ke) => Event::KeyUp(ke.duplicate()),
        }
    }
}

} // verus!
