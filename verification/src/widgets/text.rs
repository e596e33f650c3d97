//! Text widgets: a measured label and a simple text input. Shaping and
//! measuring text is the backend's work; a label carries its text and
//! the width the backend measured for it.

use vstd::prelude::*;
use crate::geom::{Size, Rect, Vec2};
use crate::size::PrefSize;
use crate::event::{Event, EventResponse, Change, KeyCode};
use crate::paint::{Painter, PaintCmd, Color};
use crate::context::WidgetContext;
use crate::state::Key;
use crate::widget::{Widget, spec_inert_handle, spec_inert_traverse};

verus! {

/// Appends a string slice to a string.
///
/// Relies on `String::push_str`: the result is the original contents
/// followed by the appended slice.
#[verifier::external_body]
fn push_str(s: &mut String, t: &str)
    ensures
        final(s)@ == old(s)@ + t@,
{
    s.push_str(t)
}

/// Removes and returns a string's last character.
///
/// Relies on `String::pop`: it removes the last character and returns
/// it, or returns nothing from an empty string.
#[verifier::external_body]
fn pop_char(s: &mut String) -> (r: Option<char>)
    ensures
        old(s)@.len() == 0 ==> r is None && final(s)@ == old(s)@,
        old(s)@.len() > 0 ==> r == Some(old(s)@.last()) && final(s)@ == old(s)@.drop_last(),
{
    s.pop()
}

/// A line of text with the width the backend measured for it.
pub struct Label {
    text: String,
    width: i64,
}

impl Label {
    /// The label's text.
    pub closed spec fn spec_text(&self) -> Seq<char> {
        self.text@
    }

    /// The measured width of the text.
    pub closed spec fn spec_width(&self) -> i64 {
        self.width
    }

    /// The measured width stays a sane coordinate.
    pub open spec fn wf(&self) -> bool {
        0 <= self.spec_width() <= 0xFFFF_FFFF
    }

    /// A label over `text`, whose rendering measures `measured_width`.
    pub fn new(text: String, measured_width: i64) -> (r: Label)
        requires
            0 <= measured_width <= 0xFFFF_FFFF,
        ensures
            r.spec_text() == text@,
            r.spec_width() == measured_width,
            r.wf(),
    {
        Label { text, width: measured_width }
    }

    /// Replaces the text together with its new measured width.
    pub fn set_text(&mut self, text: String, measured_width: i64)
        requires
            0 <= measured_width <= 0xFFFF_FFFF,
        ensures
            final(self).spec_text() == text@,
            final(self).spec_width() == measured_width,
            final(self).wf(),
    {
        self.text = text;
        self.width = measured_width;
    }

    /// The current text.
    pub fn text(&self) -> (r: &String)
        ensures
            r@ == self.spec_text(),
    {
        &self.text
    }
}

impl<T> Widget<T> for Label {
    open spec fn inv(&self) -> bool {
        self.wf()
    }

    open spec fn spec_handle(&self, event: Event, data: Key<T>, post: Self, r: (
        EventResponse,
        Key<T>,
    )) -> bool {
        spec_inert_handle(*self, data, post, r)
    }

    open spec fn spec_traverse(&self, post: Self, took: bool) -> bool {
        spec_inert_traverse(*self, post, took)
    }

    fn draw(
        &mut self,
        painter: &mut Painter,
        size: Size,
        dirty_rect: Rect,
        context: &mut WidgetContext,
        data: &T,
    )
        ensures
            *final(self) == *old(self),
            final(painter).cmds@.len() == old(painter).cmds@.len() + 1,
            match final(painter).cmds@.last() {
                PaintCmd::Text { origin, text, color } => {
                    &&& origin == (Vec2 { x: 4, y: 13 }).spec_vadd(old(painter).offset)
                    &&& text@ == old(self).spec_text()
                    &&& color == (Color { rgba: 0xFFFF_FFFFu32 })
                },
                _ => false,
            },
    {
        let text = self.text.clone();
        painter.draw_text(Vec2::new(4, 13), text, Color::rgb8(255, 255, 255));
    }

    fn handle_event(&mut self, event: Event, context: &mut WidgetContext, data: Key<T>) -> (r: (
        EventResponse,
        Key<T>,
    )) {
        (EventResponse::none(), data)
    }

    fn get_pref_size(&mut self, context: &mut WidgetContext, data: &T) -> (r: PrefSize)
        ensures
            *final(self) == *old(self),
            r.min == (Size { width: (old(self).spec_width() + 8) as i64, height: 17 }),
            r.max == r.min,
            r.grow.x.spec_is_zero() && r.grow.y.spec_is_zero(),
    {
        PrefSize::fixed(Size::new(self.width + 8, 17))
    }

    fn layout(&mut self, size: Size, context: &mut WidgetContext, data: &T) {
    }

    fn build(&mut self, context: &mut WidgetContext) {
    }

    fn traverse_focus(&mut self, context: &mut WidgetContext) -> (r: bool) {
        false
    }

    fn update(&mut self, new: &T, old_data: Option<&T>) -> (r: Change) {
        Change::Nothing
    }
}

/// A one-line text input bound to a `String` state: printable keys
/// append, backspace removes the last character, and every data change
/// refreshes the displayed label through the measuring hook and reports
/// new bounds, since the measured text moved.
pub struct TextInput<M> {
    text: Label,
    measure: M,
    cursor_position: usize,
    focused: bool,
}

impl<M: Fn(&String) -> i64> TextInput<M> {
    /// An empty input without focus; `measure` is the backend hook that
    /// measures a rendering of its text.
    pub fn new(measure: M) -> (r: TextInput<M>)
        requires
            spec_total_measure::<M>(measure),
        ensures
            r.spec_label().spec_text().len() == 0,
            !r.spec_focused(),
            r.spec_measure() == measure,
            r.spec_label().wf(),
    {
        TextInput {
            text: Label::new(String::new(), 0),
            measure,
            cursor_position: 0,
            focused: false,
        }
    }

    /// The label showing the current contents.
    pub closed spec fn spec_label(&self) -> Label {
        self.text
    }

    /// The measuring hook.
    pub closed spec fn spec_measure(&self) -> M {
        self.measure
    }

    /// Whether the input holds keyboard focus.
    pub closed spec fn spec_focused(&self) -> bool {
        self.focused
    }
}

impl<M: Fn(&String) -> i64> Widget<String> for TextInput<M> {
    open spec fn inv(&self) -> bool {
        self.spec_label().wf() && spec_total_measure::<M>(self.spec_measure())
    }

    open spec fn spec_handle(&self, event: Event, data: Key<String>, post: Self, r: (
        EventResponse,
        Key<String>,
    )) -> bool {
        &&& post.spec_label() == self.spec_label()
        &&& post.spec_measure() == self.spec_measure()
        &&& post.spec_focused() == self.spec_focused()
        &&& r.0.spec_change() is Nothing
        &&& !r.0.spec_consumed()
        &&& ({
            let value = data.spec_value();
            match event {
                Event::KeyDown(ke) => match ke.code {
                    KeyCode::Backspace => if value@.len() > 0 {
                        r.1.spec_value()@ == value@.drop_last() && r.1.spec_changed()
                    } else {
                        r.1.spec_value() == value && r.1.spec_changed() == data.spec_changed()
                    },
                    _ => match ke.text {
                        Some(t) => r.1.spec_value()@ == value@ + t@ && r.1.spec_changed(),
                        None => r.1.spec_value() == value && r.1.spec_changed()
                            == data.spec_changed(),
                    },
                },
                _ => r.1.spec_value() == value && r.1.spec_changed() == data.spec_changed(),
            }
        })
    }

    open spec fn spec_traverse(&self, post: Self, took: bool) -> bool {
        &&& post.spec_label() == self.spec_label()
        &&& post.spec_measure() == self.spec_measure()
        &&& post.spec_focused() == !self.spec_focused()
        &&& took == post.spec_focused()
    }

    fn draw(
        &mut self,
        painter: &mut Painter,
        size: Size,
        dirty_rect: Rect,
        context: &mut WidgetContext,
        data: &String,
    )
        ensures
            final(painter).cmds@.len() == old(painter).cmds@.len() + 1,
            match final(painter).cmds@.last() {
                PaintCmd::Text { origin, text, color } => {
                    &&& origin == (Vec2 { x: 4, y: 13 }).spec_vadd(old(painter).offset)
                    &&& text@ == old(self).spec_label().spec_text()
                    &&& color == (Color { rgba: 0xFFFF_FFFFu32 })
                },
                _ => false,
            },
    {
        self.text.draw(painter, size, dirty_rect, context, data)
    }

    fn handle_event(&mut self, event: Event, context: &mut WidgetContext, data: Key<String>) -> (r:
        (EventResponse, Key<String>)) {
        let mut data = data;
        if let Event::KeyDown(key_event) = &event {
            match key_event.code {
                KeyCode::Backspace => {
                    if !data.get().as_str().is_empty() {
                        let mut value = data.get().clone();
                        pop_char(&mut value);
                        data.set(value);
                    }
                },
                _ => {
                    if let Some(text) = &key_event.text {
                        let mut value = data.get().clone();
                        push_str(&mut value, text.as_str());
                        data.set(value);
                    }
                },
            }
        }
        (EventResponse::none(), data)
    }

    fn get_pref_size(&mut self, context: &mut WidgetContext, data: &String) -> (r: PrefSize)
        ensures
            *final(self) == *old(self),
            r.min == (Size { width: 80, height: 17 }),
            r.max == (Size { width: 150, height: 17 }),
            r.grow.x.spec_is_zero() && r.grow.y.spec_is_zero(),
    {
        PrefSize::min_max(Size::new(80, 17), Size::new(150, 17))
    }

    fn layout(&mut self, size: Size, context: &mut WidgetContext, data: &String) {
    }

    fn build(&mut self, context: &mut WidgetContext) {
    }

    fn traverse_focus(&mut self, context: &mut WidgetContext) -> (r: bool) {
        self.focused = !self.focused;
        self.focused
    }

    fn update(&mut self, new: &String, old_data: Option<&String>) -> (r: Change)
        ensures
            final(self).spec_label().spec_text() == new@,
            final(self).spec_focused() == old(self).spec_focused(),
            final(self).spec_measure() == old(self).spec_measure(),
            r == Change::Bounds,
    {
        let text = new.clone();
        let width = (self.measure)(&text);
        self.text.set_text(text, width);
        Change::Bounds
    }
}

} // verus!
// A label deriving its text from the bound data.

verus! {

/// A label whose text is a function of the bound data. Deriving the
/// text is the widget's own work; measuring it stays the backend's, so a
/// measuring function accompanies the deriving one.
pub struct DynLabel<T, F, M> {
    label: Label,
    derive_text: F,
    measure: M,
    size: Size,
    _marker: core::marker::PhantomData<T>,
}

/// A deriving function that can always run.
pub open spec fn spec_total_derive<T, F: Fn(&T) -> String>(f: F) -> bool {
    forall|v: &T| #[trigger] call_requires(f, (v,))
}

/// A measuring function that can always run and stays within the
/// coordinate range.
pub open spec fn spec_total_measure<M: Fn(&String) -> i64>(m: M) -> bool {
    &&& forall|s: &String| #[trigger] call_requires(m, (s,))
    &&& forall|s: &String, w: i64| #[trigger] call_ensures(m, (s,), w) ==> 0 <= w <= 0xFFFF_FFFF
}

impl<T, F: Fn(&T) -> String, M: Fn(&String) -> i64> DynLabel<T, F, M> {
    /// A dynamic label from the deriving and measuring functions.
    pub fn new(derive_text: F, measure: M) -> (r: DynLabel<T, F, M>)
        requires
            spec_total_derive::<T, F>(derive_text),
            spec_total_measure::<M>(measure),
        ensures
            r.inv(),
            r.spec_derive() == derive_text,
            r.spec_label().spec_text().len() == 0,
    {
        DynLabel {
            label: Label::new(String::new(), 0),
            derive_text,
            measure,
            size: Size::zero(),
            _marker: core::marker::PhantomData,
        }
    }

    /// The label showing the last derived text.
    pub closed spec fn spec_label(&self) -> Label {
        self.label
    }

    /// The deriving function.
    pub closed spec fn spec_derive(&self) -> F {
        self.derive_text
    }

    /// Rebuilds the label from the current data: afterwards it shows a
    /// text the deriving function can return on `data`.
    fn refresh(&mut self, data: &T)
        requires
            old(self).inv(),
        ensures
            final(self).inv(),
            final(self).spec_derive() == old(self).spec_derive(),
            exists|t: String|
                {
                    &&& #[trigger] call_ensures(old(self).spec_derive(), (data,), t)
                    &&& final(self).spec_label().spec_text() == t@
                },
    {
        let text = (self.derive_text)(data);
        let ghost derived = text;
        let width = (self.measure)(&text);
        self.label.set_text(text, width);
        proof {
            assert(call_ensures(old(self).spec_derive(), (data,), derived));
        }
    }
}

impl<T, F: Fn(&T) -> String, M: Fn(&String) -> i64> Widget<T> for DynLabel<T, F, M> {
    closed spec fn inv(&self) -> bool {
        &&& self.label.wf()
        &&& self.size.wf()
        &&& spec_total_derive::<T, F>(self.derive_text)
        &&& spec_total_measure::<M>(self.measure)
    }

    open spec fn spec_handle(&self, event: Event, data: Key<T>, post: Self, r: (
        EventResponse,
        Key<T>,
    )) -> bool {
        spec_inert_handle(*self, data, post, r)
    }

    open spec fn spec_traverse(&self, post: Self, took: bool) -> bool {
        spec_inert_traverse(*self, post, took)
    }

    fn draw(
        &mut self,
        painter: &mut Painter,
        size: Size,
        dirty_rect: Rect,
        context: &mut WidgetContext,
        data: &T,
    )
        ensures
            *final(self) == *old(self),
            final(painter).cmds@.len() == old(painter).cmds@.len() + 1,
            match final(painter).cmds@.last() {
                PaintCmd::Text { origin, text, color } => {
                    &&& origin == (Vec2 { x: 4, y: 13 }).spec_vadd(old(painter).offset)
                    &&& text@ == old(self).spec_label().spec_text()
                    &&& color == (Color { rgba: 0xFFFF_FFFFu32 })
                },
                _ => false,
            },
    {
        self.label.draw(painter, size, dirty_rect, context, data)
    }

    fn handle_event(&mut self, event: Event, context: &mut WidgetContext, data: Key<T>) -> (r: (
        EventResponse,
        Key<T>,
    )) {
        (EventResponse::none(), data)
    }

    fn get_pref_size(&mut self, context: &mut WidgetContext, data: &T) -> (r: PrefSize)
        ensures
            final(self).spec_derive() == old(self).spec_derive(),
            exists|t: String|
                {
                    &&& #[trigger] call_ensures(old(self).spec_derive(), (data,), t)
                    &&& final(self).spec_label().spec_text() == t@
                },
            r.min == (Size {
                width: (final(self).spec_label().spec_width() + 8) as i64,
                height: 17,
            }),
            r.max == r.min,
    {
        self.refresh(data);
        self.label.get_pref_size(context, data)
    }

    fn layout(&mut self, size: Size, context: &mut WidgetContext, data: &T) {
        self.size = size;
    }

    fn build(&mut self, context: &mut WidgetContext) {
    }

    fn traverse_focus(&mut self, context: &mut WidgetContext) -> (r: bool) {
        false
    }

    fn update(&mut self, new: &T, old_data: Option<&T>) -> (r: Change)
        ensures
            final(self).spec_derive() == old(self).spec_derive(),
            exists|t: String|
                {
                    &&& #[trigger] call_ensures(old(self).spec_derive(), (new,), t)
                    &&& final(self).spec_label().spec_text() == t@
                },
            r == Change::Bounds,
    {
        self.refresh(new);
        Change::Bounds
    }
}

} // verus!
