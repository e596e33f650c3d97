//! The window driver's decisions: configuration of a new window,
//! synthesis of the internal event stream from raw pointer and key
//! input, and the sizing policies. The platform integration performs the
//! actions these functions decide on.

use vstd::prelude::*;
use crate::geom::{Size, Vec2, max_i64, COORD_LIMIT};
use crate::size::PrefSize;
use crate::event::{Event, MouseEvent, KeyEvent, KeyCode};

verus! {

/// How a window's minimum size is chosen.
#[derive(Clone, Copy, PartialEq, Eq, Structural, Debug)]
pub enum MinSize {
    /// A fixed minimum.
    Fixed(Size),
    /// Derived from the widgets' minimum preferred size.
    WidgetsMinSize,
}

/// Configuration of one window before it opens.
pub struct WindowBuilder {
    pub size: Size,
    pub title: String,
    pub min_size: MinSize,
}

impl WindowBuilder {
    /// The default configuration.
    pub fn new() -> (r: WindowBuilder)
        ensures
            r.size == (Size { width: 640, height: 480 }),
            r.min_size == MinSize::Fixed(Size { width: 0, height: 0 }),
    {
        WindowBuilder {
            size: Size::new(640, 480),
            title: new_app_title(),
            min_size: MinSize::Fixed(Size::zero()),
        }
    }

    /// Sets the window title.
    pub fn title(self, title: String) -> (r: WindowBuilder)
        ensures
            r.title == title,
            r.size == self.size,
            r.min_size == self.min_size,
    {
        WindowBuilder { title, ..self }
    }

    /// Derives the minimum size from the widgets' preference.
    pub fn keep_min_size(self) -> (r: WindowBuilder)
        ensures
            r.min_size == MinSize::WidgetsMinSize,
            r.size == self.size,
            r.title == self.title,
    {
        WindowBuilder { min_size: MinSize::WidgetsMinSize, ..self }
    }

    /// Fixes the minimum size.
    pub fn keep_fixed_min_size(self, size: Size) -> (r: WindowBuilder)
        ensures
            r.min_size == MinSize::Fixed(size),
            r.size == self.size,
            r.title == self.title,
    {
        WindowBuilder { min_size: MinSize::Fixed(size), ..self }
    }

    /// The size a new window opens at: the widgets' preferred maximum,
    /// but at least 200 by 150 units.
    pub fn initial_size(pref: PrefSize) -> (r: Size)
        requires
            pref.normalized(),
        ensures
            r.width as int == if pref.max.width >= 200 { pref.max.width as int } else { 200 },
            r.height as int == if pref.max.height >= 150 { pref.max.height as int } else { 150 },
            r.wf(),
    {
        Size { width: max_i64(pref.max.width, 200), height: max_i64(pref.max.height, 150) }
    }

    /// The minimum size the platform is told: the policy's choice, but
    /// at least 150 by 50 units. The derived policy adds a margin of 20
    /// units to the widgets' minimum.
    pub fn min_window_size(&self, pref: PrefSize) -> (r: Size)
        requires
            pref.normalized(),
        ensures
            ({
                let base = match self.min_size {
                    MinSize::Fixed(s) => s,
                    MinSize::WidgetsMinSize => Size {
                        width: crate::geom::spec_sat_add(pref.min.width as int, 20) as i64,
                        height: crate::geom::spec_sat_add(pref.min.height as int, 20) as i64,
                    },
                };
                r.width as int == if base.width >= 150 { base.width as int } else { 150 }
                    && r.height as int == if base.height >= 50 { base.height as int } else { 50 }
            }),
    {
        let base = match self.min_size {
            MinSize::Fixed(s) => s,
            MinSize::WidgetsMinSize => Size {
                width: crate::geom::sat_add(pref.min.width, 20),
                height: crate::geom::sat_add(pref.min.height, 20),
            },
        };
        Size { width: max_i64(base.width, 150), height: max_i64(base.height, 50) }
    }
}

/// The fallback window title.
fn new_app_title() -> String {
    let title: &str = "App";
    title.to_owned()
}

/// Tracks whether the pointer is inside the window, and turns each raw
/// platform report into the internal events to dispatch, synthesizing
/// the enter before the first positioned event after a leave.
pub struct WindowInput {
    pub mouse_focus: bool,
}

/// The events dispatched for one positioned pointer report.
pub open spec fn spec_pointer_events(focused: bool, make: Event, me: MouseEvent) -> Seq<Event> {
    if focused {
        seq![make]
    } else {
        seq![Event::MouseEnter(me), make]
    }
}

impl WindowInput {
    /// Before the first report the pointer is outside.
    pub fn new() -> (r: WindowInput)
        ensures
            !r.mouse_focus,
    {
        WindowInput { mouse_focus: false }
    }

    /// A pointer move: preceded by an enter while unfocused.
    pub fn mouse_move(&mut self, me: MouseEvent) -> (r: Vec<Event>)
        ensures
            r@ == spec_pointer_events(old(self).mouse_focus, Event::MouseMove(me), me),
            final(self).mouse_focus,
    {
        let mut out: Vec<Event> = Vec::new();
        if !self.mouse_focus {
            out.push(Event::MouseEnter(me));
            self.mouse_focus = true;
        }
        out.push(Event::MouseMove(me));
        proof {
            assert(out@ =~= spec_pointer_events(old(self).mouse_focus, Event::MouseMove(me), me));
        }
        out
    }

    /// A button press: preceded by an enter while unfocused.
    pub fn mouse_down(&mut self, me: MouseEvent) -> (r: Vec<Event>)
        ensures
            r@ == spec_pointer_events(old(self).mouse_focus, Event::MouseDown(me), me),
            final(self).mouse_focus,
    {
        let mut out: Vec<Event> = Vec::new();
        if !self.mouse_focus {
            out.push(Event::MouseEnter(me));
            self.mouse_focus = true;
        }
        out.push(Event::MouseDown(me));
        proof {
            assert(out@ =~= spec_pointer_events(old(self).mouse_focus, Event::MouseDown(me), me));
        }
        out
    }

    /// A button release: preceded by an enter while unfocused.
    pub fn mouse_up(&mut self, me: MouseEvent) -> (r: Vec<Event>)
        ensures
            r@ == spec_pointer_events(old(self).mouse_focus, Event::MouseUp(me), me),
            final(self).mouse_focus,
    {
        let mut out: Vec<Event> = Vec::new();
        if !self.mouse_focus {
            out.push(Event::MouseEnter(me));
            self.mouse_focus = true;
        }
        out.push(Event::MouseUp(me));
        proof {
            assert(out@ =~= spec_pointer_events(old(self).mouse_focus, Event::MouseUp(me), me));
        }
        out
    }

    /// The pointer left the window: an exit while focused, else nothing.
    pub fn mouse_leave(&mut self) -> (r: Option<Event>)
        ensures
            old(self).mouse_focus ==> r == Some(Event::MouseExit),
            !old(self).mouse_focus ==> r is None,
            !final(self).mouse_focus,
    {
        if self.mouse_focus {
            self.mouse_focus = false;
            Some(Event::MouseExit)
        } else {
            None
        }
    }
}

/// What a key press asks the window to do.
#[derive(Clone, Debug)]
pub enum KeyAction {
    /// Move keyboard focus to the next widget.
    TraverseFocus,
    /// Dispatch the event to the widget tree.
    Dispatch(Event),
}

/// The action for a key press: tab traverses focus, everything else is
/// dispatched as a key-down event.
pub fn key_down_action(event: KeyEvent) -> (r: KeyAction)
    ensures
        event.code == KeyCode::Tab ==> r is TraverseFocus,
        event.code != KeyCode::Tab ==> r == KeyAction::Dispatch(Event::KeyDown(event)),
{
    if matches!(event.code, KeyCode::Tab) {
        KeyAction::TraverseFocus
    } else {
        KeyAction::Dispatch(Event::KeyDown(event))
    }
}

} // verus!
