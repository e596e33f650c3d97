//! The painting surface as the core sees it: a list of primitive
//! commands in window coordinates, built up under a translation that
//! scoped saves and restores manage. A backend replays the list.

use vstd::prelude::*;
use crate::geom::{Vec2, Rect};

verus! {

/// A solid color, packed as `0xRRGGBBAA`.
#[derive(Clone, Copy, PartialEq, Eq, Structural, Debug)]
pub struct Color {
    pub rgba: u32,
}

impl Color {
    /// A fully opaque color from its three channels.
    pub fn rgb8(r: u8, g: u8, b: u8) -> (c: Color)
        ensures
            c.rgba == r as u32 * 0x100_0000 + g as u32 * 0x1_0000 + b as u32 * 0x100 + 0xFF,
    {
        Color {
            rgba: (r as u32) * 0x100_0000 + (g as u32) * 0x1_0000 + (b as u32) * 0x100 + 0xFF,
        }
    }

    /// An opaque grey.
    pub fn grey8(v: u8) -> (c: Color)
        ensures
            c.rgba == v as u32 * 0x100_0000 + v as u32 * 0x1_0000 + v as u32 * 0x100 + 0xFF,
    {
        Color::rgb8(v, v, v)
    }
}

/// One primitive drawing command, in window coordinates.
#[derive(Clone, Debug)]
pub enum PaintCmd {
    /// Fill a rectangle, optionally with rounded corners.
    FillRect { rect: Rect, color: Color, corner_radius: i64 },
    /// Stroke a rectangle outline of the given line width.
    StrokeRect { rect: Rect, color: Color, line_width: i64, corner_radius: i64 },
    /// Draw a line of text at an origin.
    Text { origin: Vec2, text: String, color: Color },
}

/// The command list under construction, with the current widget-to-
/// window translation and the save stack that scopes it.
pub struct Painter {
    /// The offset currently carrying widget-local points into window
    /// coordinates.
    pub offset: Vec2,
    /// Translations saved by open scopes, outermost first.
    pub saved: Vec<Vec2>,
    /// Commands recorded so far, back to front.
    pub cmds: Vec<PaintCmd>,
}

impl Painter {
    /// Every stored translation stays in range.
    pub open spec fn wf(self) -> bool {
        &&& self.offset.wf()
        &&& forall|i: int| 0 <= i < self.saved@.len() ==> (#[trigger] self.saved@[i]).wf()
    }

    /// A fresh surface at the window origin.
    pub fn new() -> (r: Painter)
        ensures
            r.offset == (Vec2 { x: 0, y: 0 }),
            r.saved@.len() == 0,
            r.cmds@.len() == 0,
            r.wf(),
    {
        Painter { offset: Vec2::zero(), saved: Vec::new(), cmds: Vec::new() }
    }

    /// Opens a scope: the current translation can be restored later.
    pub fn save(&mut self)
        requires
            old(self).wf(),
        ensures
            final(self).offset == old(self).offset,
            final(self).saved@ == old(self).saved@.push(old(self).offset),
            final(self).cmds@ == old(self).cmds@,
            final(self).wf(),
    {
        let offset = self.offset;
        self.saved.push(offset);
    }

    /// Closes the innermost scope, restoring its translation.
    pub fn restore(&mut self)
        requires
            old(self).wf(),
            old(self).saved@.len() > 0,
        ensures
            final(self).offset == old(self).saved@.last(),
            final(self).saved@ == old(self).saved@.drop_last(),
            final(self).cmds@ == old(self).cmds@,
            final(self).wf(),
    {
        let offset = self.saved.pop().unwrap();
        self.offset = offset;
    }

    /// Moves the translation by `v`.
    pub fn translate(&mut self, v: Vec2)
        requires
            old(self).wf(),
            v.wf(),
        ensures
            final(self).offset == old(self).offset.spec_vadd(v),
            final(self).saved@ == old(self).saved@,
            final(self).cmds@ == old(self).cmds@,
            final(self).wf(),
    {
        self.offset = self.offset.add(v);
    }

    /// Records a filled rectangle given in widget-local coordinates.
    pub fn fill_rect(&mut self, rect: Rect, color: Color, corner_radius: i64)
        requires
            old(self).wf(),
            rect.wf(),
        ensures
            final(self).cmds@ == old(self).cmds@.push(
                PaintCmd::FillRect {
                    rect: rect.spec_translate(old(self).offset),
                    color,
                    corner_radius,
                },
            ),
            final(self).offset == old(self).offset,
            final(self).saved@ == old(self).saved@,
            final(self).wf(),
    {
        let placed = rect.translate(self.offset);
        self.cmds.push(PaintCmd::FillRect { rect: placed, color, corner_radius });
    }

    /// Records a stroked rectangle given in widget-local coordinates.
    pub fn stroke_rect(&mut self, rect: Rect, color: Color, line_width: i64, corner_radius: i64)
        requires
            old(self).wf(),
            rect.wf(),
        ensures
            final(self).cmds@ == old(self).cmds@.push(
                PaintCmd::StrokeRect {
                    rect: rect.spec_translate(old(self).offset),
                    color,
                    line_width,
                    corner_radius,
                },
            ),
            final(self).offset == old(self).offset,
            final(self).saved@ == old(self).saved@,
            final(self).wf(),
    {
        let placed = rect.translate(self.offset);
        self.cmds.push(PaintCmd::StrokeRect { rect: placed, color, line_width, corner_radius });
    }

    /// Records a line of text at a widget-local origin.
    pub fn draw_text(&mut self, origin: Vec2, text: String, color: Color)
        requires
            old(self).wf(),
            origin.wf(),
        ensures
            final(self).cmds@ == old(self).cmds@.push(
                PaintCmd::Text { origin: origin.spec_vadd(old(self).offset), text, color },
            ),
            final(self).offset == old(self).offset,
            final(self).saved@ == old(self).saved@,
            final(self).wf(),
    {
        let placed = origin.add(self.offset);
        self.cmds.push(PaintCmd::Text { origin: placed, text, color });
    }
}

} // verus!
