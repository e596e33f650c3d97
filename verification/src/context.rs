//! The scoped geometry context threaded through widget calls: the
//! widget-to-window translation, the widget's allocated size, and the
//! dirty-region and relayout requests it accumulates. A child context is
//! produced by translation without touching the parent; the parent
//! absorbs the child's requests afterwards.

use vstd::prelude::*;
use crate::geom::{Vec2, Size, Rect, spec_sat_add};

verus! {

/// Merge of two optional dirty rectangles: union where both exist.
pub open spec fn spec_merge_dirty(a: Option<Rect>, b: Option<Rect>) -> Option<Rect> {
    match (a, b) {
        (Some(r1), Some(r2)) => Some(r1.spec_union(r2)),
        (Some(r1), None) => Some(r1),
        (None, other) => other,
    }
}

/// The context a widget call runs under.
pub struct WidgetContext {
    /// The offset that carries this widget's coordinates into window
    /// coordinates.
    pub transform: Vec2,
    /// The size allocated to this widget.
    pub size: Size,
    /// The window region known to need repainting, in window coordinates.
    pub dirty: Option<Rect>,
    /// Whether some widget asked for a new layout pass.
    pub need_layout: bool,
}

impl WidgetContext {
    /// Everything within the coordinate range.
    pub open spec fn wf(self) -> bool {
        &&& self.transform.wf()
        &&& self.size.wf()
        &&& match self.dirty {
            Some(r) => r.wf(),
            None => true,
        }
    }

    /// A root context over a window of `size`.
    pub fn new(size: Size) -> (r: WidgetContext)
        requires
            size.wf(),
        ensures
            r.transform == (Vec2 { x: 0, y: 0 }),
            r.size == size,
            r.dirty is None,
            !r.need_layout,
            r.wf(),
    {
        WidgetContext { transform: Vec2::zero(), size, dirty: None, need_layout: false }
    }

    /// The context of a child placed at `translation` with its own size.
    /// The child starts with no pending requests; the parent takes them
    /// over through [`WidgetContext::absorb`].
    pub fn child(&self, translation: Vec2, child_size: Size) -> (r: WidgetContext)
        requires
            self.wf(),
            translation.wf(),
            child_size.wf(),
        ensures
            r.transform == self.transform.spec_vadd(translation),
            r.size == child_size,
            r.dirty is None,
            !r.need_layout,
            r.wf(),
    {
        WidgetContext {
            transform: self.transform.add(translation),
            size: child_size,
            dirty: None,
            need_layout: false,
        }
    }

    /// Takes a child context's requests over into this one.
    pub fn absorb(&mut self, child: WidgetContext)
        requires
            old(self).wf(),
            child.wf(),
        ensures
            final(self).dirty == spec_merge_dirty(old(self).dirty, child.dirty),
            final(self).need_layout == (old(self).need_layout || child.need_layout),
            final(self).transform == old(self).transform,
            final(self).size == old(self).size,
            final(self).wf(),
    {
        match (&self.dirty, &child.dirty) {
            (Some(r1), Some(r2)) => {
                self.dirty = Some(r1.union(*r2));
            },
            (None, Some(r2)) => {
                self.dirty = Some(*r2);
            },
            _ => {},
        }
        self.need_layout = self.need_layout || child.need_layout;
    }

    /// Asks for a new layout pass.
    pub fn request_layout(&mut self)
        requires
            old(self).wf(),
        ensures
            final(self).need_layout,
            final(self).dirty == old(self).dirty,
            final(self).transform == old(self).transform,
            final(self).size == old(self).size,
            final(self).wf(),
    {
        self.need_layout = true;
    }

    /// Asks for a repaint of a widget-local area.
    pub fn request_redraw_area(&mut self, area: Rect)
        requires
            old(self).wf(),
            area.wf(),
        ensures
            final(self).dirty == spec_merge_dirty(
                old(self).dirty,
                Some(area.spec_translate(old(self).transform)),
            ),
            final(self).need_layout == old(self).need_layout,
            final(self).transform == old(self).transform,
            final(self).size == old(self).size,
            final(self).wf(),
    {
        let global = area.translate(self.transform);
        match &self.dirty {
            Some(r1) => {
                self.dirty = Some(r1.union(global));
            },
            None => {
                self.dirty = Some(global);
            },
        }
    }

    /// Asks for a repaint of the whole widget.
    pub fn request_redraw(&mut self)
        requires
            old(self).wf(),
        ensures
            final(self).dirty == spec_merge_dirty(
                old(self).dirty,
                Some(
                    (Rect {
                        x0: 0,
                        y0: 0,
                        x1: old(self).size.width,
                        y1: old(self).size.height,
                    }).spec_translate(old(self).transform),
                ),
            ),
            final(self).need_layout == old(self).need_layout,
            final(self).transform == old(self).transform,
            final(self).size == old(self).size,
            final(self).wf(),
    {
        let area = self.size.to_rect();
        self.request_redraw_area(area);
    }

    /// The widget's own bounds.
    pub fn bbox(&self) -> (r: Rect)
        requires
            self.wf(),
        ensures
            r == (Rect { x0: 0, y0: 0, x1: self.size.width, y1: self.size.height }),
            r.wf(),
    {
        self.size.to_rect()
    }

    /// The widget's bounds in window coordinates.
    pub fn global_bbox(&self) -> (r: Rect)
        requires
            self.wf(),
        ensures
            r == (Rect {
                x0: 0,
                y0: 0,
                x1: self.size.width,
                y1: self.size.height,
            }).spec_translate(self.transform),
            r.wf(),
    {
        let bbox = self.size.to_rect();
        bbox.translate(self.transform)
    }

    /// Whether a widget-local point lies inside the widget.
    pub fn contains(&self, point: Vec2) -> (r: bool)
        requires
            self.wf(),
        ensures
            r == (Rect {
                x0: 0,
                y0: 0,
                x1: self.size.width,
                y1: self.size.height,
            }).spec_contains(point),
    {
        let bbox = self.size.to_rect();
        bbox.contains(point)
    }

    /// The allocated size.
    pub fn size(&self) -> (r: Size)
        ensures
            r == self.size,
    {
        self.size
    }
}

} // verus!
