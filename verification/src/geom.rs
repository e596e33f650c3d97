//! Integer geometry: vectors, sizes and rectangles in layout units.
//!
//! All well-formed coordinates lie in `[-COORD_LIMIT, COORD_LIMIT]`, so the
//! sum of any two fits an `i64`; the arithmetic helpers clamp their results
//! back into that range, keeping well-formedness closed under every
//! operation.

use vstd::prelude::*;

verus! {

/// Largest magnitude a well-formed coordinate may take (2^61).
pub const COORD_LIMIT: i64 = 0x2000_0000_0000_0000;

/// A coordinate within the representable range.
pub open spec fn coord_ok(v: int) -> bool {
    -COORD_LIMIT <= v <= COORD_LIMIT
}

/// Clamp of an arbitrary value into the representable range.
pub open spec fn spec_clamp(v: int) -> int {
    if v < -COORD_LIMIT {
        -COORD_LIMIT as int
    } else if v > COORD_LIMIT {
        COORD_LIMIT as int
    } else {
        v
    }
}

/// Saturating sum of two well-formed coordinates.
pub open spec fn spec_sat_add(a: int, b: int) -> int {
    spec_clamp(a + b)
}

/// Adds two coordinates, saturating at the representable range.
pub fn sat_add(a: i64, b: i64) -> (r: i64)
    requires
        coord_ok(a as int),
        coord_ok(b as int),
    ensures
        r as int == spec_sat_add(a as int, b as int),
        coord_ok(r as int),
{
    let s: i64 = a + b;
    if s < -COORD_LIMIT {
        -COORD_LIMIT
    } else if s > COORD_LIMIT {
        COORD_LIMIT
    } else {
        s
    }
}

/// Subtracts `b` from `a`, saturating at the representable range.
pub fn sat_sub(a: i64, b: i64) -> (r: i64)
    requires
        coord_ok(a as int),
        coord_ok(b as int),
    ensures
        r as int == spec_clamp(a - b),
        coord_ok(r as int),
{
    let s: i64 = a - b;
    if s < -COORD_LIMIT {
        -COORD_LIMIT
    } else if s > COORD_LIMIT {
        COORD_LIMIT
    } else {
        s
    }
}

/// The larger of two coordinates.
pub fn max_i64(a: i64, b: i64) -> (r: i64)
    ensures
        r as int == if a as int >= b as int { a as int } else { b as int },
{
    if a >= b { a } else { b }
}

/// The smaller of two coordinates.
pub fn min_i64(a: i64, b: i64) -> (r: i64)
    ensures
        r as int == if a as int <= b as int { a as int } else { b as int },
{
    if a <= b { a } else { b }
}

/// A translation vector in layout units.
#[derive(Clone, Copy, PartialEq, Eq, Structural, Debug)]
pub struct Vec2 {
    pub x: i64,
    pub y: i64,
}

impl Vec2 {
    /// Both components within the representable range.
    pub open spec fn wf(self) -> bool {
        coord_ok(self.x as int) && coord_ok(self.y as int)
    }

    /// The zero vector.
    pub fn zero() -> (r: Vec2)
        ensures
            r.x == 0 && r.y == 0,
    {
        Vec2 { x: 0, y: 0 }
    }

    /// Builds a vector from its components.
    pub fn new(x: i64, y: i64) -> (r: Vec2)
        ensures
            r.x == x && r.y == y,
    {
        Vec2 { x, y }
    }

    /// The opposite vector.
    pub fn neg(self) -> (r: Vec2)
        requires
            self.wf(),
        ensures
            r.x as int == -(self.x as int),
            r.y as int == -(self.y as int),
            r.wf(),
    {
        Vec2 { x: -self.x, y: -self.y }
    }

    /// Componentwise saturating sum.
    pub open spec fn spec_vadd(self, other: Vec2) -> Vec2 {
        Vec2 {
            x: spec_sat_add(self.x as int, other.x as int) as i64,
            y: spec_sat_add(self.y as int, other.y as int) as i64,
        }
    }

    /// Adds two vectors, saturating componentwise.
    pub fn add(self, other: Vec2) -> (r: Vec2)
        requires
            self.wf(),
            other.wf(),
        ensures
            r == self.spec_vadd(other),
            r.wf(),
    {
        Vec2 { x: sat_add(self.x, other.x), y: sat_add(self.y, other.y) }
    }
}

/// A width/height pair in layout units; well-formed sizes are non-negative.
#[derive(Clone, Copy, PartialEq, Eq, Structural, Debug)]
pub struct Size {
    pub width: i64,
    pub height: i64,
}

impl Size {
    /// Non-negative components within the representable range.
    pub open spec fn wf(self) -> bool {
        0 <= self.width <= COORD_LIMIT && 0 <= self.height <= COORD_LIMIT
    }

    /// The zero size.
    pub fn zero() -> (r: Size)
        ensures
            r.width == 0 && r.height == 0,
            r.wf(),
    {
        Size { width: 0, height: 0 }
    }

    /// Builds a size from its components.
    pub fn new(width: i64, height: i64) -> (r: Size)
        ensures
            r.width == width && r.height == height,
    {
        Size { width, height }
    }

    /// The vector reaching the size's far corner when anchored at the
    /// origin.
    pub fn to_vec2(self) -> (r: Vec2)
        ensures
            r.x == self.width && r.y == self.height,
    {
        Vec2 { x: self.width, y: self.height }
    }

    /// The rectangle from the origin spanned by this size.
    pub fn to_rect(self) -> (r: Rect)
        requires
            self.wf(),
        ensures
            r.x0 == 0 && r.y0 == 0 && r.x1 == self.width && r.y1 == self.height,
            r.wf(),
    {
        Rect { x0: 0, y0: 0, x1: self.width, y1: self.height }
    }

    /// Componentwise saturating sum of two sizes.
    pub fn add(self, other: Size) -> (r: Size)
        requires
            self.wf(),
            other.wf(),
        ensures
            r.width as int == spec_sat_add(self.width as int, other.width as int),
            r.height as int == spec_sat_add(self.height as int, other.height as int),
            r.wf(),
    {
        Size { width: sat_add(self.width, other.width), height: sat_add(self.height, other.height) }
    }

    /// Componentwise difference, floored at zero.
    pub fn sub_clamped(self, other: Size) -> (r: Size)
        requires
            self.wf(),
            other.wf(),
        ensures
            r.width as int == if self.width - other.width >= 0 { self.width - other.width } else { 0 },
            r.height as int == if self.height - other.height >= 0 { self.height - other.height } else { 0 },
            r.wf(),
    {
        Size {
            width: if self.width >= other.width { self.width - other.width } else { 0 },
            height: if self.height >= other.height { self.height - other.height } else { 0 },
        }
    }
}

/// An axis-aligned rectangle; well-formed rectangles are non-degenerate
/// (`x0 <= x1`, `y0 <= y1`) with coordinates in the representable range.
#[derive(Clone, Copy, PartialEq, Eq, Structural, Debug)]
pub struct Rect {
    pub x0: i64,
    pub y0: i64,
    pub x1: i64,
    pub y1: i64,
}

impl Rect {
    /// Ordered edges within the representable range.
    pub open spec fn wf(self) -> bool {
        &&& coord_ok(self.x0 as int)
        &&& coord_ok(self.y0 as int)
        &&& coord_ok(self.x1 as int)
        &&& coord_ok(self.y1 as int)
        &&& self.x0 <= self.x1
        &&& self.y0 <= self.y1
    }

    /// Builds a rectangle from its edges.
    pub fn new(x0: i64, y0: i64, x1: i64, y1: i64) -> (r: Rect)
        ensures
            r.x0 == x0 && r.y0 == y0 && r.x1 == x1 && r.y1 == y1,
    {
        Rect { x0, y0, x1, y1 }
    }

    /// A rectangle at `origin` spanning `size`.
    pub fn from_origin_size(origin: Vec2, size: Size) -> (r: Rect)
        requires
            origin.wf(),
            size.wf(),
        ensures
            r.x0 == origin.x && r.y0 == origin.y,
            r.x1 as int == spec_sat_add(origin.x as int, size.width as int),
            r.y1 as int == spec_sat_add(origin.y as int, size.height as int),
            r.wf(),
    {
        Rect {
            x0: origin.x,
            y0: origin.y,
            x1: sat_add(origin.x, size.width),
            y1: sat_add(origin.y, size.height),
        }
    }

    /// Whether a point lies in the rectangle (edges included).
    pub open spec fn spec_contains(self, p: Vec2) -> bool {
        self.x0 <= p.x <= self.x1 && self.y0 <= p.y <= self.y1
    }

    /// Point-in-rectangle test, edges included.
    pub fn contains(&self, p: Vec2) -> (r: bool)
        ensures
            r == self.spec_contains(p),
    {
        self.x0 <= p.x && p.x <= self.x1 && self.y0 <= p.y && p.y <= self.y1
    }

    /// Whether `other` lies entirely within this rectangle.
    pub open spec fn spec_covers(self, other: Rect) -> bool {
        self.x0 <= other.x0 && self.y0 <= other.y0 && other.x1 <= self.x1 && other.y1 <= self.y1
    }

    /// Rectangle-covers-rectangle test.
    pub fn covers(&self, other: &Rect) -> (r: bool)
        ensures
            r == self.spec_covers(*other),
    {
        self.x0 <= other.x0 && self.y0 <= other.y0 && other.x1 <= self.x1 && other.y1 <= self.y1
    }

    /// The smallest rectangle containing both arguments.
    pub open spec fn spec_union(self, other: Rect) -> Rect {
        Rect {
            x0: if self.x0 <= other.x0 { self.x0 } else { other.x0 },
            y0: if self.y0 <= other.y0 { self.y0 } else { other.y0 },
            x1: if self.x1 >= other.x1 { self.x1 } else { other.x1 },
            y1: if self.y1 >= other.y1 { self.y1 } else { other.y1 },
        }
    }

    /// Union of two rectangles.
    pub fn union(self, other: Rect) -> (r: Rect)
        requires
            self.wf(),
            other.wf(),
        ensures
            r == self.spec_union(other),
            r.wf(),
            r.spec_covers(self),
            r.spec_covers(other),
    {
        Rect {
            x0: min_i64(self.x0, other.x0),
            y0: min_i64(self.y0, other.y0),
            x1: max_i64(self.x1, other.x1),
            y1: max_i64(self.y1, other.y1),
        }
    }

    /// The translate of this rectangle by `amount`, edges saturated.
    pub open spec fn spec_translate(self, amount: Vec2) -> Rect {
        Rect {
            x0: spec_sat_add(self.x0 as int, amount.x as int) as i64,
            y0: spec_sat_add(self.y0 as int, amount.y as int) as i64,
            x1: spec_sat_add(self.x1 as int, amount.x as int) as i64,
            y1: spec_sat_add(self.y1 as int, amount.y as int) as i64,
        }
    }

    /// Translates the rectangle by `amount`.
    pub fn translate(self, amount: Vec2) -> (r: Rect)
        requires
            self.wf(),
            amount.wf(),
        ensures
            r == self.spec_translate(amount),
            r.wf(),
    {
        Rect {
            x0: sat_add(self.x0, amount.x),
            y0: sat_add(self.y0, amount.y),
            x1: sat_add(self.x1, amount.x),
            y1: sat_add(self.y1, amount.y),
        }
    }
}

} // verus!
