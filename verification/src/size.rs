//! Preferred-size constraints and their algebra.
//!
//! A [`PrefSize`] carries a minimum size, a maximum size and a per-axis
//! growth weight. Growth weights form three classes: not growing at all,
//! growing only if leftover space must go somewhere ([`Grow::if_needed`]),
//! and competing for leftover space with a proportional weight
//! ([`Grow::normal`]). The passive class is kept strictly apart from the
//! other two by an explicit infinitesimal component instead of a tiny
//! floating-point epsilon: a weight is `units + eps * ε` for an
//! infinitesimal `ε`, ordered lexicographically.

use vstd::prelude::*;
use crate::geom::{Size, spec_sat_add, sat_add, max_i64, min_i64, COORD_LIMIT};

verus! {

/// A growth weight on one axis: `units + eps * ε` for an infinitesimal `ε`.
#[derive(Clone, Copy, PartialEq, Eq, Structural, Debug)]
pub struct Grow {
    /// Proportional share of leftover space.
    pub units: i64,
    /// Number of passive ("grow if needed") contributors.
    pub eps: i64,
}

impl Grow {
    /// Non-negative components within the representable range.
    pub open spec fn wf(self) -> bool {
        0 <= self.units <= COORD_LIMIT && 0 <= self.eps <= COORD_LIMIT
    }

    /// The weight is exactly zero: the axis never grows.
    pub open spec fn spec_is_zero(self) -> bool {
        self.units == 0 && self.eps == 0
    }

    /// Whether the axis never accepts leftover space.
    pub fn is_zero(self) -> (r: bool)
        ensures
            r == self.spec_is_zero(),
    {
        self.units == 0 && self.eps == 0
    }

    /// The zero weight.
    pub fn none() -> (r: Grow)
        ensures
            r.units == 0 && r.eps == 0,
            r.wf(),
    {
        Grow { units: 0, eps: 0 }
    }

    /// The passive weight: absorbs leftover space without competing.
    pub fn if_needed() -> (r: Grow)
        ensures
            r.units == 0 && r.eps == 1,
            r.wf(),
    {
        Grow { units: 0, eps: 1 }
    }

    /// The standard competing weight.
    pub fn normal() -> (r: Grow)
        ensures
            r.units == 1 && r.eps == 0,
            r.wf(),
    {
        Grow { units: 1, eps: 0 }
    }

    /// Sum of two weights (componentwise, saturating).
    pub open spec fn spec_add(self, other: Grow) -> Grow {
        Grow {
            units: spec_sat_add(self.units as int, other.units as int) as i64,
            eps: spec_sat_add(self.eps as int, other.eps as int) as i64,
        }
    }

    /// Adds two weights.
    pub fn add(self, other: Grow) -> (r: Grow)
        requires
            self.wf(),
            other.wf(),
        ensures
            r == self.spec_add(other),
            r.wf(),
    {
        Grow { units: sat_add(self.units, other.units), eps: sat_add(self.eps, other.eps) }
    }

    /// Lexicographic order: the `units` part dominates any number of `eps`.
    pub open spec fn spec_le(self, other: Grow) -> bool {
        self.units < other.units || (self.units == other.units && self.eps <= other.eps)
    }

    /// The larger weight in the lexicographic order.
    pub open spec fn spec_max(self, other: Grow) -> Grow {
        if self.spec_le(other) {
            other
        } else {
            self
        }
    }

    /// The smaller weight in the lexicographic order.
    pub open spec fn spec_min(self, other: Grow) -> Grow {
        if self.spec_le(other) {
            self
        } else {
            other
        }
    }

    /// Maximum of two weights.
    pub fn max(self, other: Grow) -> (r: Grow)
        ensures
            r == self.spec_max(other),
    {
        if self.units < other.units || (self.units == other.units && self.eps <= other.eps) {
            other
        } else {
            self
        }
    }

    /// Minimum of two weights.
    pub fn min(self, other: Grow) -> (r: Grow)
        ensures
            r == self.spec_min(other),
    {
        if self.units < other.units || (self.units == other.units && self.eps <= other.eps) {
            self
        } else {
            other
        }
    }
}

/// Growth weights for both axes.
#[derive(Clone, Copy, PartialEq, Eq, Structural, Debug)]
pub struct Grow2 {
    pub x: Grow,
    pub y: Grow,
}

impl Grow2 {
    /// Both axes well-formed.
    pub open spec fn wf(self) -> bool {
        self.x.wf() && self.y.wf()
    }

    /// No growth on either axis.
    pub fn none() -> (r: Grow2)
        ensures
            r.x.spec_is_zero() && r.y.spec_is_zero(),
            r.wf(),
    {
        Grow2 { x: Grow::none(), y: Grow::none() }
    }

    /// Builds a weight pair.
    pub fn new(x: Grow, y: Grow) -> (r: Grow2)
        ensures
            r.x == x && r.y == y,
    {
        Grow2 { x, y }
    }
}

/// A widget's reported size constraint: minimum, maximum and growth.
///
/// `normalized()` additionally asserts `min <= max` componentwise; every
/// constructor establishes it and [`PrefSize::max_max_size`] restores it
/// after a combinator lowered the maximum.
#[derive(Clone, Copy, PartialEq, Eq, Structural, Debug)]
pub struct PrefSize {
    pub min: Size,
    pub max: Size,
    pub grow: Grow2,
}

/// The zero preference: no space wanted, no growth.
pub open spec fn spec_zero_pref() -> PrefSize {
    PrefSize {
        min: Size { width: 0, height: 0 },
        max: Size { width: 0, height: 0 },
        grow: Grow2 { x: Grow { units: 0, eps: 0 }, y: Grow { units: 0, eps: 0 } },
    }
}

/// A size with each negative component floored at zero.
pub open spec fn spec_expand(s: Size) -> Size {
    Size {
        width: if s.width >= 0 { s.width } else { 0 },
        height: if s.height >= 0 { s.height } else { 0 },
    }
}

/// Componentwise maximum of two sizes.
pub open spec fn spec_size_max(a: Size, b: Size) -> Size {
    Size {
        width: if a.width >= b.width { a.width } else { b.width },
        height: if a.height >= b.height { a.height } else { b.height },
    }
}

/// Componentwise minimum of two sizes.
pub open spec fn spec_size_min(a: Size, b: Size) -> Size {
    Size {
        width: if a.width <= b.width { a.width } else { b.width },
        height: if a.height <= b.height { a.height } else { b.height },
    }
}

/// Row composition: widths add, heights take the maximum, horizontal
/// growth adds, vertical growth takes the maximum.
pub open spec fn spec_row(a: PrefSize, b: PrefSize) -> PrefSize {
    PrefSize {
        min: Size {
            width: spec_sat_add(a.min.width as int, b.min.width as int) as i64,
            height: spec_size_max(a.min, b.min).height,
        },
        max: Size {
            width: spec_sat_add(a.max.width as int, b.max.width as int) as i64,
            height: spec_size_max(a.max, b.max).height,
        },
        grow: Grow2 { x: a.grow.x.spec_add(b.grow.x), y: a.grow.y.spec_max(b.grow.y) },
    }
}

/// Column composition: the dual of [`spec_row`].
pub open spec fn spec_column(a: PrefSize, b: PrefSize) -> PrefSize {
    PrefSize {
        min: Size {
            width: spec_size_max(a.min, b.min).width,
            height: spec_sat_add(a.min.height as int, b.min.height as int) as i64,
        },
        max: Size {
            width: spec_size_max(a.max, b.max).width,
            height: spec_sat_add(a.max.height as int, b.max.height as int) as i64,
        },
        grow: Grow2 { x: a.grow.x.spec_max(b.grow.x), y: a.grow.y.spec_add(b.grow.y) },
    }
}

/// Stack composition for overlapping layers: componentwise maximum of
/// minimum, maximum and growth.
pub open spec fn spec_stacked(a: PrefSize, b: PrefSize) -> PrefSize {
    PrefSize {
        min: spec_size_max(a.min, b.min),
        max: spec_size_max(a.max, b.max),
        grow: Grow2 { x: a.grow.x.spec_max(b.grow.x), y: a.grow.y.spec_max(b.grow.y) },
    }
}

impl PrefSize {
    /// Sizes and growth within range.
    pub open spec fn wf(self) -> bool {
        self.min.wf() && self.max.wf() && self.grow.wf()
    }

    /// Well-formed with `min <= max` componentwise.
    pub open spec fn normalized(self) -> bool {
        &&& self.wf()
        &&& self.min.width <= self.max.width
        &&& self.min.height <= self.max.height
    }

    /// A constraint fixed to exactly `size` (floored at zero), not growing.
    pub fn fixed(size: Size) -> (r: PrefSize)
        requires
            size.width <= COORD_LIMIT,
            size.height <= COORD_LIMIT,
        ensures
            r.min.width as int == if size.width >= 0 { size.width as int } else { 0 },
            r.min.height as int == if size.height >= 0 { size.height as int } else { 0 },
            r.max == r.min,
            r.grow.x.spec_is_zero() && r.grow.y.spec_is_zero(),
            r.normalized(),
    {
        let expanded = Size {
            width: max_i64(size.width, 0),
            height: max_i64(size.height, 0),
        };
        PrefSize { min: expanded, max: expanded, grow: Grow2::none() }
    }

    /// A constraint ranging between `min` and `max` (each floored at
    /// zero), not growing.
    pub fn min_max(min: Size, max: Size) -> (r: PrefSize)
        requires
            min.width <= COORD_LIMIT,
            min.height <= COORD_LIMIT,
            max.width <= COORD_LIMIT,
            max.height <= COORD_LIMIT,
        ensures
            r.min == spec_expand(min),
            r.max == spec_size_max(spec_expand(max), spec_expand(min)),
            r.grow.x.spec_is_zero() && r.grow.y.spec_is_zero(),
            r.normalized(),
    {
        PrefSize::new(min, max, Grow2::none())
    }

    /// A constraint from all three parts: negative size components are
    /// floored at zero, and the maximum is raised to the minimum where
    /// it falls below it.
    pub fn new(min: Size, max: Size, grow: Grow2) -> (r: PrefSize)
        requires
            min.width <= COORD_LIMIT,
            min.height <= COORD_LIMIT,
            max.width <= COORD_LIMIT,
            max.height <= COORD_LIMIT,
            grow.wf(),
        ensures
            r.min == spec_expand(min),
            r.max == spec_size_max(spec_expand(max), spec_expand(min)),
            r.grow == grow,
            r.normalized(),
    {
        let emin = Size { width: max_i64(min.width, 0), height: max_i64(min.height, 0) };
        let emax = Size { width: max_i64(max.width, 0), height: max_i64(max.height, 0) };
        let mut this = PrefSize { min: emin, max: emax, grow };
        this.max_max_size(emin);
        this
    }

    /// A constraint between zero and `size` that passively absorbs
    /// leftover space on both axes.
    pub fn flexible(size: Size) -> (r: PrefSize)
        requires
            size.wf(),
        ensures
            r.min == (Size { width: 0, height: 0 }),
            r.max == size,
            r.grow.x == (Grow { units: 0, eps: 1 }),
            r.grow.y == (Grow { units: 0, eps: 1 }),
            r.normalized(),
    {
        PrefSize::new(Size::zero(), size, Grow2::new(Grow::if_needed(), Grow::if_needed()))
    }

    /// The zero constraint.
    pub fn zero() -> (r: PrefSize)
        ensures
            r.min == (Size { width: 0, height: 0 }),
            r.max == r.min,
            r.grow.x.spec_is_zero() && r.grow.y.spec_is_zero(),
            r.normalized(),
    {
        PrefSize::fixed(Size::zero())
    }

    /// This constraint, competing for leftover space on both axes.
    pub fn growing(self) -> (r: PrefSize)
        requires
            self.wf(),
        ensures
            r.min == self.min && r.max == self.max,
            r.grow.x == self.grow.x.spec_max(Grow { units: 1, eps: 0 }),
            r.grow.y == self.grow.y.spec_max(Grow { units: 1, eps: 0 }),
            r.wf(),
            self.normalized() ==> r.normalized(),
    {
        let mut this = self;
        this.set_grow_y();
        this.set_grow_x();
        this
    }

    /// This constraint, passively absorbing leftover space on both axes.
    pub fn grow_if_needed(self) -> (r: PrefSize)
        requires
            self.wf(),
        ensures
            r.min == self.min && r.max == self.max,
            r.grow.x == self.grow.x.spec_max(Grow { units: 0, eps: 1 }),
            r.grow.y == self.grow.y.spec_max(Grow { units: 0, eps: 1 }),
            r.wf(),
            self.normalized() ==> r.normalized(),
    {
        let mut this = self;
        this.grow_needed_y();
        this.grow_needed_x();
        this
    }

    /// Extends this constraint to the right by `other`.
    pub fn row(&mut self, other: PrefSize)
        requires
            old(self).wf(),
            other.wf(),
        ensures
            *final(self) == spec_row(*old(self), other),
            final(self).wf(),
            old(self).normalized() && other.normalized() ==> final(self).normalized(),
    {
        self.min.width = sat_add(self.min.width, other.min.width);
        self.min.height = max_i64(self.min.height, other.min.height);
        self.max.width = sat_add(self.max.width, other.max.width);
        self.max.height = max_i64(self.max.height, other.max.height);
        self.grow.x = self.grow.x.add(other.grow.x);
        self.grow.y = self.grow.y.max(other.grow.y);
    }

    /// Extends this constraint downward by `other`.
    pub fn column(&mut self, other: PrefSize)
        requires
            old(self).wf(),
            other.wf(),
        ensures
            *final(self) == spec_column(*old(self), other),
            final(self).wf(),
            old(self).normalized() && other.normalized() ==> final(self).normalized(),
    {
        self.min.width = max_i64(self.min.width, other.min.width);
        self.min.height = sat_add(self.min.height, other.min.height);
        self.max.width = max_i64(self.max.width, other.max.width);
        self.max.height = sat_add(self.max.height, other.max.height);
        self.grow.x = self.grow.x.max(other.grow.x);
        self.grow.y = self.grow.y.add(other.grow.y);
    }

    /// Overlays this constraint with `other`.
    pub fn stacked(self, other: PrefSize) -> (r: PrefSize)
        requires
            self.wf(),
            other.wf(),
        ensures
            r == spec_stacked(self, other),
            r.wf(),
            self.normalized() && other.normalized() ==> r.normalized(),
    {
        PrefSize {
            min: Size {
                width: max_i64(self.min.width, other.min.width),
                height: max_i64(self.min.height, other.min.height),
            },
            max: Size {
                width: max_i64(self.max.width, other.max.width),
                height: max_i64(self.max.height, other.max.height),
            },
            grow: Grow2 { x: self.grow.x.max(other.grow.x), y: self.grow.y.max(other.grow.y) },
        }
    }

    /// Adds `size` (floored at zero) to both the minimum and the maximum,
    /// as a wrapper's padding does.
    pub fn resize(&mut self, size: Size)
        requires
            old(self).wf(),
            size.width <= COORD_LIMIT,
            size.height <= COORD_LIMIT,
        ensures
            final(self).min.width as int == spec_sat_add(old(self).min.width as int, if size.width >= 0 { size.width as int } else { 0 }),
            final(self).min.height as int == spec_sat_add(old(self).min.height as int, if size.height >= 0 { size.height as int } else { 0 }),
            final(self).max.width as int == spec_sat_add(old(self).max.width as int, if size.width >= 0 { size.width as int } else { 0 }),
            final(self).max.height as int == spec_sat_add(old(self).max.height as int, if size.height >= 0 { size.height as int } else { 0 }),
            final(self).grow == old(self).grow,
            final(self).wf(),
            old(self).normalized() ==> final(self).normalized(),
    {
        let expanded = Size {
            width: max_i64(size.width, 0),
            height: max_i64(size.height, 0),
        };
        self.min = self.min.add(expanded);
        self.max = self.max.add(expanded);
    }

    /// Raises the minimum to at least `size`.
    pub fn max_min_size(&mut self, size: Size)
        requires
            old(self).wf(),
            size.wf(),
        ensures
            final(self).min == spec_size_max(old(self).min, size),
            final(self).max == old(self).max,
            final(self).grow == old(self).grow,
            final(self).wf(),
    {
        self.min = Size {
            width: max_i64(self.min.width, size.width),
            height: max_i64(self.min.height, size.height),
        };
    }

    /// Lowers the minimum to at most `size`.
    pub fn min_min_size(&mut self, size: Size)
        requires
            old(self).wf(),
            size.wf(),
        ensures
            final(self).min == spec_size_min(old(self).min, size),
            final(self).max == old(self).max,
            final(self).grow == old(self).grow,
            final(self).wf(),
            old(self).normalized() ==> final(self).normalized(),
    {
        self.min = Size {
            width: min_i64(self.min.width, size.width),
            height: min_i64(self.min.height, size.height),
        };
    }

    /// Raises the maximum to at least `size`; with `size == self.min` this
    /// restores normalization.
    pub fn max_max_size(&mut self, size: Size)
        requires
            old(self).wf(),
            size.wf(),
        ensures
            final(self).max == spec_size_max(old(self).max, size),
            final(self).min == old(self).min,
            final(self).grow == old(self).grow,
            final(self).wf(),
    {
        self.max = Size {
            width: max_i64(self.max.width, size.width),
            height: max_i64(self.max.height, size.height),
        };
    }

    /// Lowers the maximum to at most `size`.
    pub fn min_max_size(&mut self, size: Size)
        requires
            old(self).wf(),
            size.wf(),
        ensures
            final(self).max == spec_size_min(old(self).max, size),
            final(self).min == old(self).min,
            final(self).grow == old(self).grow,
            final(self).wf(),
    {
        self.max = Size {
            width: min_i64(self.max.width, size.width),
            height: min_i64(self.max.height, size.height),
        };
    }

    /// Raises each growth weight to at least the one in `grow`.
    pub fn max_grow(&mut self, grow: Grow2)
        requires
            old(self).wf(),
            grow.wf(),
        ensures
            final(self).grow.x == old(self).grow.x.spec_max(grow.x),
            final(self).grow.y == old(self).grow.y.spec_max(grow.y),
            final(self).min == old(self).min,
            final(self).max == old(self).max,
            final(self).wf(),
            old(self).normalized() ==> final(self).normalized(),
    {
        self.grow = Grow2 { x: self.grow.x.max(grow.x), y: self.grow.y.max(grow.y) };
    }

    /// Lowers each growth weight to at most the one in `grow`.
    pub fn min_grow(&mut self, grow: Grow2)
        requires
            old(self).wf(),
            grow.wf(),
        ensures
            final(self).grow.x == old(self).grow.x.spec_min(grow.x),
            final(self).grow.y == old(self).grow.y.spec_min(grow.y),
            final(self).min == old(self).min,
            final(self).max == old(self).max,
            final(self).wf(),
            old(self).normalized() ==> final(self).normalized(),
    {
        self.grow = Grow2 { x: self.grow.x.min(grow.x), y: self.grow.y.min(grow.y) };
    }

    /// Competes for leftover horizontal space.
    pub fn set_grow_x(&mut self)
        requires
            old(self).wf(),
        ensures
            final(self).grow.x == old(self).grow.x.spec_max(Grow { units: 1, eps: 0 }),
            final(self).grow.y == old(self).grow.y,
            final(self).min == old(self).min && final(self).max == old(self).max,
            final(self).wf(),
            old(self).normalized() ==> final(self).normalized(),
    {
        self.grow.x = self.grow.x.max(Grow::normal());
    }

    /// Competes for leftover vertical space.
    pub fn set_grow_y(&mut self)
        requires
            old(self).wf(),
        ensures
            final(self).grow.y == old(self).grow.y.spec_max(Grow { units: 1, eps: 0 }),
            final(self).grow.x == old(self).grow.x,
            final(self).min == old(self).min && final(self).max == old(self).max,
            final(self).wf(),
            old(self).normalized() ==> final(self).normalized(),
    {
        self.grow.y = self.grow.y.max(Grow::normal());
    }

    /// Passively absorbs leftover horizontal space.
    pub fn grow_needed_x(&mut self)
        requires
            old(self).wf(),
        ensures
            final(self).grow.x == old(self).grow.x.spec_max(Grow { units: 0, eps: 1 }),
            final(self).grow.y == old(self).grow.y,
            final(self).min == old(self).min && final(self).max == old(self).max,
            final(self).wf(),
            old(self).normalized() ==> final(self).normalized(),
    {
        self.grow.x = self.grow.x.max(Grow::if_needed());
    }

    /// Passively absorbs leftover vertical space.
    pub fn grow_needed_y(&mut self)
        requires
            old(self).wf(),
        ensures
            final(self).grow.y == old(self).grow.y.spec_max(Grow { units: 0, eps: 1 }),
            final(self).grow.x == old(self).grow.x,
            final(self).min == old(self).min && final(self).max == old(self).max,
            final(self).wf(),
            old(self).normalized() ==> final(self).normalized(),
    {
        self.grow.y = self.grow.y.max(Grow::if_needed());
    }

    /// Never grows horizontally.
    pub fn dont_grow_x(&mut self)
        requires
            old(self).wf(),
        ensures
            final(self).grow.x.spec_is_zero(),
            final(self).grow.y == old(self).grow.y,
            final(self).min == old(self).min && final(self).max == old(self).max,
            final(self).wf(),
            old(self).normalized() ==> final(self).normalized(),
    {
        self.grow.x = Grow::none();
    }

    /// Never grows vertically.
    pub fn dont_grow_y(&mut self)
        requires
            old(self).wf(),
        ensures
            final(self).grow.y.spec_is_zero(),
            final(self).grow.x == old(self).grow.x,
            final(self).min == old(self).min && final(self).max == old(self).max,
            final(self).wf(),
            old(self).normalized() ==> final(self).normalized(),
    {
        self.grow.y = Grow::none();
    }
}

/// Law: row composition adds the minimum widths (and the maximum widths),
/// whenever the sums stay representable.
pub proof fn lemma_row_adds_widths(a: PrefSize, b: PrefSize)
    requires
        a.wf(),
        b.wf(),
        a.min.width + b.min.width <= COORD_LIMIT,
        a.max.width + b.max.width <= COORD_LIMIT,
    ensures
        spec_row(a, b).min.width == a.min.width + b.min.width,
        spec_row(a, b).max.width == a.max.width + b.max.width,
{
}

/// Law: stack composition takes the componentwise maximum of the minimum
/// sizes (and of the maximum sizes).
pub proof fn lemma_stacked_is_componentwise_max(a: PrefSize, b: PrefSize)
    ensures
        spec_stacked(a, b).min == spec_size_max(a.min, b.min),
        spec_stacked(a, b).max == spec_size_max(a.max, b.max),
{
}

/// Law: stack composition is commutative on minimum, maximum and growth.
pub proof fn lemma_stacked_commutative(a: PrefSize, b: PrefSize)
    ensures
        spec_stacked(a, b) == spec_stacked(b, a),
{
}

/// Law: stack composition is associative.
pub proof fn lemma_stacked_associative(a: PrefSize, b: PrefSize, c: PrefSize)
    ensures
        spec_stacked(spec_stacked(a, b), c) == spec_stacked(a, spec_stacked(b, c)),
{
}

} // verus!
