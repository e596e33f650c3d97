//! Box layout strategies: per-child metadata, the [`Layout`] contract a
//! container delegates to, and the horizontal and vertical boxes.

use vstd::prelude::*;
use crate::geom::{Size, Vec2, sat_add, max_i64, min_i64, spec_sat_add, spec_clamp, coord_ok, COORD_LIMIT};
use crate::size::{PrefSize, Grow, Grow2, spec_row, spec_column, spec_zero_pref};
use crate::flex::{
    Spacing,
    MainPref,
    place_main,
    spec_main_size,
    spec_main_offset,
    spec_avail,
    spec_const_padding,
};

verus! {

/// A container's bookkeeping for one child: the strategy's own metadata,
/// the child's placed offset and size, and its cached size preference.
pub struct ChildMeta<Meta> {
    pub meta: Meta,
    pub offset: Vec2,
    pub size: Size,
    pub pref: PrefSize,
}

impl<Meta> ChildMeta<Meta> {
    /// Placement and cached preference within range.
    pub open spec fn wf(self) -> bool {
        self.offset.wf() && self.size.wf() && self.pref.normalized()
    }

    /// Fresh metadata with nothing placed yet.
    pub fn empty(meta: Meta) -> (r: ChildMeta<Meta>)
        ensures
            r.meta == meta,
            r.offset == (Vec2 { x: 0, y: 0 }),
            r.size == (Size { width: 0, height: 0 }),
            r.pref.normalized(),
            r.wf(),
    {
        ChildMeta { meta, offset: Vec2::zero(), size: Size::zero(), pref: PrefSize::zero() }
    }

    /// Metadata from all four parts.
    pub fn new(meta: Meta, offset: Vec2, size: Size, pref_size: PrefSize) -> (r: ChildMeta<Meta>)
        ensures
            r.meta == meta && r.offset == offset && r.size == size && r.pref == pref_size,
    {
        ChildMeta { meta, offset, size, pref: pref_size }
    }
}

/// A position constraint for inserting a child into a box: the desired
/// index, capped at the current child count.
pub struct Index(pub usize);

impl Default for Index {
    /// The default constraint appends at the end.
    fn default() -> (r: Index)
        ensures
            r.0 == usize::MAX,
    {
        Index(usize::MAX)
    }
}

/// The arrangement strategy a container delegates to. The display order
/// of the children is back to front.
pub trait Layout: Sized {
    type Constrain;

    type Meta;

    /// The strategy's structural invariant.
    spec fn inv(&self) -> bool;

    /// How many children the strategy currently tracks.
    spec fn count(&self) -> int;

    /// The preference the strategy combines from the children's
    /// preferences.
    spec fn spec_calc(&self, prefs: Seq<PrefSize>) -> PrefSize;

    /// The combined preference as of the last recomputation.
    spec fn spec_reported(&self) -> PrefSize;

    /// The size the strategy assigns child `i` when distributing `size`
    /// over children with the given preferences.
    spec fn spec_placed_size(&self, prefs: Seq<PrefSize>, size: Size, i: int) -> Size;

    /// The offset the strategy assigns child `i`.
    spec fn spec_placed_offset(&self, prefs: Seq<PrefSize>, size: Size, i: int) -> Vec2;

    /// Registers a child; returns the index it takes and its metadata.
    fn insert(&mut self, constrain: Self::Constrain) -> (r: (u32, Self::Meta))
        requires
            old(self).inv(),
            old(self).count() < 0xFFFF_FFFF,
        ensures
            final(self).inv(),
            final(self).count() == old(self).count() + 1,
            0 <= r.0 as int <= old(self).count(),
    ;

    /// Unregisters the child at `index`.
    fn remove(&mut self, index: u32)
        requires
            old(self).inv(),
            old(self).count() > 0,
        ensures
            final(self).inv(),
            final(self).count() == old(self).count() - 1,
    ;

    /// Unregisters every child.
    fn clear(&mut self)
        requires
            old(self).inv(),
        ensures
            final(self).inv(),
            final(self).count() == 0,
    ;

    /// Whether the strategy may place children on top of each other.
    fn overlaping(&self) -> bool;

    /// Recomputes the combined size preference from the children's
    /// cached preferences.
    fn calc_pref_size(&mut self, widgets: &Vec<ChildMeta<Self::Meta>>) -> (r: PrefSize)
        requires
            old(self).inv(),
            widgets@.len() < 0xFFFF_FFFF,
            forall|i: int| 0 <= i < widgets@.len() ==> (#[trigger] widgets@[i]).pref.normalized(),
        ensures
            final(self).inv(),
            final(self).count() == widgets@.len(),
            r == old(self).spec_calc(prefs_of(widgets@)),
            final(self).spec_reported() == r,
            r.normalized(),
    ;

    /// The combined size preference computed last.
    fn get_pref_size(&self) -> (r: PrefSize)
        requires
            self.inv(),
        ensures
            r == self.spec_reported(),
            r.normalized(),
    ;

    /// Distributes `size` over the children: fills in every child's
    /// offset and size, leaving its metadata and preference alone.
    fn layout(&mut self, size: Size, widgets: &mut Vec<ChildMeta<Self::Meta>>)
        requires
            old(self).inv(),
            size.wf(),
            old(widgets)@.len() < 0xFFFF_FFFF,
            forall|i: int|
                0 <= i < old(widgets)@.len() ==> (#[trigger] old(widgets)@[i]).pref.normalized(),
        ensures
            final(self).inv(),
            final(self).count() == old(self).count(),
            final(widgets)@.len() == old(widgets)@.len(),
            forall|i: int|
                0 <= i < final(widgets)@.len() ==> {
                    &&& (#[trigger] final(widgets)@[i]).meta == old(widgets)@[i].meta
                    &&& final(widgets)@[i].pref == old(widgets)@[i].pref
                    &&& final(widgets)@[i].size == old(self).spec_placed_size(
                        prefs_of(old(widgets)@),
                        size,
                        i,
                    )
                    &&& final(widgets)@[i].offset == old(self).spec_placed_offset(
                        prefs_of(old(widgets)@),
                        size,
                        i,
                    )
                    &&& final(widgets)@[i].offset.wf()
                    &&& final(widgets)@[i].size.wf()
                },
    ;
}

/// The main-axis constraints of a preference sequence, along the x axis.
pub open spec fn main_of_x(prefs: Seq<PrefSize>) -> Seq<MainPref> {
    prefs.map_values(
        |p: PrefSize| MainPref { min: p.min.width, max: p.max.width, grow: p.grow.x },
    )
}

/// The main-axis constraints of a preference sequence, along the y axis.
pub open spec fn main_of_y(prefs: Seq<PrefSize>) -> Seq<MainPref> {
    prefs.map_values(
        |p: PrefSize| MainPref { min: p.min.height, max: p.max.height, grow: p.grow.y },
    )
}

/// The main-axis constraints of the children, read along the x axis.
pub open spec fn main_prefs_x<M>(s: Seq<ChildMeta<M>>) -> Seq<MainPref> {
    s.map_values(
        |cm: ChildMeta<M>|
            MainPref { min: cm.pref.min.width, max: cm.pref.max.width, grow: cm.pref.grow.x },
    )
}

/// The main-axis constraints of the children, read along the y axis.
pub open spec fn main_prefs_y<M>(s: Seq<ChildMeta<M>>) -> Seq<MainPref> {
    s.map_values(
        |cm: ChildMeta<M>|
            MainPref { min: cm.pref.min.height, max: cm.pref.max.height, grow: cm.pref.grow.y },
    )
}

/// A child's size across the box's main axis: children with cross-axis
/// growth fill the allocation (but never fall below their minimum);
/// the others are clamped between their minimum and maximum.
pub open spec fn spec_cross_size(min: int, max: int, grows: bool, avail: int) -> int {
    if grows {
        if avail >= min {
            avail
        } else {
            min
        }
    } else {
        if avail <= min {
            min
        } else if avail >= max {
            max
        } else {
            avail
        }
    }
}

/// Half of `d`, rounded toward zero.
pub open spec fn spec_center(d: int) -> int {
    if d >= 0 {
        d / 2
    } else {
        -((-d) / 2)
    }
}

/// Cross-axis size of one child.
fn cross_size(min: i64, max: i64, grows: bool, avail: i64) -> (r: i64)
    requires
        0 <= min <= max <= COORD_LIMIT,
        0 <= avail <= COORD_LIMIT,
    ensures
        r as int == spec_cross_size(min as int, max as int, grows, avail as int),
        0 <= r <= COORD_LIMIT,
{
    if grows {
        max_i64(avail, min)
    } else {
        max_i64(min_i64(avail, max), min)
    }
}

/// Half of `d`, rounded toward zero.
fn center(d: i64) -> (r: i64)
    requires
        coord_ok(d as int),
    ensures
        r as int == spec_center(d as int),
        coord_ok(r as int),
{
    if d >= 0 {
        (((d as u64) / 2) as i64)
    } else {
        -((((-d) as u64) / 2) as i64)
    }
}

/// The combined row preference of a sequence of children.
pub open spec fn combined_row(s: Seq<PrefSize>) -> PrefSize
    decreases s.len(),
{
    if s.len() == 0 {
        spec_zero_pref()
    } else {
        spec_row(combined_row(s.drop_last()), s.last())
    }
}

/// The combined column preference of a sequence of children.
pub open spec fn combined_column(s: Seq<PrefSize>) -> PrefSize
    decreases s.len(),
{
    if s.len() == 0 {
        spec_zero_pref()
    } else {
        spec_column(combined_column(s.drop_last()), s.last())
    }
}

/// The preferences cached in a children sequence.
pub open spec fn prefs_of<M>(s: Seq<ChildMeta<M>>) -> Seq<PrefSize> {
    s.map_values(|cm: ChildMeta<M>| cm.pref)
}

/// A horizontal box: children side by side, left to right.
pub struct HBox {
    /// Combined preference of the children, without padding.
    pub inner: PrefSize,
    /// Where leftover space goes when no child grows.
    pub spacing: Spacing,
    /// How many children the box tracks.
    pub children: u32,
    /// The fixed padding unit.
    pub padding: i64,
}

impl HBox {
    /// Bounded padding and a sane combined preference.
    pub open spec fn spec_inv(self) -> bool {
        self.inner.normalized() && 0 <= self.padding <= COORD_LIMIT
    }

    /// An empty box with the given spacing policy and padding.
    pub fn new(spacing: Spacing, padding: i64) -> (r: HBox)
        requires
            0 <= padding <= COORD_LIMIT,
        ensures
            r.spacing == spacing,
            r.padding == padding,
            r.children == 0,
            r.inner.normalized(),
            r.spec_inv(),
    {
        HBox { inner: PrefSize::zero(), spacing, children: 0, padding }
    }

    /// The combined preference with the fixed padding added on the main
    /// axis; an empty box wants no space at all.
    pub fn with_const_padding(&self) -> (r: PrefSize)
        requires
            self.spec_inv(),
        ensures
            self.children == 0 ==> r == spec_zero_pref(),
            self.children > 0 ==> {
                let cp = spec_clamp(
                    spec_const_padding(self.spacing, self.children as int, self.padding as int),
                );
                &&& r.min.width as int == spec_sat_add(self.inner.min.width as int, cp)
                &&& r.max.width as int == spec_sat_add(self.inner.max.width as int, cp)
                &&& r.min.height == self.inner.min.height
                &&& r.max.height == self.inner.max.height
                &&& r.grow.x == self.inner.grow.x.spec_max(Grow { units: 1, eps: 0 })
                &&& r.grow.y == self.inner.grow.y
            },
            r.normalized(),
    {
        if self.children == 0 {
            PrefSize::zero()
        } else {
            let cp = self.const_padding();
            let mut pref_size = self.inner;
            pref_size.min.width = sat_add(pref_size.min.width, cp);
            pref_size.max.width = sat_add(pref_size.max.width, cp);
            pref_size.set_grow_x();
            pref_size
        }
    }

    /// The total fixed padding for the current child count, clamped into
    /// the coordinate range.
    pub fn const_padding(&self) -> (r: i64)
        requires
            self.spec_inv(),
        ensures
            r as int == spec_clamp(
                spec_const_padding(self.spacing, self.children as int, self.padding as int),
            ),
            0 <= r <= COORD_LIMIT,
    {
        let factor: i128 = match self.spacing {
            Spacing::Between => if self.children >= 1 {
                (self.children - 1) as i128
            } else {
                0
            },
            Spacing::Padding => self.children as i128,
            Spacing::Around => 2,
            Spacing::Equal => self.children as i128 + 1,
            Spacing::Left => 1,
            Spacing::Right => 1,
        };
        proof {
            assert(0 <= factor * (self.padding as int) <= 0x2_0000_0000 * (COORD_LIMIT as int))
                by (nonlinear_arith)
                requires
                    0 <= factor <= 0x2_0000_0000,
                    0 <= self.padding as int <= COORD_LIMIT,
            ;
        }
        let prod: i128 = factor * (self.padding as i128);
        if prod > COORD_LIMIT as i128 {
            COORD_LIMIT
        } else {
            prod as i64
        }
    }
}

} // verus!
// The horizontal box's strong contracts and its Layout impl.

verus! {

/// What a horizontal box reports as its own preference: the combined
/// row preference plus the fixed padding on the width, competing for
/// leftover width; an empty box wants nothing.
pub open spec fn spec_hbox_reported(inner: PrefSize, sp: Spacing, k: int, pad: int) -> PrefSize {
    if k == 0 {
        spec_zero_pref()
    } else {
        let cp = spec_clamp(spec_const_padding(sp, k, pad));
        PrefSize {
            min: Size {
                width: spec_sat_add(inner.min.width as int, cp) as i64,
                height: inner.min.height,
            },
            max: Size {
                width: spec_sat_add(inner.max.width as int, cp) as i64,
                height: inner.max.height,
            },
            grow: Grow2 { x: inner.grow.x.spec_max(Grow { units: 1, eps: 0 }), y: inner.grow.y },
        }
    }
}

impl HBox {
    /// Recomputes the combined row preference of `widgets` and reports
    /// it with the fixed padding added.
    pub fn pref_size_row<M>(&mut self, widgets: &Vec<ChildMeta<M>>) -> (r: PrefSize)
        requires
            old(self).spec_inv(),
            widgets@.len() < 0xFFFF_FFFF,
            forall|i: int| 0 <= i < widgets@.len() ==> (#[trigger] widgets@[i]).pref.normalized(),
        ensures
            final(self).inner == combined_row(prefs_of(widgets@)),
            final(self).children == widgets@.len(),
            final(self).spacing == old(self).spacing,
            final(self).padding == old(self).padding,
            final(self).spec_inv(),
            r == spec_hbox_reported(
                final(self).inner,
                final(self).spacing,
                final(self).children as int,
                final(self).padding as int,
            ),
            r.normalized(),
    {
        let ghost ps = prefs_of(widgets@);
        let mut inner = PrefSize::zero();
        let mut i: usize = 0;
        while i < widgets.len()
            invariant
                0 <= i <= widgets@.len(),
                ps == prefs_of(widgets@),
                widgets@.len() < 0xFFFF_FFFF,
                forall|j: int|
                    0 <= j < widgets@.len() ==> (#[trigger] widgets@[j]).pref.normalized(),
                inner == combined_row(ps.take(i as int)),
                inner.normalized(),
            decreases widgets@.len() - i,
        {
            proof {
                assert(ps.take(i + 1).drop_last() =~= ps.take(i as int));
                assert(ps.take(i + 1).last() == widgets@[i as int].pref);
            }
            inner.row(widgets[i].pref);
            i += 1;
        }
        proof {
            assert(ps.take(widgets@.len() as int) =~= ps);
        }
        self.inner = inner;
        self.children = widgets.len() as u32;
        self.with_const_padding()
    }

    /// Places the children along the x axis by the main-axis model and
    /// clamps each one's height between its own bounds, centered
    /// vertically. Metadata and cached preferences stay untouched.
    pub fn layout_row<M>(&self, size: Size, widgets: &mut Vec<ChildMeta<M>>)
        requires
            self.spec_inv(),
            size.wf(),
            old(widgets)@.len() < 0xFFFF_FFFF,
            forall|i: int|
                0 <= i < old(widgets)@.len() ==> (#[trigger] old(widgets)@[i]).pref.normalized(),
        ensures
            final(widgets)@.len() == old(widgets)@.len(),
            forall|i: int|
                0 <= i < final(widgets)@.len() ==> {
                    let s = main_prefs_x(old(widgets)@);
                    let pref = old(widgets)@[i].pref;
                    let cm = #[trigger] final(widgets)@[i];
                    &&& cm.meta == old(widgets)@[i].meta
                    &&& cm.pref == pref
                    &&& cm.size.width as int == spec_clamp(
                        spec_main_size(
                            s,
                            spec_avail(
                                self.spacing,
                                s.len() as int,
                                self.padding as int,
                                size.width as int,
                            ),
                            i,
                        ),
                    )
                    &&& cm.size.height as int == spec_cross_size(
                        pref.min.height as int,
                        pref.max.height as int,
                        !pref.grow.y.spec_is_zero(),
                        size.height as int,
                    )
                    &&& cm.offset.x as int == spec_clamp(
                        spec_main_offset(
                            s,
                            self.spacing,
                            self.padding as int,
                            size.width as int,
                            i,
                        ),
                    )
                    &&& cm.offset.y as int == spec_center(size.height - cm.size.height)
                    &&& cm.offset.wf()
                    &&& cm.size.wf()
                },
    {
        let ghost s = main_prefs_x(widgets@);
        let ghost olds = widgets@;
        let k = widgets.len();
        let mut prefs: Vec<MainPref> = Vec::new();
        let mut i: usize = 0;
        while i < k
            invariant
                0 <= i <= k,
                k == widgets@.len(),
                widgets@ == olds,
                s == main_prefs_x(olds),
                forall|j: int| 0 <= j < k ==> (#[trigger] widgets@[j]).pref.normalized(),
                prefs@.len() == i,
                forall|j: int| 0 <= j < i ==> (#[trigger] prefs@[j]) == s[j],
            decreases k - i,
        {
            let pref = widgets[i].pref;
            prefs.push(MainPref { min: pref.min.width, max: pref.max.width, grow: pref.grow.x });
            i += 1;
        }
        proof {
            assert(prefs@ =~= s);
            assert(forall|j: int| 0 <= j < s.len() ==> (#[trigger] s[j]).wf());
        }
        let places = place_main(&prefs, size.width, self.spacing, self.padding);
        let mut j: usize = 0;
        while j < k
            invariant
                0 <= j <= k,
                k == widgets@.len(),
                k == olds.len(),
                k == places@.len(),
                s == main_prefs_x(olds),
                self.spec_inv(),
                size.wf(),
                forall|i2: int| j <= i2 < k ==> (#[trigger] widgets@[i2]) == olds[i2],
                forall|i2: int| 0 <= i2 < k ==> (#[trigger] olds[i2]).pref.normalized(),
                forall|i2: int|
                    0 <= i2 < k ==> (#[trigger] places@[i2]).size as int == spec_clamp(
                        spec_main_size(
                            s,
                            spec_avail(
                                self.spacing,
                                s.len() as int,
                                self.padding as int,
                                size.width as int,
                            ),
                            i2,
                        ),
                    ) && places@[i2].offset as int == spec_clamp(
                        spec_main_offset(
                            s,
                            self.spacing,
                            self.padding as int,
                            size.width as int,
                            i2,
                        ),
                    ) && 0 <= places@[i2].size && 0 <= places@[i2].offset,
                forall|i2: int|
                    0 <= i2 < j ==> {
                        let pref = olds[i2].pref;
                        let cm = #[trigger] widgets@[i2];
                        &&& cm.meta == olds[i2].meta
                        &&& cm.pref == pref
                        &&& cm.size.width == places@[i2].size
                        &&& cm.size.height as int == spec_cross_size(
                            pref.min.height as int,
                            pref.max.height as int,
                            !pref.grow.y.spec_is_zero(),
                            size.height as int,
                        )
                        &&& cm.offset.x == places@[i2].offset
                        &&& cm.offset.y as int == spec_center(size.height - cm.size.height)
                        &&& cm.offset.wf()
                        &&& cm.size.wf()
                    },
            decreases k - j,
        {
            let pref = widgets[j].pref;
            let h = cross_size(
                pref.min.height,
                pref.max.height,
                !pref.grow.y.is_zero(),
                size.height,
            );
            let cy = center(size.height - h);
            let place = places[j];
            widgets[j].size = Size { width: place.size, height: h };
            widgets[j].offset = Vec2 { x: place.offset, y: cy };
            j += 1;
        }
    }
}

impl Default for HBox {
    /// An empty box: equal spacing, padding of ten units.
    fn default() -> (r: HBox)
        ensures
            r.spacing == Spacing::Equal,
            r.padding == 10,
            r.children == 0,
            r.spec_inv(),
    {
        HBox::new(Spacing::Equal, 10)
    }
}

impl Layout for HBox {
    type Constrain = Index;

    type Meta = ();

    open spec fn inv(&self) -> bool {
        self.spec_inv()
    }

    open spec fn count(&self) -> int {
        self.children as int
    }

    open spec fn spec_calc(&self, prefs: Seq<PrefSize>) -> PrefSize {
        spec_hbox_reported(
            combined_row(prefs),
            self.spacing,
            prefs.len() as int,
            self.padding as int,
        )
    }

    open spec fn spec_reported(&self) -> PrefSize {
        spec_hbox_reported(self.inner, self.spacing, self.children as int, self.padding as int)
    }

    open spec fn spec_placed_size(&self, prefs: Seq<PrefSize>, size: Size, i: int) -> Size {
        let s = main_of_x(prefs);
        Size {
            width: spec_clamp(
                spec_main_size(
                    s,
                    spec_avail(self.spacing, s.len() as int, self.padding as int, size.width as int),
                    i,
                ),
            ) as i64,
            height: spec_cross_size(
                prefs[i].min.height as int,
                prefs[i].max.height as int,
                !prefs[i].grow.y.spec_is_zero(),
                size.height as int,
            ) as i64,
        }
    }

    open spec fn spec_placed_offset(&self, prefs: Seq<PrefSize>, size: Size, i: int) -> Vec2 {
        Vec2 {
            x: spec_clamp(
                spec_main_offset(
                    main_of_x(prefs),
                    self.spacing,
                    self.padding as int,
                    size.width as int,
                    i,
                ),
            ) as i64,
            y: spec_center(size.height - self.spec_placed_size(prefs, size, i).height) as i64,
        }
    }

    fn insert(&mut self, constrain: Index) -> (r: (u32, ())) {
        let index = if constrain.0 < self.children as usize {
            constrain.0 as u32
        } else {
            self.children
        };
        self.children = self.children + 1;
        (index, ())
    }

    fn remove(&mut self, index: u32) {
        self.children = self.children - 1;
    }

    fn clear(&mut self) {
        self.children = 0;
    }

    fn overlaping(&self) -> bool {
        false
    }

    fn calc_pref_size(&mut self, widgets: &Vec<ChildMeta<()>>) -> (r: PrefSize) {
        self.pref_size_row(widgets)
    }

    fn get_pref_size(&self) -> (r: PrefSize) {
        self.with_const_padding()
    }

    fn layout(&mut self, size: Size, widgets: &mut Vec<ChildMeta<()>>) {
        proof {
            assert(main_prefs_x(widgets@) =~= main_of_x(prefs_of(widgets@)));
        }
        self.layout_row(size, widgets)
    }
}

} // verus!
// The vertical box: the dual arrangement, top to bottom.

verus! {

/// A vertical box: children stacked top to bottom.
pub struct VBox {
    /// Combined preference of the children, without padding.
    pub inner: PrefSize,
    /// Where leftover space goes when no child grows.
    pub spacing: Spacing,
    /// How many children the box tracks.
    pub children: u32,
    /// The fixed padding unit.
    pub padding: i64,
}

/// What a vertical box reports as its own preference: the combined
/// column preference plus the fixed padding on the height, competing
/// for leftover height; an empty box wants nothing.
pub open spec fn spec_vbox_reported(inner: PrefSize, sp: Spacing, k: int, pad: int) -> PrefSize {
    if k == 0 {
        spec_zero_pref()
    } else {
        let cp = spec_clamp(spec_const_padding(sp, k, pad));
        PrefSize {
            min: Size {
                width: inner.min.width,
                height: spec_sat_add(inner.min.height as int, cp) as i64,
            },
            max: Size {
                width: inner.max.width,
                height: spec_sat_add(inner.max.height as int, cp) as i64,
            },
            grow: Grow2 { x: inner.grow.x, y: inner.grow.y.spec_max(Grow { units: 1, eps: 0 }) },
        }
    }
}

impl VBox {
    /// Bounded padding and a sane combined preference.
    pub open spec fn spec_inv(self) -> bool {
        self.inner.normalized() && 0 <= self.padding <= COORD_LIMIT
    }

    /// An empty box with the given spacing policy and padding.
    pub fn new(spacing: Spacing, padding: i64) -> (r: VBox)
        requires
            0 <= padding <= COORD_LIMIT,
        ensures
            r.spacing == spacing,
            r.padding == padding,
            r.children == 0,
            r.spec_inv(),
    {
        VBox { inner: PrefSize::zero(), spacing, children: 0, padding }
    }

    /// The total fixed padding for the current child count, clamped into
    /// the coordinate range.
    pub fn const_padding(&self) -> (r: i64)
        requires
            self.spec_inv(),
        ensures
            r as int == spec_clamp(
                spec_const_padding(self.spacing, self.children as int, self.padding as int),
            ),
            0 <= r <= COORD_LIMIT,
    {
        let factor: i128 = match self.spacing {
            Spacing::Between => if self.children >= 1 {
                (self.children - 1) as i128
            } else {
                0
            },
            Spacing::Padding => self.children as i128,
            Spacing::Around => 2,
            Spacing::Equal => self.children as i128 + 1,
            Spacing::Left => 1,
            Spacing::Right => 1,
        };
        proof {
            assert(0 <= factor * (self.padding as int) <= 0x2_0000_0000 * (COORD_LIMIT as int))
                by (nonlinear_arith)
                requires
                    0 <= factor <= 0x2_0000_0000,
                    0 <= self.padding as int <= COORD_LIMIT,
            ;
        }
        let prod: i128 = factor * (self.padding as i128);
        if prod > COORD_LIMIT as i128 {
            COORD_LIMIT
        } else {
            prod as i64
        }
    }

    /// The combined preference with the fixed padding added on the main
    /// axis; an empty box wants no space at all.
    pub fn with_const_padding(&self) -> (r: PrefSize)
        requires
            self.spec_inv(),
        ensures
            r == spec_vbox_reported(
                self.inner,
                self.spacing,
                self.children as int,
                self.padding as int,
            ),
            r.normalized(),
    {
        if self.children == 0 {
            PrefSize::zero()
        } else {
            let cp = self.const_padding();
            let mut pref_size = self.inner;
            pref_size.min.height = sat_add(pref_size.min.height, cp);
            pref_size.max.height = sat_add(pref_size.max.height, cp);
            pref_size.set_grow_y();
            pref_size
        }
    }

    /// Recomputes the combined column preference of `widgets` and
    /// reports it with the fixed padding added.
    pub fn pref_size_column<M>(&mut self, widgets: &Vec<ChildMeta<M>>) -> (r: PrefSize)
        requires
            old(self).spec_inv(),
            widgets@.len() < 0xFFFF_FFFF,
            forall|i: int| 0 <= i < widgets@.len() ==> (#[trigger] widgets@[i]).pref.normalized(),
        ensures
            final(self).inner == combined_column(prefs_of(widgets@)),
            final(self).children == widgets@.len(),
            final(self).spacing == old(self).spacing,
            final(self).padding == old(self).padding,
            final(self).spec_inv(),
            r == spec_vbox_reported(
                final(self).inner,
                final(self).spacing,
                final(self).children as int,
                final(self).padding as int,
            ),
            r.normalized(),
    {
        let ghost ps = prefs_of(widgets@);
        let mut inner = PrefSize::zero();
        let mut i: usize = 0;
        while i < widgets.len()
            invariant
                0 <= i <= widgets@.len(),
                ps == prefs_of(widgets@),
                widgets@.len() < 0xFFFF_FFFF,
                forall|j: int|
                    0 <= j < widgets@.len() ==> (#[trigger] widgets@[j]).pref.normalized(),
                inner == combined_column(ps.take(i as int)),
                inner.normalized(),
            decreases widgets@.len() - i,
        {
            proof {
                assert(ps.take(i + 1).drop_last() =~= ps.take(i as int));
                assert(ps.take(i + 1).last() == widgets@[i as int].pref);
            }
            inner.column(widgets[i].pref);
            i += 1;
        }
        proof {
            assert(ps.take(widgets@.len() as int) =~= ps);
        }
        self.inner = inner;
        self.children = widgets.len() as u32;
        self.with_const_padding()
    }

    /// Places the children along the y axis by the main-axis model and
    /// clamps each one's width between its own bounds; children sit at
    /// the left edge. Metadata and cached preferences stay untouched.
    pub fn layout_column<M>(&self, size: Size, widgets: &mut Vec<ChildMeta<M>>)
        requires
            self.spec_inv(),
            size.wf(),
            old(widgets)@.len() < 0xFFFF_FFFF,
            forall|i: int|
                0 <= i < old(widgets)@.len() ==> (#[trigger] old(widgets)@[i]).pref.normalized(),
        ensures
            final(widgets)@.len() == old(widgets)@.len(),
            forall|i: int|
                0 <= i < final(widgets)@.len() ==> {
                    let s = main_prefs_y(old(widgets)@);
                    let pref = old(widgets)@[i].pref;
                    let cm = #[trigger] final(widgets)@[i];
                    &&& cm.meta == old(widgets)@[i].meta
                    &&& cm.pref == pref
                    &&& cm.size.height as int == spec_clamp(
                        spec_main_size(
                            s,
                            spec_avail(
                                self.spacing,
                                s.len() as int,
                                self.padding as int,
                                size.height as int,
                            ),
                            i,
                        ),
                    )
                    &&& cm.size.width as int == spec_cross_size(
                        pref.min.width as int,
                        pref.max.width as int,
                        !pref.grow.x.spec_is_zero(),
                        size.width as int,
                    )
                    &&& cm.offset.y as int == spec_clamp(
                        spec_main_offset(
                            s,
                            self.spacing,
                            self.padding as int,
                            size.height as int,
                            i,
                        ),
                    )
                    &&& cm.offset.x == 0
                    &&& cm.offset.wf()
                    &&& cm.size.wf()
                },
    {
        let ghost s = main_prefs_y(widgets@);
        let ghost olds = widgets@;
        let k = widgets.len();
        let mut prefs: Vec<MainPref> = Vec::new();
        let mut i: usize = 0;
        while i < k
            invariant
                0 <= i <= k,
                k == widgets@.len(),
                widgets@ == olds,
                s == main_prefs_y(olds),
                forall|j: int| 0 <= j < k ==> (#[trigger] widgets@[j]).pref.normalized(),
                prefs@.len() == i,
                forall|j: int| 0 <= j < i ==> (#[trigger] prefs@[j]) == s[j],
            decreases k - i,
        {
            let pref = widgets[i].pref;
            prefs.push(MainPref { min: pref.min.height, max: pref.max.height, grow: pref.grow.y });
            i += 1;
        }
        proof {
            assert(prefs@ =~= s);
            assert(forall|j: int| 0 <= j < s.len() ==> (#[trigger] s[j]).wf());
        }
        let places = place_main(&prefs, size.height, self.spacing, self.padding);
        let mut j: usize = 0;
        while j < k
            invariant
                0 <= j <= k,
                k == widgets@.len(),
                k == olds.len(),
                k == places@.len(),
                s == main_prefs_y(olds),
                self.spec_inv(),
                size.wf(),
                forall|i2: int| j <= i2 < k ==> (#[trigger] widgets@[i2]) == olds[i2],
                forall|i2: int| 0 <= i2 < k ==> (#[trigger] olds[i2]).pref.normalized(),
                forall|i2: int|
                    0 <= i2 < k ==> (#[trigger] places@[i2]).size as int == spec_clamp(
                        spec_main_size(
                            s,
                            spec_avail(
                                self.spacing,
                                s.len() as int,
                                self.padding as int,
                                size.height as int,
                            ),
                            i2,
                        ),
                    ) && places@[i2].offset as int == spec_clamp(
                        spec_main_offset(
                            s,
                            self.spacing,
                            self.padding as int,
                            size.height as int,
                            i2,
                        ),
                    ) && 0 <= places@[i2].size && 0 <= places@[i2].offset,
                forall|i2: int|
                    0 <= i2 < j ==> {
                        let pref = olds[i2].pref;
                        let cm = #[trigger] widgets@[i2];
                        &&& cm.meta == olds[i2].meta
                        &&& cm.pref == pref
                        &&& cm.size.height == places@[i2].size
                        &&& cm.size.width as int == spec_cross_size(
                            pref.min.width as int,
                            pref.max.width as int,
                            !pref.grow.x.spec_is_zero(),
                            size.width as int,
                        )
                        &&& cm.offset.y == places@[i2].offset
                        &&& cm.offset.x == 0
                        &&& cm.offset.wf()
                        &&& cm.size.wf()
                    },
            decreases k - j,
        {
            let pref = widgets[j].pref;
            let w = cross_size(pref.min.width, pref.max.width, !pref.grow.x.is_zero(), size.width);
            let place = places[j];
            widgets[j].size = Size { width: w, height: place.size };
            widgets[j].offset = Vec2 { x: 0, y: place.offset };
            j += 1;
        }
    }
}

impl Default for VBox {
    /// An empty box: children packed to the top, padding of ten units.
    fn default() -> (r: VBox)
        ensures
            r.spacing == Spacing::Left,
            r.padding == 10,
            r.children == 0,
            r.spec_inv(),
    {
        VBox::new(Spacing::Left, 10)
    }
}

impl Layout for VBox {
    type Constrain = Index;

    type Meta = ();

    open spec fn inv(&self) -> bool {
        self.spec_inv()
    }

    open spec fn count(&self) -> int {
        self.children as int
    }

    open spec fn spec_calc(&self, prefs: Seq<PrefSize>) -> PrefSize {
        spec_vbox_reported(
            combined_column(prefs),
            self.spacing,
            prefs.len() as int,
            self.padding as int,
        )
    }

    open spec fn spec_reported(&self) -> PrefSize {
        spec_vbox_reported(self.inner, self.spacing, self.children as int, self.padding as int)
    }

    open spec fn spec_placed_size(&self, prefs: Seq<PrefSize>, size: Size, i: int) -> Size {
        let s = main_of_y(prefs);
        Size {
            width: spec_cross_size(
                prefs[i].min.width as int,
                prefs[i].max.width as int,
                !prefs[i].grow.x.spec_is_zero(),
                size.width as int,
            ) as i64,
            height: spec_clamp(
                spec_main_size(
                    s,
                    spec_avail(
                        self.spacing,
                        s.len() as int,
                        self.padding as int,
                        size.height as int,
                    ),
                    i,
                ),
            ) as i64,
        }
    }

    open spec fn spec_placed_offset(&self, prefs: Seq<PrefSize>, size: Size, i: int) -> Vec2 {
        Vec2 {
            x: 0,
            y: spec_clamp(
                spec_main_offset(
                    main_of_y(prefs),
                    self.spacing,
                    self.padding as int,
                    size.height as int,
                    i,
                ),
            ) as i64,
        }
    }

    fn insert(&mut self, constrain: Index) -> (r: (u32, ())) {
        let index = if constrain.0 < self.children as usize {
            constrain.0 as u32
        } else {
            self.children
        };
        self.children = self.children + 1;
        (index, ())
    }

    fn remove(&mut self, index: u32) {
        self.children = self.children - 1;
    }

    fn clear(&mut self) {
        self.children = 0;
    }

    fn overlaping(&self) -> bool {
        false
    }

    fn calc_pref_size(&mut self, widgets: &Vec<ChildMeta<()>>) -> (r: PrefSize) {
        self.pref_size_column(widgets)
    }

    fn get_pref_size(&self) -> (r: PrefSize) {
        self.with_const_padding()
    }

    fn layout(&mut self, size: Size, widgets: &mut Vec<ChildMeta<()>>) {
        proof {
            assert(main_prefs_y(widgets@) =~= main_of_y(prefs_of(widgets@)));
        }
        self.layout_column(size, widgets)
    }
}

} // verus!
// Strategies usable as plain appending lists.

verus! {

/// A layout strategy that can register children one after another
/// without explicit constraints.
pub trait ListLayout: Layout + Default {
    /// Metadata for the next appended child.
    fn next(&mut self) -> Self::Meta;
}

impl ListLayout for HBox {
    fn next(&mut self) -> Self::Meta {
        ()
    }
}

impl ListLayout for VBox {
    fn next(&mut self) -> Self::Meta {
        ()
    }
}

} // verus!
// Conservation, stated at the box level.

verus! {

use crate::flex::{
    sum_max_exact,
    sat_sum_max,
    spec_sum_sizes,
    spec_total_gaps,
    lemma_box_conservation,
};

/// Law: a horizontal box conserves width. Whenever the allocation covers
/// the children's combined maximum width (with the fixed padding), the
/// widths the box assigns, the policy gaps and the fixed padding sum
/// exactly to the allocated width.
pub proof fn lemma_row_layout_conserves_width<M>(
    metas: Seq<ChildMeta<M>>,
    sp: Spacing,
    pad: int,
    width: int,
)
    requires
        forall|i: int| 0 <= i < metas.len() ==> (#[trigger] metas[i]).pref.normalized(),
        sum_max_exact(main_prefs_x(metas)) <= COORD_LIMIT,
        spec_avail(sp, metas.len() as int, pad, width) >= sat_sum_max(main_prefs_x(metas)),
    ensures
        ({
            let s = main_prefs_x(metas);
            let ap = spec_avail(sp, s.len() as int, pad, width);
            spec_sum_sizes(s, ap, s.len() as int) + spec_total_gaps(s, ap) + spec_const_padding(
                sp,
                s.len() as int,
                pad,
            ) == width
        }),
{
    let s = main_prefs_x(metas);
    assert(forall|i: int| 0 <= i < s.len() ==> (#[trigger] s[i]).wf());
    lemma_box_conservation(s, sp, pad, width);
}

/// Law: a vertical box conserves height, dually.
pub proof fn lemma_column_layout_conserves_height<M>(
    metas: Seq<ChildMeta<M>>,
    sp: Spacing,
    pad: int,
    height: int,
)
    requires
        forall|i: int| 0 <= i < metas.len() ==> (#[trigger] metas[i]).pref.normalized(),
        sum_max_exact(main_prefs_y(metas)) <= COORD_LIMIT,
        spec_avail(sp, metas.len() as int, pad, height) >= sat_sum_max(main_prefs_y(metas)),
    ensures
        ({
            let s = main_prefs_y(metas);
            let ap = spec_avail(sp, s.len() as int, pad, height);
            spec_sum_sizes(s, ap, s.len() as int) + spec_total_gaps(s, ap) + spec_const_padding(
                sp,
                s.len() as int,
                pad,
            ) == height
        }),
{
    let s = main_prefs_y(metas);
    assert(forall|i: int| 0 <= i < s.len() ==> (#[trigger] s[i]).wf());
    lemma_box_conservation(s, sp, pad, height);
}

} // verus!
