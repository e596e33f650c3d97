//! Main-axis space distribution for box layouts.
//!
//! Given one size constraint per child along a box's main axis, an
//! allocated length and a spacing policy, [`place_main`] computes every
//! child's main-axis size and offset:
//!
//! 1. the fixed padding implied by the policy is subtracted;
//! 2. between the combined minimum and maximum, children interpolate
//!    proportionally to their own slack (`max - min`);
//! 3. space beyond the combined maximum goes to the children in
//!    proportion to their growth weights, distributed by prefix shares so
//!    that no unit of space is lost to rounding;
//! 4. with no growing child, the leftover becomes gaps as the
//!    [`Spacing`] policy directs, again by prefix shares.
//!
//! Combined sums saturate at [`COORD_LIMIT`] like the `PrefSize`
//! combinators do; the conservation laws hold whenever the exact sums
//! stay representable.

use vstd::prelude::*;
use vstd::arithmetic::div_mod::{
    lemma_div_is_ordered,
    lemma_div_multiples_vanish,
    lemma_div_pos_is_pos,
    lemma_div_nonincreasing,
};
use vstd::arithmetic::mul::{lemma_mul_inequality, lemma_mul_upper_bound};
use crate::geom::{spec_clamp, COORD_LIMIT};
use crate::size::Grow;

verus! {

/// How a box places its children when leftover space remains and no
/// child wants to grow. With a single child every policy but `Left` and
/// `Right` centers it.
#[derive(Clone, Copy, PartialEq, Eq, Structural, Debug)]
pub enum Spacing {
    /// Space in the gaps between children, none at the ends.
    Between,
    /// Space in the gaps between children and half a gap at each end.
    Padding,
    /// Space at the two ends only.
    Around,
    /// Equal space in every gap and at both ends.
    Equal,
    /// Children packed to the start, space after the last.
    Left,
    /// Children packed to the end, space before the first.
    Right,
}

/// One child's constraint along the main axis.
#[derive(Clone, Copy, PartialEq, Eq, Structural, Debug)]
pub struct MainPref {
    pub min: i64,
    pub max: i64,
    pub grow: Grow,
}

impl MainPref {
    /// Ordered, non-negative and within the coordinate range.
    pub open spec fn wf(self) -> bool {
        0 <= self.min <= self.max <= COORD_LIMIT && self.grow.wf()
    }
}

/// One child's computed place along the main axis.
#[derive(Clone, Copy, PartialEq, Eq, Structural, Debug)]
pub struct MainPlace {
    pub size: i64,
    pub offset: i64,
}

/// Saturating sum of the minimum lengths.
pub open spec fn sat_sum_min(s: Seq<MainPref>) -> int
    decreases s.len(),
{
    if s.len() == 0 {
        0
    } else {
        spec_clamp(sat_sum_min(s.drop_last()) + s.last().min)
    }
}

/// Saturating sum of the maximum lengths.
pub open spec fn sat_sum_max(s: Seq<MainPref>) -> int
    decreases s.len(),
{
    if s.len() == 0 {
        0
    } else {
        spec_clamp(sat_sum_max(s.drop_last()) + s.last().max)
    }
}

/// Saturating sum of the proportional growth weights.
pub open spec fn sat_sum_units(s: Seq<MainPref>) -> int
    decreases s.len(),
{
    if s.len() == 0 {
        0
    } else {
        spec_clamp(sat_sum_units(s.drop_last()) + s.last().grow.units)
    }
}

/// Saturating sum of the passive growth weights.
pub open spec fn sat_sum_eps(s: Seq<MainPref>) -> int
    decreases s.len(),
{
    if s.len() == 0 {
        0
    } else {
        spec_clamp(sat_sum_eps(s.drop_last()) + s.last().grow.eps)
    }
}

/// How many times the fixed padding occurs for `k` children.
///
/// One principle governs every policy: the fixed padding unit occurs
/// exactly where the policy puts its gaps — between children for
/// `Between`, around each child for `Padding`, at the two edges for
/// `Around`, in every slot for `Equal`, and on the one named edge for
/// `Left` and `Right` — so a box never pads an edge its policy keeps
/// flush.
pub open spec fn spec_pad_factor(sp: Spacing, k: int) -> int {
    match sp {
        Spacing::Between => if k >= 1 { k - 1 } else { 0 },
        Spacing::Padding => k,
        Spacing::Around => 2,
        Spacing::Equal => k + 1,
        Spacing::Left => 1,
        Spacing::Right => 1,
    }
}

/// Fixed padding before the first child.
pub open spec fn spec_start_const(sp: Spacing, pad: int) -> int {
    match sp {
        Spacing::Between => 0,
        Spacing::Padding => pad / 2,
        Spacing::Around => pad,
        Spacing::Equal => pad,
        Spacing::Left => pad,
        Spacing::Right => 0,
    }
}

/// Fixed padding between two children.
pub open spec fn spec_mid_const(sp: Spacing, pad: int) -> int {
    match sp {
        Spacing::Between => pad,
        Spacing::Padding => pad,
        Spacing::Around => 0,
        Spacing::Equal => pad,
        Spacing::Left => 0,
        Spacing::Right => 0,
    }
}

/// Total fixed padding for `k` children.
pub open spec fn spec_const_padding(sp: Spacing, k: int, pad: int) -> int {
    spec_pad_factor(sp, k) * pad
}

/// The allocated length left for the children themselves.
pub open spec fn spec_avail(sp: Spacing, k: int, pad: int, avail: int) -> int {
    avail - spec_const_padding(sp, k, pad)
}

/// Combined slack between minimum and maximum.
pub open spec fn spec_den(s: Seq<MainPref>) -> int {
    sat_sum_max(s) - sat_sum_min(s)
}

/// How much of the combined slack the allocation satisfies.
pub open spec fn spec_num(s: Seq<MainPref>, ap: int) -> int {
    if ap <= sat_sum_min(s) {
        0
    } else if ap >= sat_sum_max(s) {
        spec_den(s)
    } else {
        ap - sat_sum_min(s)
    }
}

/// Leftover space beyond the combined maximum.
pub open spec fn spec_remaining(s: Seq<MainPref>, ap: int) -> int {
    if ap >= sat_sum_max(s) {
        ap - sat_sum_max(s)
    } else {
        0
    }
}

/// A child's interpolated length between its minimum and maximum.
pub open spec fn spec_interp(s: Seq<MainPref>, ap: int, i: int) -> int {
    if spec_den(s) > 0 {
        s[i].min + (s[i].max - s[i].min) * spec_num(s, ap) / spec_den(s)
    } else {
        s[i].max as int
    }
}

/// Prefix share of the leftover: the part of `r` owed to the first `i`
/// children under the proportional weights.
pub open spec fn spec_share_units(s: Seq<MainPref>, r: int, i: int) -> int {
    r * sat_sum_units(s.take(i)) / sat_sum_units(s)
}

/// Prefix share of the leftover under the passive weights.
pub open spec fn spec_share_eps(s: Seq<MainPref>, r: int, i: int) -> int {
    r * sat_sum_eps(s.take(i)) / sat_sum_eps(s)
}

/// The extra length child `i` receives from the leftover.
pub open spec fn spec_extra(s: Seq<MainPref>, ap: int, i: int) -> int {
    let r = spec_remaining(s, ap);
    if sat_sum_units(s) > 0 {
        spec_share_units(s, r, i + 1) - spec_share_units(s, r, i)
    } else if sat_sum_eps(s) > 0 {
        spec_share_eps(s, r, i + 1) - spec_share_eps(s, r, i)
    } else {
        0
    }
}

/// Child `i`'s main-axis length before clamping.
pub open spec fn spec_main_size(s: Seq<MainPref>, ap: int, i: int) -> int {
    spec_interp(s, ap, i) + spec_extra(s, ap, i)
}

/// Sum of the first `i` children's lengths.
pub open spec fn spec_sum_sizes(s: Seq<MainPref>, ap: int, i: int) -> int
    decreases i,
{
    if i <= 0 {
        0
    } else {
        spec_sum_sizes(s, ap, i - 1) + spec_main_size(s, ap, i - 1)
    }
}

/// Extra gap space inserted before child `i` when no child grows,
/// cumulative from the start.
pub open spec fn spec_gap_before(sp: Spacing, r: int, k: int, i: int) -> int {
    match sp {
        Spacing::Between => if k == 1 { r / 2 } else { r * i / (k - 1) },
        Spacing::Padding => r * (2 * i + 1) / (2 * k),
        Spacing::Around => r / 2,
        Spacing::Equal => r * (i + 1) / (k + 1),
        Spacing::Left => 0,
        Spacing::Right => r,
    }
}

/// The cumulative policy gap before child `i`: zero while some child
/// grows, since the leftover then goes to the children.
pub open spec fn spec_gap(s: Seq<MainPref>, sp: Spacing, ap: int, i: int) -> int {
    if sat_sum_units(s) == 0 && sat_sum_eps(s) == 0 {
        spec_gap_before(sp, spec_remaining(s, ap), s.len() as int, i)
    } else {
        0
    }
}

/// Child `i`'s main-axis offset before clamping.
pub open spec fn spec_main_offset(s: Seq<MainPref>, sp: Spacing, pad: int, avail: int, i: int) -> int {
    let ap = spec_avail(sp, s.len() as int, pad, avail);
    spec_start_const(sp, pad) + i * spec_mid_const(sp, pad) + spec_sum_sizes(s, ap, i) + spec_gap(
        s,
        sp,
        ap,
        i,
    )
}

/// Unsigned division with its two basic bounds.
fn div_u128(a: u128, b: u128) -> (q: u128)
    requires
        b > 0,
    ensures
        q == a as int / b as int,
        q <= a,
{
    proof {
        lemma_div_nonincreasing(a as int, b as int);
        lemma_div_pos_is_pos(a as int, b as int);
    }
    a / b
}

/// Saturates an `i128` into the coordinate range.
fn sat_i128(v: i128) -> (r: i128)
    ensures
        r as int == spec_clamp(v as int),
{
    if v > COORD_LIMIT as i128 {
        COORD_LIMIT as i128
    } else if v < -(COORD_LIMIT as i128) {
        -(COORD_LIMIT as i128)
    } else {
        v
    }
}

/// Clamps an `i128` into the coordinate range of an `i64`.
fn clamp_i128(v: i128) -> (r: i64)
    ensures
        r as int == spec_clamp(v as int),
{
    if v > COORD_LIMIT as i128 {
        COORD_LIMIT
    } else if v < -(COORD_LIMIT as i128) {
        -COORD_LIMIT
    } else {
        v as i64
    }
}


/// `rem * part / whole` for `part <= whole`: `part`'s share of `rem`.
fn share_of(rem: u128, part: u128, whole: u128) -> (q: u128)
    requires
        whole > 0,
        part <= whole,
        rem <= COORD_LIMIT as u128,
        whole <= 0x4_0000_0000_0000_0000u128,
    ensures
        q == rem as int * part as int / whole as int,
        q <= rem,
{
    proof {
        assert(rem as int * part as int <= 0x8000_0000_0000_0000_0000_0000_0000_0000)
            by (nonlinear_arith)
            requires
                0 <= rem as int,
                rem as int <= 0x2000_0000_0000_0000,
                0 <= part as int,
                part as int <= 0x4_0000_0000_0000_0000,
        ;
        lemma_mul_inequality(part as int, whole as int, rem as int);
        lemma_div_is_ordered(rem as int * part as int, rem as int * whole as int, whole as int);
        lemma_div_multiples_vanish(rem as int, whole as int);
        lemma_div_pos_is_pos(rem as int * part as int, whole as int);
        assert(rem as int * part as int >= 0) by (nonlinear_arith)
            requires
                rem as int >= 0,
                part as int >= 0,
        ;
    }
    rem * part / whole
}

/// Computes every child's main-axis size and offset. Each result is the
/// clamp into the coordinate range of the exact integer model above.
#[verifier::rlimit(100)]
pub fn place_main(prefs: &Vec<MainPref>, avail: i64, sp: Spacing, pad: i64) -> (out: Vec<
    MainPlace,
>)
    requires
        forall|i: int| 0 <= i < prefs@.len() ==> (#[trigger] prefs@[i]).wf(),
        0 <= avail <= COORD_LIMIT,
        0 <= pad <= COORD_LIMIT,
    ensures
        out@.len() == prefs@.len(),
        forall|i: int|
            0 <= i < out@.len() ==> (#[trigger] out@[i]).size as int == spec_clamp(
                spec_main_size(
                    prefs@,
                    spec_avail(sp, prefs@.len() as int, pad as int, avail as int),
                    i,
                ),
            ),
        forall|i: int|
            0 <= i < out@.len() ==> (#[trigger] out@[i]).offset as int == spec_clamp(
                spec_main_offset(prefs@, sp, pad as int, avail as int, i),
            ),
        forall|i: int| 0 <= i < out@.len() ==> 0 <= (#[trigger] out@[i]).size,
        forall|i: int| 0 <= i < out@.len() ==> 0 <= (#[trigger] out@[i]).offset,
{
    let k = prefs.len();
    let ghost s = prefs@;

    // Combined constraint sums, saturated at the coordinate range.
    let mut cmin: i128 = 0;
    let mut cmax: i128 = 0;
    let mut units: i128 = 0;
    let mut eps: i128 = 0;
    let mut i: usize = 0;
    while i < k
        invariant
            0 <= i <= k,
            k == s.len(),
            s == prefs@,
            forall|j: int| 0 <= j < s.len() ==> (#[trigger] s[j]).wf(),
            cmin as int == sat_sum_min(s.take(i as int)),
            cmax as int == sat_sum_max(s.take(i as int)),
            units as int == sat_sum_units(s.take(i as int)),
            eps as int == sat_sum_eps(s.take(i as int)),
            0 <= cmin <= COORD_LIMIT as i128,
            cmin <= cmax <= COORD_LIMIT as i128,
            0 <= units <= COORD_LIMIT as i128,
            0 <= eps <= COORD_LIMIT as i128,
        decreases k - i,
    {
        proof {
            assert(s.take(i + 1).drop_last() =~= s.take(i as int));
            assert(s.take(i + 1).last() == s[i as int]);
        }
        let p = prefs[i];
        cmin = sat_i128(cmin + p.min as i128);
        cmax = sat_i128(cmax + p.max as i128);
        units = sat_i128(units + p.grow.units as i128);
        eps = sat_i128(eps + p.grow.eps as i128);
        i += 1;
    }
    proof {
        assert(s.take(k as int) =~= s);
    }

    // Fixed padding and the length left for the children.
    let factor: i128 = match sp {
        Spacing::Between => if k >= 1 {
            (k - 1) as i128
        } else {
            0
        },
        Spacing::Padding => k as i128,
        Spacing::Around => 2,
        Spacing::Equal => k as i128 + 1,
        Spacing::Left => 1,
        Spacing::Right => 1,
    };
    proof {
        assert(0 <= factor * (pad as int) <= (k as int + 2) * COORD_LIMIT) by (nonlinear_arith)
            requires
                0 <= factor <= k as int + 2,
                0 <= pad as int <= COORD_LIMIT,
        ;
    }
    let cpad: i128 = factor * (pad as i128);
    proof {
        assert(cpad as int == spec_const_padding(sp, k as int, pad as int));
    }
    let ap: i128 = avail as i128 - cpad;
    let ghost ap_g = spec_avail(sp, s.len() as int, pad as int, avail as int);

    let den: i128 = cmax - cmin;
    let num: i128 = if ap <= cmin {
        0
    } else if ap >= cmax {
        den
    } else {
        ap - cmin
    };
    let rem: i128 = if ap >= cmax {
        ap - cmax
    } else {
        0
    };
    proof {
        assert(den as int == spec_den(s));
        assert(num as int == spec_num(s, ap_g));
        assert(rem as int == spec_remaining(s, ap_g));
    }

    let start_c: i64 = match sp {
        Spacing::Between => 0,
        Spacing::Padding => pad / 2,
        Spacing::Around => pad,
        Spacing::Equal => pad,
        Spacing::Left => pad,
        Spacing::Right => 0,
    };
    let mid_c: i64 = match sp {
        Spacing::Between => pad,
        Spacing::Padding => pad,
        Spacing::Around => 0,
        Spacing::Equal => pad,
        Spacing::Left => 0,
        Spacing::Right => 0,
    };

    let mut out: Vec<MainPlace> = Vec::new();
    let mut pu: i128 = 0;  // saturated prefix sum of the unit weights
    let mut pe: i128 = 0;  // saturated prefix sum of the passive weights
    let mut shu: i128 = 0;  // rem * pu / units
    let mut she: i128 = 0;  // rem * pe / eps
    let mut possum: i128 = 0;  // exact sum of the sizes so far
    let mut j: usize = 0;
    while j < k
        invariant
            0 <= j <= k,
            k == s.len(),
            s == prefs@,
            forall|jj: int| 0 <= jj < s.len() ==> (#[trigger] s[jj]).wf(),
            cmin as int == sat_sum_min(s),
            cmax as int == sat_sum_max(s),
            units as int == sat_sum_units(s),
            eps as int == sat_sum_eps(s),
            0 <= cmin <= COORD_LIMIT as i128,
            cmin <= cmax <= COORD_LIMIT as i128,
            0 <= units <= COORD_LIMIT as i128,
            0 <= eps <= COORD_LIMIT as i128,
            den == cmax - cmin,
            den as int == spec_den(s),
            0 <= num <= den,
            num as int == spec_num(s, ap_g),
            0 <= rem <= COORD_LIMIT as i128,
            rem as int == spec_remaining(s, ap_g),
            start_c as int == spec_start_const(sp, pad as int),
            mid_c as int == spec_mid_const(sp, pad as int),
            0 <= start_c <= COORD_LIMIT,
            0 <= mid_c <= COORD_LIMIT,
            ap_g == spec_avail(sp, s.len() as int, pad as int, avail as int),
            pu as int == sat_sum_units(s.take(j as int)),
            pe as int == sat_sum_eps(s.take(j as int)),
            0 <= pu <= units,
            0 <= pe <= eps,
            units > 0 ==> shu as int == spec_share_units(s, rem as int, j as int),
            units == 0 && eps > 0 ==> she as int == spec_share_eps(s, rem as int, j as int),
            0 <= shu <= rem,
            0 <= she <= rem,
            possum as int == spec_sum_sizes(s, ap_g, j as int),
            0 <= possum,
            possum as int <= (j as int) * (COORD_LIMIT as int) + (if units > 0 {
                shu as int
            } else if eps > 0 {
                she as int
            } else {
                0
            }),
            out@.len() == j,
            forall|i2: int|
                0 <= i2 < j ==> (#[trigger] out@[i2]).size as int == spec_clamp(
                    spec_main_size(s, ap_g, i2),
                ),
            forall|i2: int|
                0 <= i2 < j ==> (#[trigger] out@[i2]).offset as int == spec_clamp(
                    spec_main_offset(s, sp, pad as int, avail as int, i2),
                ),
            forall|i2: int| 0 <= i2 < j ==> 0 <= (#[trigger] out@[i2]).size,
            forall|i2: int| 0 <= i2 < j ==> 0 <= (#[trigger] out@[i2]).offset,
        decreases k - j,
    {
        proof {
            assert((j as int) * (COORD_LIMIT as int) <= (k as int) * (COORD_LIMIT as int))
                by (nonlinear_arith)
                requires
                    0 <= j as int <= k as int,
            ;
        }
        let p = prefs[j];

        // Interpolation between the child's minimum and maximum.
        let interp: i128 = if den > 0 {
            let q = share_of((p.max - p.min) as u128, num as u128, den as u128);
            p.min as i128 + q as i128
        } else {
            p.max as i128
        };
        proof {
            assert(interp as int == spec_interp(s, ap_g, j as int));
            assert(p.min as i128 <= interp && interp <= p.max as i128);
        }

        // The child's part of the leftover, by prefix shares.
        proof {
            assert(s.take(j + 1).drop_last() =~= s.take(j as int));
            assert(s.take(j + 1).last() == s[j as int]);
        }
        let pu2: i128 = sat_i128(pu + p.grow.units as i128);
        let pe2: i128 = sat_i128(pe + p.grow.eps as i128);
        proof {
            assert(pu2 as int == sat_sum_units(s.take(j + 1)));
            assert(pe2 as int == sat_sum_eps(s.take(j + 1)));
            lemma_prefix_le_total_units(s, j + 1);
            lemma_prefix_le_total_eps(s, j + 1);
            assert(pu <= pu2 && pe <= pe2);
        }
        let extra: i128 = if units > 0 {
            let shu2: i128 = share_of(rem as u128, pu2 as u128, units as u128) as i128;
            proof {
                lemma_mul_inequality(pu as int, pu2 as int, rem as int);
                lemma_div_is_ordered(
                    (rem as int) * (pu as int),
                    (rem as int) * (pu2 as int),
                    units as int,
                );
                assert(shu <= shu2);
            }
            let e: i128 = shu2 - shu;
            shu = shu2;
            e
        } else if eps > 0 {
            let she2: i128 = share_of(rem as u128, pe2 as u128, eps as u128) as i128;
            proof {
                lemma_mul_inequality(pe as int, pe2 as int, rem as int);
                lemma_div_is_ordered(
                    (rem as int) * (pe as int),
                    (rem as int) * (pe2 as int),
                    eps as int,
                );
                assert(she <= she2);
            }
            let e: i128 = she2 - she;
            she = she2;
            e
        } else {
            0
        };
        pu = pu2;
        pe = pe2;
        proof {
            assert(extra as int == spec_extra(s, ap_g, j as int));
            assert(0 <= extra <= rem);
        }

        let size: i128 = interp + extra;

        // Cumulative policy gap before this child.
        let gap: i128 = if units == 0 && eps == 0 {
            let ru: u128 = rem as u128;
            let g: u128 = match sp {
                Spacing::Between => if k == 1 {
                    div_u128(ru, 2)
                } else {
                    share_of(ru, j as u128, (k - 1) as u128)
                },
                Spacing::Padding => share_of(ru, 2 * (j as u128) + 1, 2 * (k as u128)),
                Spacing::Around => div_u128(ru, 2),
                Spacing::Equal => share_of(ru, (j as u128) + 1, (k as u128) + 1),
                Spacing::Left => 0,
                Spacing::Right => ru,
            };
            g as i128
        } else {
            0
        };
        proof {
            assert(gap as int == spec_gap(s, sp, ap_g, j as int));
            assert(0 <= gap <= rem);
        }

        // Offset: fixed padding, earlier children, cumulative gap.
        proof {
            assert((j as i128) * (mid_c as i128) == (j as int) * (mid_c as int));
            assert(0 <= (j as int) * (mid_c as int)) by (nonlinear_arith)
                requires
                    j as int >= 0,
                    mid_c as int >= 0,
            ;
            assert((j as int) * (mid_c as int) <= (k as int) * (COORD_LIMIT as int))
                by (nonlinear_arith)
                requires
                    0 <= j as int <= k as int,
                    0 <= mid_c as int <= COORD_LIMIT as int,
            ;
        }
        let pos: i128 = start_c as i128 + (j as i128) * (mid_c as i128) + possum + gap;
        proof {
            assert(pos as int == spec_main_offset(s, sp, pad as int, avail as int, j as int));
        }

        out.push(MainPlace { size: clamp_i128(size), offset: clamp_i128(pos) });
        possum = possum + size;
        j += 1;
    }
    out
}

/// Prefix weight sums never exceed the total and stay non-negative.
proof fn lemma_prefix_le_total_units(s: Seq<MainPref>, i: int)
    requires
        0 <= i <= s.len(),
        forall|j: int| 0 <= j < s.len() ==> (#[trigger] s[j]).wf(),
    ensures
        sat_sum_units(s.take(i)) <= sat_sum_units(s),
        0 <= sat_sum_units(s.take(i)),
    decreases s.len() - i,
{
    assert(forall|j: int| 0 <= j < s.take(i).len() ==> (#[trigger] s.take(i)[j]).wf());
    lemma_sat_sum_units_bounds(s.take(i));
    if i < s.len() {
        assert(s.take(i + 1).drop_last() =~= s.take(i));
        lemma_prefix_le_total_units(s, i + 1);
    } else {
        assert(s.take(i) =~= s);
    }
}

/// Prefix passive weight sums never exceed the total.
proof fn lemma_prefix_le_total_eps(s: Seq<MainPref>, i: int)
    requires
        0 <= i <= s.len(),
        forall|j: int| 0 <= j < s.len() ==> (#[trigger] s[j]).wf(),
    ensures
        sat_sum_eps(s.take(i)) <= sat_sum_eps(s),
        0 <= sat_sum_eps(s.take(i)),
    decreases s.len() - i,
{
    assert(forall|j: int| 0 <= j < s.take(i).len() ==> (#[trigger] s.take(i)[j]).wf());
    lemma_sat_sum_eps_bounds(s.take(i));
    if i < s.len() {
        assert(s.take(i + 1).drop_last() =~= s.take(i));
        lemma_prefix_le_total_eps(s, i + 1);
    } else {
        assert(s.take(i) =~= s);
    }
}

/// The saturated weight sums stay within the coordinate range.
proof fn lemma_sat_sum_units_bounds(s: Seq<MainPref>)
    requires
        forall|j: int| 0 <= j < s.len() ==> (#[trigger] s[j]).wf(),
    ensures
        0 <= sat_sum_units(s) <= COORD_LIMIT,
    decreases s.len(),
{
    if s.len() > 0 {
        assert(forall|j: int|
            0 <= j < s.drop_last().len() ==> (#[trigger] s.drop_last()[j]).wf());
        lemma_sat_sum_units_bounds(s.drop_last());
    }
}

/// The saturated passive weight sums stay within the coordinate range.
proof fn lemma_sat_sum_eps_bounds(s: Seq<MainPref>)
    requires
        forall|j: int| 0 <= j < s.len() ==> (#[trigger] s[j]).wf(),
    ensures
        0 <= sat_sum_eps(s) <= COORD_LIMIT,
    decreases s.len(),
{
    if s.len() > 0 {
        assert(forall|j: int|
            0 <= j < s.drop_last().len() ==> (#[trigger] s.drop_last()[j]).wf());
        lemma_sat_sum_eps_bounds(s.drop_last());
    }
}

} // verus!
// Conservation laws. They speak of the exact integer model; the exactness
// hypotheses rule saturation out.

verus! {

/// Exact (unsaturated) sum of the minimum lengths.
pub open spec fn sum_min_exact(s: Seq<MainPref>) -> int
    decreases s.len(),
{
    if s.len() == 0 {
        0
    } else {
        sum_min_exact(s.drop_last()) + s.last().min
    }
}

/// Exact (unsaturated) sum of the maximum lengths.
pub open spec fn sum_max_exact(s: Seq<MainPref>) -> int
    decreases s.len(),
{
    if s.len() == 0 {
        0
    } else {
        sum_max_exact(s.drop_last()) + s.last().max
    }
}

/// The exact sums are ordered and non-negative.
pub proof fn lemma_exact_sums_ordered(s: Seq<MainPref>)
    requires
        forall|j: int| 0 <= j < s.len() ==> (#[trigger] s[j]).wf(),
    ensures
        0 <= sum_min_exact(s) <= sum_max_exact(s),
    decreases s.len(),
{
    if s.len() > 0 {
        assert(forall|j: int|
            0 <= j < s.drop_last().len() ==> (#[trigger] s.drop_last()[j]).wf());
        lemma_exact_sums_ordered(s.drop_last());
    }
}

/// While the exact sum stays representable, the saturated sums equal it.
pub proof fn lemma_sat_sums_exact(s: Seq<MainPref>)
    requires
        forall|j: int| 0 <= j < s.len() ==> (#[trigger] s[j]).wf(),
        sum_max_exact(s) <= COORD_LIMIT,
    ensures
        sat_sum_min(s) == sum_min_exact(s),
        sat_sum_max(s) == sum_max_exact(s),
    decreases s.len(),
{
    lemma_exact_sums_ordered(s);
    if s.len() > 0 {
        assert(forall|j: int|
            0 <= j < s.drop_last().len() ==> (#[trigger] s.drop_last()[j]).wf());
        lemma_exact_sums_ordered(s.drop_last());
        lemma_sat_sums_exact(s.drop_last());
    }
}

/// With zero combined slack, every child has zero slack.
proof fn lemma_zero_slack(s: Seq<MainPref>, i: int)
    requires
        forall|j: int| 0 <= j < s.len() ==> (#[trigger] s[j]).wf(),
        sum_min_exact(s) == sum_max_exact(s),
        0 <= i < s.len(),
    ensures
        s[i].min == s[i].max,
    decreases s.len(),
{
    lemma_exact_sums_ordered(s.drop_last());
    assert(forall|j: int|
        0 <= j < s.drop_last().len() ==> (#[trigger] s.drop_last()[j]).wf());
    if i < s.len() - 1 {
        lemma_zero_slack(s.drop_last(), i);
        assert(s.drop_last()[i] == s[i]);
    }
}

/// Law: when the allocation cannot even cover the combined minimum, every
/// child takes exactly its minimum: no negative sizing.
pub proof fn lemma_box_shrink(s: Seq<MainPref>, ap: int, i: int)
    requires
        forall|j: int| 0 <= j < s.len() ==> (#[trigger] s[j]).wf(),
        sum_max_exact(s) <= COORD_LIMIT,
        ap <= sat_sum_min(s),
        0 <= i < s.len(),
    ensures
        spec_main_size(s, ap, i) == s[i].min,
{
    lemma_sat_sums_exact(s);
    lemma_exact_sums_ordered(s);
    let den = spec_den(s);
    if den > 0 {
        assert(spec_num(s, ap) == 0);
        assert((s[i].max - s[i].min) * 0 == 0) by (nonlinear_arith);
        vstd::arithmetic::div_mod::lemma_div_of0(den);
        assert(spec_interp(s, ap, i) == s[i].min);
    } else {
        lemma_zero_slack(s, i);
        assert(spec_interp(s, ap, i) == s[i].min);
    }
    let r = spec_remaining(s, ap);
    assert(r == 0 || sat_sum_min(s) == sat_sum_max(s));
    if r == 0 {
        if sat_sum_units(s) > 0 {
            lemma_share_of_zero_units(s, i);
            lemma_share_of_zero_units(s, i + 1);
        } else if sat_sum_eps(s) > 0 {
            lemma_share_of_zero_eps(s, i);
            lemma_share_of_zero_eps(s, i + 1);
        }
        assert(spec_extra(s, ap, i) == 0);
    } else {
        // min and max coincide and the leftover is distributed on top of
        // the (equal) maximum, which only happens at ap == the sums; here
        // ap <= the minimum sum forces r == ap - sum == 0.
        assert(r == ap - sat_sum_max(s));
        assert(r <= 0);
        assert(r == 0);
    }
}

proof fn lemma_share_of_zero_units(s: Seq<MainPref>, i: int)
    requires
        sat_sum_units(s) > 0,
        0 <= i <= s.len(),
        forall|j: int| 0 <= j < s.len() ==> (#[trigger] s[j]).wf(),
    ensures
        spec_share_units(s, 0, i) == 0,
{
    lemma_prefix_le_total_units(s, i);
    assert(0 * sat_sum_units(s.take(i)) == 0) by (nonlinear_arith);
    vstd::arithmetic::div_mod::lemma_div_of0(sat_sum_units(s));
}

proof fn lemma_share_of_zero_eps(s: Seq<MainPref>, i: int)
    requires
        sat_sum_eps(s) > 0,
        0 <= i <= s.len(),
        forall|j: int| 0 <= j < s.len() ==> (#[trigger] s[j]).wf(),
    ensures
        spec_share_eps(s, 0, i) == 0,
{
    lemma_prefix_le_total_eps(s, i);
    assert(0 * sat_sum_eps(s.take(i)) == 0) by (nonlinear_arith);
    vstd::arithmetic::div_mod::lemma_div_of0(sat_sum_eps(s));
}

/// A child's length at full allocation is its maximum plus its share.
proof fn lemma_interp_at_max(s: Seq<MainPref>, ap: int, i: int)
    requires
        forall|j: int| 0 <= j < s.len() ==> (#[trigger] s[j]).wf(),
        ap >= sat_sum_max(s),
        0 <= i < s.len(),
    ensures
        spec_interp(s, ap, i) == s[i].max,
{
    let den = spec_den(s);
    if den > 0 {
        assert(spec_num(s, ap) == den);
        lemma_div_multiples_vanish((s[i].max - s[i].min) as int, den);
        assert((s[i].max - s[i].min) * den == den * ((s[i].max - s[i].min) as int))
            by (nonlinear_arith);
    }
}

/// Sum of the first `i` lengths at full allocation: the exact prefix
/// maximum sum plus the prefix share of the leftover.
proof fn lemma_sum_sizes_at_max(s: Seq<MainPref>, ap: int, i: int)
    requires
        forall|j: int| 0 <= j < s.len() ==> (#[trigger] s[j]).wf(),
        ap >= sat_sum_max(s),
        0 <= i <= s.len(),
    ensures
        spec_sum_sizes(s, ap, i) == sum_max_exact(s.take(i)) + (if sat_sum_units(s) > 0 {
            spec_share_units(s, spec_remaining(s, ap), i)
        } else if sat_sum_eps(s) > 0 {
            spec_share_eps(s, spec_remaining(s, ap), i)
        } else {
            0
        }),
    decreases i,
{
    let r = spec_remaining(s, ap);
    if i == 0 {
        assert(s.take(0) =~= Seq::<MainPref>::empty());
        if sat_sum_units(s) > 0 {
            lemma_share_of_zero_prefix_units(s, r);
        } else if sat_sum_eps(s) > 0 {
            lemma_share_of_zero_prefix_eps(s, r);
        }
    } else {
        lemma_sum_sizes_at_max(s, ap, i - 1);
        lemma_interp_at_max(s, ap, i - 1);
        assert(s.take(i).drop_last() =~= s.take(i - 1));
        assert(s.take(i).last() == s[i - 1]);
    }
}

proof fn lemma_share_of_zero_prefix_units(s: Seq<MainPref>, r: int)
    requires
        sat_sum_units(s) > 0,
    ensures
        spec_share_units(s, r, 0) == 0,
{
    assert(s.take(0) =~= Seq::<MainPref>::empty());
    assert(r * sat_sum_units(s.take(0)) == 0) by (nonlinear_arith)
        requires
            sat_sum_units(s.take(0)) == 0,
    ;
    vstd::arithmetic::div_mod::lemma_div_of0(sat_sum_units(s));
}

proof fn lemma_share_of_zero_prefix_eps(s: Seq<MainPref>, r: int)
    requires
        sat_sum_eps(s) > 0,
    ensures
        spec_share_eps(s, r, 0) == 0,
{
    assert(s.take(0) =~= Seq::<MainPref>::empty());
    assert(r * sat_sum_eps(s.take(0)) == 0) by (nonlinear_arith)
        requires
            sat_sum_eps(s.take(0)) == 0,
    ;
    vstd::arithmetic::div_mod::lemma_div_of0(sat_sum_eps(s));
}

/// The gap space a layout leaves besides the children: the whole leftover
/// when nothing grows, nothing otherwise.
pub open spec fn spec_total_gaps(s: Seq<MainPref>, ap: int) -> int {
    if sat_sum_units(s) == 0 && sat_sum_eps(s) == 0 {
        spec_remaining(s, ap)
    } else {
        0
    }
}

/// Law: box layout conserves space. When the allocation covers the
/// combined maximum, the children's lengths, the policy gaps and the
/// fixed padding sum exactly to the allocated length.
pub proof fn lemma_box_conservation(s: Seq<MainPref>, sp: Spacing, pad: int, avail: int)
    requires
        forall|j: int| 0 <= j < s.len() ==> (#[trigger] s[j]).wf(),
        sum_max_exact(s) <= COORD_LIMIT,
        spec_avail(sp, s.len() as int, pad, avail) >= sat_sum_max(s),
    ensures
        spec_sum_sizes(s, spec_avail(sp, s.len() as int, pad, avail), s.len() as int)
            + spec_total_gaps(s, spec_avail(sp, s.len() as int, pad, avail))
            + spec_const_padding(sp, s.len() as int, pad) == avail,
{
    let ap = spec_avail(sp, s.len() as int, pad, avail);
    let r = spec_remaining(s, ap);
    lemma_sat_sums_exact(s);
    lemma_sat_sum_units_bounds(s);
    lemma_sat_sum_eps_bounds(s);
    lemma_sum_sizes_at_max(s, ap, s.len() as int);
    assert(s.take(s.len() as int) =~= s);
    if sat_sum_units(s) > 0 {
        lemma_div_multiples_vanish(r, sat_sum_units(s));
        assert(r * sat_sum_units(s) == sat_sum_units(s) * r) by (nonlinear_arith);
        assert(spec_share_units(s, r, s.len() as int) == r);
        assert(spec_sum_sizes(s, ap, s.len() as int) == sum_max_exact(s) + r);
        assert(spec_total_gaps(s, ap) == 0);
    } else if sat_sum_eps(s) > 0 {
        lemma_div_multiples_vanish(r, sat_sum_eps(s));
        assert(r * sat_sum_eps(s) == sat_sum_eps(s) * r) by (nonlinear_arith);
        assert(spec_share_eps(s, r, s.len() as int) == r);
        assert(spec_sum_sizes(s, ap, s.len() as int) == sum_max_exact(s) + r);
        assert(spec_total_gaps(s, ap) == 0);
    } else {
        assert(spec_sum_sizes(s, ap, s.len() as int) == sum_max_exact(s));
        assert(spec_total_gaps(s, ap) == r);
    }
    assert(sum_max_exact(s) == sat_sum_max(s));
    assert(r == ap - sat_sum_max(s));
    assert(ap == avail - spec_const_padding(sp, s.len() as int, pad));
}

} // verus!
