use vstd::prelude::*;
use core::cmp::Ordering;

verus! {

/// `c`, the outcome of comparing `a` with `b`, says `a <= b`.
pub open spec fn at_most(c: Option<Ordering>) -> bool {
    c == Some(Ordering::Less) || c == Some(Ordering::Equal)
}

/// `c`, the outcome of comparing `a` with `b`, says `a < b`.
pub open spec fn below(c: Option<Ordering>) -> bool {
    c == Some(Ordering::Less)
}

fn says_at_most(c: Option<Ordering>) -> (b: bool)
    ensures
        b == at_most(c),
{
    match c {
        Some(Ordering::Less) | Some(Ordering::Equal) => true,
        _ => false,
    }
}

fn says_below(c: Option<Ordering>) -> (b: bool)
    ensures
        b == below(c),
{
    match c {
        Some(Ordering::Less) => true,
        _ => false,
    }
}

/// Compact support: inside the support `w` is what `falloff` gives for the
/// measure `m` of the separation and the radius `h`; outside it, `w` is zero.
pub open spec fn cut_off<S, FW: Fn(&S, &S) -> S>(
    falloff: FW,
    inside: bool,
    m: S,
    h: S,
    zero: S,
    w: S,
) -> bool {
    if inside {
        falloff.ensures((&m, &h), w)
    } else {
        w == zero
    }
}

/// `w` is what the Poly6 shape gives at separation `r`: the squared length
/// `m` of `r` is inside the support when `0 < m <= h * h`.
pub open spec fn poly6_at<S, V, FM, FX, FC, FW>(
    magnitude2: FM,
    times: FX,
    compare: FC,
    falloff: FW,
    zero: S,
    r: V,
    h: S,
    w: S,
) -> bool where
    FM: Fn(&V) -> S,
    FX: Fn(&S, &S) -> S,
    FC: Fn(&S, &S) -> Option<Ordering>,
    FW: Fn(&S, &S) -> S,
 {
    exists|m: S, hh: S, c_hi: Option<Ordering>, c_lo: Option<Ordering>|
        #[trigger] magnitude2.ensures((&r,), m) && #[trigger] times.ensures((&h, &h), hh)
            && #[trigger] compare.ensures((&m, &hh), c_hi) && #[trigger] compare.ensures(
            (&zero, &m),
            c_lo,
        ) && cut_off(falloff, at_most(c_hi) && below(c_lo), m, h, zero, w)
}

/// `w` is what the Spiky shape gives at separation `r`: the length `m` of `r`
/// is inside the support when `0 <= m <= h`.
pub open spec fn spiky_at<S, V, FM, FC, FW>(
    magnitude: FM,
    compare: FC,
    falloff: FW,
    zero: S,
    r: V,
    h: S,
    w: S,
) -> bool where
    FM: Fn(&V) -> S,
    FC: Fn(&S, &S) -> Option<Ordering>,
    FW: Fn(&S, &S) -> S,
 {
    exists|m: S, c_lo: Option<Ordering>, c_hi: Option<Ordering>|
        #[trigger] magnitude.ensures((&r,), m) && #[trigger] compare.ensures((&zero, &m), c_lo)
            && #[trigger] compare.ensures((&m, &h), c_hi) && cut_off(
            falloff,
            at_most(c_lo) && at_most(c_hi),
            m,
            h,
            zero,
            w,
        )
}

/// The length function gives `a` and `b` one and the same length (as it
/// does `r` and `-r`), whatever it is asked.
pub open spec fn same_measure<S, V, FM: Fn(&V) -> S>(measure: FM, a: V, b: V) -> bool {
    forall|m1: S, m2: S|
        #[trigger] measure.ensures((&a,), m1) && #[trigger] measure.ensures((&b,), m2) ==> m1 == m2
}

/// A binary operation on scalars that gives one result for each pair.
pub open spec fn op_is_function<S, F: Fn(&S, &S) -> S>(f: F) -> bool {
    forall|x: &S, y: &S, r1: S, r2: S|
        #[trigger] f.ensures((x, y), r1) && #[trigger] f.ensures((x, y), r2) ==> r1 == r2
}

/// A comparison of scalars that gives one outcome for each pair.
pub open spec fn compare_is_function<S, F: Fn(&S, &S) -> Option<Ordering>>(f: F) -> bool {
    forall|x: &S, y: &S, r1: Option<Ordering>, r2: Option<Ordering>|
        #[trigger] f.ensures((x, y), r1) && #[trigger] f.ensures((x, y), r2) ==> r1 == r2
}

/// The Poly6 kernel, `315 / (64 pi h^9) * (h^2 - |r|^2)^3`, smooth throughout;
/// the kernel for density estimates. It is zero at `r = 0`.
pub struct Poly6Kernel;

/// The Spiky kernel, `15 / (pi h^6) * (h - |r|)^3`, steep near the origin;
/// the kernel for pressure-like terms.
pub struct SpikyKernel;

impl Poly6Kernel {
    /// The weight at separation `r` for smoothing radius `h`. The support test
    /// is made here: `falloff` (the cubic falloff in `|r|^2` times the
    /// normalisation) is applied only when `0 < |r|^2 <= h^2`; elsewhere the
    /// weight is `zero`.
    pub fn value<S, V, FM, FX, FC, FW>(
        r: &V,
        h: &S,
        zero: S,
        magnitude2: FM,
        times: FX,
        compare: FC,
        falloff: FW,
    ) -> (w: S) where
        FM: Fn(&V) -> S,
        FX: Fn(&S, &S) -> S,
        FC: Fn(&S, &S) -> Option<Ordering>,
        FW: Fn(&S, &S) -> S,

        requires
            forall|v: &V| #[trigger] magnitude2.requires((v,)),
            forall|a: &S, b: &S| #[trigger] times.requires((a, b)),
            forall|a: &S, b: &S| #[trigger] compare.requires((a, b)),
            forall|a: &S, b: &S| #[trigger] falloff.requires((a, b)),
        ensures
            poly6_at(magnitude2, times, compare, falloff, zero, *r, *h, w),
    {
        poly6_shape(r, h, zero, magnitude2, times, compare, falloff)
    }

    /// The gradient magnitude at separation `r` for smoothing radius `h`, by
    /// the same support test as `value`: `falloff` (the derivative in `|r|`)
    /// applies only when `0 < |r|^2 <= h^2`; elsewhere the result is `zero`.
    pub fn gradient_mag<S, V, FM, FX, FC, FW>(
        r: &V,
        h: &S,
        zero: S,
        magnitude2: FM,
        times: FX,
        compare: FC,
        falloff: FW,
    ) -> (g: S) where
        FM: Fn(&V) -> S,
        FX: Fn(&S, &S) -> S,
        FC: Fn(&S, &S) -> Option<Ordering>,
        FW: Fn(&S, &S) -> S,

        requires
            forall|v: &V| #[trigger] magnitude2.requires((v,)),
            forall|a: &S, b: &S| #[trigger] times.requires((a, b)),
            forall|a: &S, b: &S| #[trigger] compare.requires((a, b)),
            forall|a: &S, b: &S| #[trigger] falloff.requires((a, b)),
        ensures
            poly6_at(magnitude2, times, compare, falloff, zero, *r, *h, g),
    {
        poly6_shape(r, h, zero, magnitude2, times, compare, falloff)
    }
}

fn poly6_shape<S, V, FM, FX, FC, FW>(
    r: &V,
    h: &S,
    zero: S,
    magnitude2: FM,
    times: FX,
    compare: FC,
    falloff: FW,
) -> (w: S) where
    FM: Fn(&V) -> S,
    FX: Fn(&S, &S) -> S,
    FC: Fn(&S, &S) -> Option<Ordering>,
    FW: Fn(&S, &S) -> S,

    requires
        forall|v: &V| #[trigger] magnitude2.requires((v,)),
        forall|a: &S, b: &S| #[trigger] times.requires((a, b)),
        forall|a: &S, b: &S| #[trigger] compare.requires((a, b)),
        forall|a: &S, b: &S| #[trigger] falloff.requires((a, b)),
    ensures
        poly6_at(magnitude2, times, compare, falloff, zero, *r, *h, w),
{
    let m = magnitude2(r);
    let hh = times(h, h);
    let c_hi = compare(&m, &hh);
    let c_lo = compare(&zero, &m);
    let inside = says_at_most(c_hi) && says_below(c_lo);
    let w = if inside {
        falloff(&m, h)
    } else {
        zero
    };
    assert(cut_off(falloff, at_most(c_hi) && below(c_lo), m, *h, zero, w));
    w
}

impl SpikyKernel {
    /// The weight at separation `r` for smoothing radius `h`. The support test
    /// is made here: `falloff` (the cubic falloff in `|r|` times the
    /// normalisation) is applied only when `0 <= |r| <= h`; elsewhere the
    /// weight is `zero`.
    pub fn value<S, V, FM, FC, FW>(
        r: &V,
        h: &S,
        zero: S,
        magnitude: FM,
        compare: FC,
        falloff: FW,
    ) -> (w: S) where
        FM: Fn(&V) -> S,
        FC: Fn(&S, &S) -> Option<Ordering>,
        FW: Fn(&S, &S) -> S,

        requires
            forall|v: &V| #[trigger] magnitude.requires((v,)),
            forall|a: &S, b: &S| #[trigger] compare.requires((a, b)),
            forall|a: &S, b: &S| #[trigger] falloff.requires((a, b)),
        ensures
            spiky_at(magnitude, compare, falloff, zero, *r, *h, w),
    {
        spiky_shape(r, h, zero, magnitude, compare, falloff)
    }

    /// The gradient magnitude at separation `r` for smoothing radius `h`, by
    /// the same support test as `value`: `falloff` (the derivative in `|r|`)
    /// applies only when `0 <= |r| <= h`; elsewhere the result is `zero`.
    pub fn gradient_mag<S, V, FM, FC, FW>(
        r: &V,
        h: &S,
        zero: S,
        magnitude: FM,
        compare: FC,
        falloff: FW,
    ) -> (g: S) where
        FM: Fn(&V) -> S,
        FC: Fn(&S, &S) -> Option<Ordering>,
        FW: Fn(&S, &S) -> S,

        requires
            forall|v: &V| #[trigger] magnitude.requires((v,)),
            forall|a: &S, b: &S| #[trigger] compare.requires((a, b)),
            forall|a: &S, b: &S| #[trigger] falloff.requires((a, b)),
        ensures
            spiky_at(magnitude, compare, falloff, zero, *r, *h, g),
    {
        spiky_shape(r, h, zero, magnitude, compare, falloff)
    }
}

fn spiky_shape<S, V, FM, FC, FW>(
    r: &V,
    h: &S,
    zero: S,
    magnitude: FM,
    compare: FC,
    falloff: FW,
) -> (w: S) where
    FM: Fn(&V) -> S,
    FC: Fn(&S, &S) -> Option<Ordering>,
    FW: Fn(&S, &S) -> S,

    requires
        forall|v: &V| #[trigger] magnitude.requires((v,)),
        forall|a: &S, b: &S| #[trigger] compare.requires((a, b)),
        forall|a: &S, b: &S| #[trigger] falloff.requires((a, b)),
    ensures
        spiky_at(magnitude, compare, falloff, zero, *r, *h, w),
{
    let m = magnitude(r);
    let c_lo = compare(&zero, &m);
    let c_hi = compare(&m, h);
    let inside = says_at_most(c_lo) && says_at_most(c_hi);
    let w = if inside {
        falloff(&m, h)
    } else {
        zero
    };
    assert(cut_off(falloff, at_most(c_lo) && at_most(c_hi), m, *h, zero, w));
    w
}

/// Compact support of Poly6: where `|r|^2 > h^2` the weight (and, with the
/// gradient's falloff, the gradient magnitude) is zero.
pub proof fn lemma_poly6_zero_outside<S, V, FM, FX, FC, FW>(
    magnitude2: FM,
    times: FX,
    compare: FC,
    falloff: FW,
    zero: S,
    r: V,
    h: S,
    w: S,
    m: S,
    hh: S,
) where
    FM: Fn(&V) -> S,
    FX: Fn(&S, &S) -> S,
    FC: Fn(&S, &S) -> Option<Ordering>,
    FW: Fn(&S, &S) -> S,

    requires
        same_measure(magnitude2, r, r),
        op_is_function(times),
        compare_is_function(compare),
        poly6_at(magnitude2, times, compare, falloff, zero, r, h, w),
        magnitude2.ensures((&r,), m),
        times.ensures((&h, &h), hh),
        compare.ensures((&m, &hh), Some(Ordering::Greater)),
    ensures
        w == zero,
{
}

/// Poly6 is zero at `r = 0` (where `|r|^2` compares equal to zero), though
/// that lies inside its support.
pub proof fn lemma_poly6_zero_at_origin<S, V, FM, FX, FC, FW>(
    magnitude2: FM,
    times: FX,
    compare: FC,
    falloff: FW,
    zero: S,
    r: V,
    h: S,
    w: S,
    m: S,
) where
    FM: Fn(&V) -> S,
    FX: Fn(&S, &S) -> S,
    FC: Fn(&S, &S) -> Option<Ordering>,
    FW: Fn(&S, &S) -> S,

    requires
        same_measure(magnitude2, r, r),
        compare_is_function(compare),
        poly6_at(magnitude2, times, compare, falloff, zero, r, h, w),
        magnitude2.ensures((&r,), m),
        compare.ensures((&zero, &m), Some(Ordering::Equal)),
    ensures
        w == zero,
{
}

/// Compact support of Spiky: where `|r| > h` the weight (and, with the
/// gradient's falloff, the gradient magnitude) is zero.
pub proof fn lemma_spiky_zero_outside<S, V, FM, FC, FW>(
    magnitude: FM,
    compare: FC,
    falloff: FW,
    zero: S,
    r: V,
    h: S,
    w: S,
    m: S,
) where
    FM: Fn(&V) -> S,
    FC: Fn(&S, &S) -> Option<Ordering>,
    FW: Fn(&S, &S) -> S,

    requires
        same_measure(magnitude, r, r),
        compare_is_function(compare),
        spiky_at(magnitude, compare, falloff, zero, r, h, w),
        magnitude.ensures((&r,), m),
        compare.ensures((&m, &h), Some(Ordering::Greater)),
    ensures
        w == zero,
{
}

/// Poly6 depends on the separation only through its squared length: two
/// separations of one squared length, such as `r` and `-r`, get one weight.
pub proof fn lemma_poly6_symmetric<S, V, FM, FX, FC, FW>(
    magnitude2: FM,
    times: FX,
    compare: FC,
    falloff: FW,
    zero: S,
    a: V,
    b: V,
    h: S,
    wa: S,
    wb: S,
) where
    FM: Fn(&V) -> S,
    FX: Fn(&S, &S) -> S,
    FC: Fn(&S, &S) -> Option<Ordering>,
    FW: Fn(&S, &S) -> S,

    requires
        same_measure(magnitude2, a, b),
        op_is_function(times),
        compare_is_function(compare),
        op_is_function(falloff),
        poly6_at(magnitude2, times, compare, falloff, zero, a, h, wa),
        poly6_at(magnitude2, times, compare, falloff, zero, b, h, wb),
    ensures
        wa == wb,
{
}

/// Spiky depends on the separation only through its length: two separations
/// of one length, such as `r` and `-r`, get one weight.
pub proof fn lemma_spiky_symmetric<S, V, FM, FC, FW>(
    magnitude: FM,
    compare: FC,
    falloff: FW,
    zero: S,
    a: V,
    b: V,
    h: S,
    wa: S,
    wb: S,
) where
    FM: Fn(&V) -> S,
    FC: Fn(&S, &S) -> Option<Ordering>,
    FW: Fn(&S, &S) -> S,

    requires
        same_measure(magnitude, a, b),
        compare_is_function(compare),
        op_is_function(falloff),
        spiky_at(magnitude, compare, falloff, zero, a, h, wa),
        spiky_at(magnitude, compare, falloff, zero, b, h, wb),
    ensures
        wa == wb,
{
}

/// `w` is not below `zero`, by every comparison `compare` may give.
pub open spec fn not_negative<S, FC: Fn(&S, &S) -> Option<Ordering>>(compare: FC, zero: S, w: S) -> bool {
    forall|c: Option<Ordering>| #[trigger] compare.ensures((&zero, &w), c) ==> at_most(c)
}

/// A falloff that never goes below zero gives a Poly6 weight that never goes
/// below zero: outside the support the weight is zero itself.
pub proof fn lemma_poly6_not_negative<S, V, FM, FX, FC, FW>(
    magnitude2: FM,
    times: FX,
    compare: FC,
    falloff: FW,
    zero: S,
    r: V,
    h: S,
    w: S,
) where
    FM: Fn(&V) -> S,
    FX: Fn(&S, &S) -> S,
    FC: Fn(&S, &S) -> Option<Ordering>,
    FW: Fn(&S, &S) -> S,

    requires
        forall|m: &S, hr: &S, x: S| #[trigger] falloff.ensures((m, hr), x) ==> not_negative(compare, zero, x),
        not_negative(compare, zero, zero),
        poly6_at(magnitude2, times, compare, falloff, zero, r, h, w),
    ensures
        not_negative(compare, zero, w),
{
}

/// A falloff that never goes below zero gives a Spiky weight that never goes
/// below zero: outside the support the weight is zero itself.
pub proof fn lemma_spiky_not_negative<S, V, FM, FC, FW>(
    magnitude: FM,
    compare: FC,
    falloff: FW,
    zero: S,
    r: V,
    h: S,
    w: S,
) where
    FM: Fn(&V) -> S,
    FC: Fn(&S, &S) -> Option<Ordering>,
    FW: Fn(&S, &S) -> S,

    requires
        forall|m: &S, hr: &S, x: S| #[trigger] falloff.ensures((m, hr), x) ==> not_negative(compare, zero, x),
        not_negative(compare, zero, zero),
        spiky_at(magnitude, compare, falloff, zero, r, h, w),
    ensures
        not_negative(compare, zero, w),
{
}

} // verus!
