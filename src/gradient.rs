use vstd::prelude::*;
use vstd::arithmetic::div_mod::{lemma_div_is_ordered, lemma_div_is_ordered_by_denominator, lemma_div_multiples_vanish, lemma_div_nonincreasing, lemma_fundamental_div_mod};

verus! {

/// Fixed-point 1.0 for positions and blend factors along the gradient axis.
pub const BLEND_ONE: i64 = 65536;

/// Fixed-point 0.5, the middle of the gradient axis.
pub const BLEND_HALF: i64 = 32768;

/// Intensities are given in thousandths: this is an intensity of 1.0.
pub const INTENSITY_ONE: u32 = 1000;

/// An intensity of zero is treated as the smallest positive one.
pub open spec fn safe_intensity(i: u32) -> int {
    if i == 0 { 1 } else { i as int }
}

/// `BLEND_HALF * INTENSITY_ONE`: divided by an intensity, the distance of a
/// blend point from the middle.
pub const HALF_SPAN: u64 = 32768000;

pub open spec fn half_span() -> int {
    HALF_SPAN as int
}

/// The distance `0.5 / intensity` of a blend point from the middle, rounded
/// up, so that it is never zero and the window never collapses.
pub open spec fn half_width(i: u32) -> int {
    (half_span() - 1) / safe_intensity(i) + 1
}

/// Where the start colour stops holding: `0.5 - 0.5 / intensity`.
pub open spec fn blend_start(ix: u32) -> int {
    BLEND_HALF - half_width(ix)
}

/// Where the end colour starts holding: `0.5 + 0.5 / intensity`.
pub open spec fn blend_end(iy: u32) -> int {
    BLEND_HALF + half_width(iy)
}

/// The part of the gradient axis over which the two colours are blended.
#[derive(Clone, Copy, Debug, PartialEq, Eq, Structural)]
pub struct BlendWindow {
    pub start: i64,
    pub end: i64,
}

/// The blend window for the intensities `ix` (start side) and `iy` (end side).
pub open spec fn window_of(ix: u32, iy: u32) -> BlendWindow {
    BlendWindow { start: blend_start(ix) as i64, end: blend_end(iy) as i64 }
}

/// Where a projection `p` lies between the extremes `lo` and `hi`, from 0 to
/// `BLEND_ONE`; the middle when the extremes coincide.
pub open spec fn position(p: int, lo: int, hi: int) -> int {
    if hi == lo {
        BLEND_HALF as int
    } else {
        (p - lo) * BLEND_ONE / (hi - lo)
    }
}

/// A position remapped through the blend window and clamped to `[0, BLEND_ONE]`.
pub open spec fn factor(t: int, w: BlendWindow) -> int {
    if t <= w.start {
        0
    } else if t >= w.end {
        BLEND_ONE as int
    } else {
        (t - w.start) * BLEND_ONE / (w.end - w.start)
    }
}

pub open spec fn lesser(a: int, b: int) -> int {
    if a <= b { a } else { b }
}

pub open spec fn greater(a: int, b: int) -> int {
    if a >= b { a } else { b }
}

/// The smallest of four projections.
pub open spec fn lowest(p: Seq<i32>) -> int {
    lesser(lesser(p[0] as int, p[1] as int), lesser(p[2] as int, p[3] as int))
}

/// The largest of four projections.
pub open spec fn highest(p: Seq<i32>) -> int {
    greater(greater(p[0] as int, p[1] as int), greater(p[2] as int, p[3] as int))
}

/// The blend factor of corner `i` of a quad whose corners project to `p`
/// on the gradient axis.
pub open spec fn corner_factor(p: Seq<i32>, i: int, w: BlendWindow) -> int {
    factor(position(p[i] as int, lowest(p), highest(p)), w)
}

/// Computes the blend window of the intensities `ix` and `iy`, in thousandths.
pub fn blend_window(ix: u32, iy: u32) -> (r: BlendWindow)
    ensures
        r.start == blend_start(ix),
        r.end == blend_end(iy),
        r == window_of(ix, iy),
{
    let sx: u64 = if ix == 0 { 1 } else { ix as u64 };
    let sy: u64 = if iy == 0 { 1 } else { iy as u64 };
    let span: u64 = HALF_SPAN - 1;
    proof {
        lemma_div_nonincreasing(span as int, sx as int);
        lemma_div_nonincreasing(span as int, sy as int);
    }
    let qx: u64 = span / sx + 1;
    let qy: u64 = span / sy + 1;
    BlendWindow { start: BLEND_HALF - qx as i64, end: BLEND_HALF + qy as i64 }
}

proof fn quotient_in_unit(n: int, d: int)
    requires
        0 <= n <= d,
        0 < d,
    ensures
        0 <= n * BLEND_ONE / d <= BLEND_ONE,
{
    assert(0 <= n * BLEND_ONE <= d * BLEND_ONE) by (nonlinear_arith)
        requires
            0 <= n <= d,
    ;
    lemma_div_is_ordered(0, n * BLEND_ONE, d);
    lemma_div_is_ordered(n * BLEND_ONE, d * BLEND_ONE, d);
    lemma_div_multiples_vanish(BLEND_ONE as int, d);
    assert(d * BLEND_ONE == BLEND_ONE * d) by (nonlinear_arith);
}

/// Where `p` lies between `lo` and `hi`.
fn axis_position(p: i32, lo: i32, hi: i32) -> (t: i64)
    requires
        lo <= p <= hi,
    ensures
        t == position(p as int, lo as int, hi as int),
        0 <= t <= BLEND_ONE,
{
    if hi == lo {
        BLEND_HALF
    } else {
        let num: u64 = (p as i64 - lo as i64) as u64;
        let den: u64 = (hi as i64 - lo as i64) as u64;
        proof {
            quotient_in_unit(num as int, den as int);
        }
        ((num * (BLEND_ONE as u64)) / den) as i64
    }
}

/// Remaps the position `t` through the window `w`, clamped to `[0, BLEND_ONE]`.
pub fn blend_factor(t: i64, w: BlendWindow) -> (f: i64)
    requires
        0 <= t <= BLEND_ONE,
        w.start >= BLEND_HALF - half_span(),
        w.end <= BLEND_HALF + half_span(),
    ensures
        f == factor(t as int, w),
        0 <= f <= BLEND_ONE,
{
    if t <= w.start {
        0
    } else if t >= w.end {
        BLEND_ONE
    } else {
        let num: u64 = (t - w.start) as u64;
        let den: u64 = (w.end - w.start) as u64;
        proof {
            quotient_in_unit(num as int, den as int);
        }
        ((num * (BLEND_ONE as u64)) / den) as i64
    }
}

/// The blend factors of the four corners of a gradient quad, each from 0
/// (start colour) to `BLEND_ONE` (end colour). `projections` holds each
/// corner's projection onto the gradient axis, in any fixed unit; each
/// projection is placed between the smallest and the largest (the middle
/// when all are equal) and remapped through the blend window of the
/// intensities `intensity_x` and `intensity_y` (thousandths).
pub fn gradient_corner_factors(projections: [i32; 4], intensity_x: u32, intensity_y: u32) -> (r: Vec<i64>)
    ensures
        r@.len() == 4,
        forall|i: int|
            0 <= i < 4 ==> #[trigger] r@[i] == corner_factor(projections@, i, window_of(intensity_x, intensity_y)),
        forall|i: int| 0 <= i < 4 ==> 0 <= #[trigger] r@[i] <= BLEND_ONE,
{
    let w = blend_window(intensity_x, intensity_y);
    let a = if projections[0] <= projections[1] { projections[0] } else { projections[1] };
    let b = if projections[2] <= projections[3] { projections[2] } else { projections[3] };
    let lo = if a <= b { a } else { b };
    let c = if projections[0] >= projections[1] { projections[0] } else { projections[1] };
    let d = if projections[2] >= projections[3] { projections[2] } else { projections[3] };
    let hi = if c >= d { c } else { d };
    proof {
        lemma_div_nonincreasing(half_span() - 1, safe_intensity(intensity_x));
        lemma_div_nonincreasing(half_span() - 1, safe_intensity(intensity_y));
    }
    let mut out: Vec<i64> = Vec::new();
    let mut i: usize = 0;
    while i < 4
        invariant
            i <= 4,
            out@.len() == i,
            w == window_of(intensity_x, intensity_y),
            lo == lowest(projections@),
            hi == highest(projections@),
            w.start >= BLEND_HALF - half_span(),
            w.end <= BLEND_HALF + half_span(),
            forall|j: int| 0 <= j < i ==> #[trigger] out@[j] == corner_factor(projections@, j, w),
            forall|j: int| 0 <= j < i ==> 0 <= #[trigger] out@[j] <= BLEND_ONE,
        decreases 4 - i,
    {
        let t = axis_position(projections[i], lo, hi);
        out.push(blend_factor(t, w));
        i = i + 1;
    }
    out
}

/// With intensity 1.0 on both sides the blend window is exactly the unit
/// interval, so the blend factor of every position is the position itself:
/// a pure linear gradient with no plateau.
pub proof fn unit_intensity_is_linear(t: int)
    requires
        0 <= t <= BLEND_ONE,
    ensures
        blend_start(INTENSITY_ONE) == 0,
        blend_end(INTENSITY_ONE) == BLEND_ONE,
        factor(t, window_of(INTENSITY_ONE, INTENSITY_ONE)) == t,
{
    assert((half_span() - 1) / safe_intensity(INTENSITY_ONE) == BLEND_HALF - 1) by {
        vstd::arithmetic::div_mod::lemma_fundamental_div_mod_converse(
            half_span() - 1,
            INTENSITY_ONE as int,
            BLEND_HALF - 1,
            INTENSITY_ONE - 1,
        );
    }
    if 0 < t < BLEND_ONE {
        lemma_div_multiples_vanish(t, BLEND_ONE as int);
        assert((t - 0) * BLEND_ONE == BLEND_ONE * t) by (nonlinear_arith);
    }
}

proof fn quotient_below(n: int, d: int, gap: int)
    requires
        0 <= n,
        0 < d,
        0 < gap,
        n < gap * d,
    ensures
        n / d < gap,
{
    lemma_fundamental_div_mod(n, d);
    let q = n / d;
    let r = n % d;
    assert(q < gap) by (nonlinear_arith)
        requires
            n == d * q + r,
            0 <= r,
            n < gap * d,
            0 < d,
    ;
}

/// Raising one side's intensity moves its blend point towards the middle of
/// the axis, never onto or past it; once the intensity exceeds
/// `(half_span() - 1) / gap`, the blend point lies within `gap` of the middle.
pub proof fn blend_points_approach_middle(lo: u32, hi: u32, gap: int)
    requires
        lo <= hi,
        gap > 0,
        hi as int > (half_span() - 1) / gap,
    ensures
        blend_start(lo) <= blend_start(hi) < BLEND_HALF,
        BLEND_HALF < blend_end(hi) <= blend_end(lo),
        BLEND_HALF - blend_start(hi) <= gap,
        blend_end(hi) - BLEND_HALF <= gap,
{
    let k = half_span() - 1;
    lemma_div_is_ordered_by_denominator(k, safe_intensity(lo), safe_intensity(hi));
    lemma_div_is_ordered(0, k, safe_intensity(hi));
    lemma_fundamental_div_mod(k, gap);
    let q = k / gap;
    let h = safe_intensity(hi);
    assert(k < gap * h) by (nonlinear_arith)
        requires
            k == gap * q + k % gap,
            k % gap < gap,
            h >= q + 1,
            gap > 0,
    ;
    quotient_below(k, h, gap);
}

/// With equal intensities on both sides, whatever their size, the middle of
/// the axis blends exactly half-way: a quad with no extent along the axis is
/// painted in the mid colour, and every corner at or past the end blend
/// point gets the end colour.
pub proof fn balanced_window_keeps_middle(i: u32, t: int)
    ensures
        factor(BLEND_HALF as int, window_of(i, i)) == BLEND_HALF,
        t >= blend_end(i) ==> factor(t, window_of(i, i)) == BLEND_ONE,
        t <= blend_start(i) ==> factor(t, window_of(i, i)) == 0,
{
    let h = half_width(i);
    lemma_div_is_ordered(0, half_span() - 1, safe_intensity(i));
    lemma_div_nonincreasing(half_span() - 1, safe_intensity(i));
    assert(h * BLEND_ONE == (2 * h) * BLEND_HALF) by (nonlinear_arith)
        requires
            BLEND_ONE == 2 * BLEND_HALF,
    ;
    lemma_div_multiples_vanish(BLEND_HALF as int, 2 * h);
    assert((2 * h) * BLEND_HALF == BLEND_HALF * (2 * h)) by (nonlinear_arith);
}

} // verus!
