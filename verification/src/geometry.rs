//! The Geometry Normalizer: converts fractional crop coordinates into
//! integer pixel rectangles clamped to the image bounds.

use vstd::prelude::*;
use vstd::arithmetic::div_mod::{
    lemma_basic_div, lemma_div_is_ordered, lemma_div_multiples_vanish_fancy, lemma_div_pos_is_pos,
};
use vstd::arithmetic::mul::lemma_mul_inequality;

use crate::errors::ImgError;

verus! {

/// An exact fraction `num / den` of the unit interval.  The fraction is
/// well formed when `den` is positive, and in range when it does not
/// exceed one.
#[derive(Clone, Copy, PartialEq, Eq, Structural, Debug)]
pub struct Frac {
    pub num: u32,
    pub den: u32,
}

/// A crop request expressed as fractions of the source image's
/// dimensions, resolution-independent.
#[derive(Clone, Copy, PartialEq, Eq, Structural, Debug)]
pub struct FractionalRect {
    pub x: Frac,
    pub y: Frac,
    pub w: Frac,
    pub h: Frac,
}

/// An integer pixel rectangle.  After normalization it satisfies
/// `x + width <= W` and `y + height <= H` for the source dimensions
/// `(W, H)`; see [`rect_in_bounds`].
#[derive(Clone, Copy, PartialEq, Eq, Structural, Debug)]
pub struct PixelRect {
    pub x: u32,
    pub y: u32,
    pub width: u32,
    pub height: u32,
}

pub open spec fn frac_in_range(f: Frac) -> bool {
    1 <= f.den && f.num <= f.den
}

pub open spec fn rect_in_range(r: FractionalRect) -> bool {
    frac_in_range(r.x) && frac_in_range(r.y) && frac_in_range(r.w) && frac_in_range(r.h)
}

/// Round-half-up of `(num / den) * dim`: add one half, then truncate.
pub open spec fn round_scale(num: int, den: int, dim: int) -> int
    recommends
        1 <= den,
{
    (2 * num * dim + den) / (2 * den)
}

/// A fraction of at most one scales a dimension to at most that dimension,
/// and never below zero.
pub proof fn lemma_round_scale_bounds(num: int, den: int, dim: int)
    requires
        0 <= num <= den,
        1 <= den,
        0 <= dim,
    ensures
        0 <= round_scale(num, den, dim) <= dim,
{
    lemma_mul_inequality(num, den, dim);
    assert(2 * num * dim <= 2 * den * dim) by (nonlinear_arith)
        requires
            num * dim <= den * dim,
    ;
    lemma_div_is_ordered(2 * num * dim + den, 2 * den * dim + den, 2 * den);
    lemma_div_multiples_vanish_fancy(dim, den, 2 * den);
    assert((2 * den) * dim == 2 * den * dim);
    lemma_div_pos_is_pos(2 * num * dim + den, 2 * den);
}

/// A zero fraction scales every dimension to zero.
pub proof fn lemma_round_scale_zero(den: int, dim: int)
    requires
        1 <= den,
        0 <= dim,
    ensures
        round_scale(0, den, dim) == 0,
{
    assert(2 * 0 * dim == 0) by (nonlinear_arith);
    lemma_basic_div(den, 2 * den);
}

/// The full fraction (one) scales a dimension to exactly itself.
pub proof fn lemma_round_scale_full(den: int, dim: int)
    requires
        1 <= den,
        0 <= dim,
    ensures
        round_scale(den, den, dim) == dim,
{
    lemma_div_multiples_vanish_fancy(dim, den, 2 * den);
    assert((2 * den) * dim == 2 * den * dim);
}

/// The pixel rectangle a fractional request normalizes to: each side is
/// scaled with round-half-up semantics, then the width and height are
/// clamped so that the rectangle stays inside the image.  The origin is
/// never shifted: a crop that would overflow the source keeps its origin
/// and loses width or height.
pub open spec fn normalize_spec(width: u32, height: u32, r: FractionalRect) -> PixelRect
    recommends
        rect_in_range(r),
{
    let px = round_scale(r.x.num as int, r.x.den as int, width as int);
    let py = round_scale(r.y.num as int, r.y.den as int, height as int);
    let pw0 = round_scale(r.w.num as int, r.w.den as int, width as int);
    let ph0 = round_scale(r.h.num as int, r.h.den as int, height as int);
    let pw = if px + pw0 > width { width - px } else { pw0 };
    let ph = if py + ph0 > height { height - py } else { ph0 };
    PixelRect { x: px as u32, y: py as u32, width: pw as u32, height: ph as u32 }
}

pub open spec fn rect_in_bounds(p: PixelRect, width: u32, height: u32) -> bool {
    p.x + p.width <= width && p.y + p.height <= height
}

/// A fractional request that covers the whole image: origin zero, full
/// width and height.
pub open spec fn rect_is_full(r: FractionalRect) -> bool {
    rect_in_range(r) && r.x.num == 0 && r.y.num == 0 && r.w.num == r.w.den && r.h.num == r.h.den
}

/// A full-cover request normalizes to the whole image rectangle.
pub proof fn lemma_normalize_full(width: u32, height: u32, r: FractionalRect)
    requires
        rect_is_full(r),
    ensures
        normalize_spec(width, height, r) == (PixelRect { x: 0, y: 0, width, height }),
{
    lemma_round_scale_zero(r.x.den as int, width as int);
    lemma_round_scale_zero(r.y.den as int, height as int);
    lemma_round_scale_full(r.w.den as int, width as int);
    lemma_round_scale_full(r.h.den as int, height as int);
}

/// Every in-range fractional request normalizes to a rectangle inside
/// the image: `x + width <= W` and `y + height <= H`.
pub proof fn lemma_normalize_in_bounds(width: u32, height: u32, r: FractionalRect)
    requires
        rect_in_range(r),
    ensures
        rect_in_bounds(normalize_spec(width, height, r), width, height),
{
    lemma_round_scale_bounds(r.x.num as int, r.x.den as int, width as int);
    lemma_round_scale_bounds(r.y.num as int, r.y.den as int, height as int);
    lemma_round_scale_bounds(r.w.num as int, r.w.den as int, width as int);
    lemma_round_scale_bounds(r.h.num as int, r.h.den as int, height as int);
}

/// Scale one dimension by a fraction, rounding half up.
pub(crate) fn scale_frac(f: Frac, dim: u32) -> (r: u32)
    requires
        frac_in_range(f),
    ensures
        r == round_scale(f.num as int, f.den as int, dim as int),
        r <= dim,
{
    proof {
        lemma_round_scale_bounds(f.num as int, f.den as int, dim as int);
        assert(2 * (f.num as int) * (dim as int) + (f.den as int) < 0x1_0000_0000_0000_0000_0000)
            by (nonlinear_arith)
            requires
                f.num < 0x1_0000_0000,
                dim < 0x1_0000_0000,
                f.den < 0x1_0000_0000,
        ;
    }
    let n: u128 = 2u128 * (f.num as u128) * (dim as u128) + (f.den as u128);
    let d: u128 = 2u128 * (f.den as u128);
    let q: u128 = n / d;
    q as u32
}

/// Normalize a fractional crop request against source dimensions
/// `(width, height)`.
///
/// Each coordinate is scaled with round-half-up semantics; a rectangle
/// that would overflow the source keeps its origin and is clamped in
/// width and height.  A request with a degenerate (`den == 0`) or
/// out-of-range (`num > den`) fraction is rejected with
/// [`ImgError::InvalidRegion`].
pub fn normalize_rect(width: u32, height: u32, r: FractionalRect) -> (res: Result<
    PixelRect,
    ImgError,
>)
    ensures
        res is Ok <==> rect_in_range(r),
        res matches Ok(p) ==> p == normalize_spec(width, height, r),
        res matches Ok(p) ==> rect_in_bounds(p, width, height),
        res matches Err(e) ==> e is InvalidRegion,
{
    if r.x.den == 0 || r.y.den == 0 || r.w.den == 0 || r.h.den == 0 {
        return Err(ImgError::InvalidRegion);
    }
    if r.x.num > r.x.den || r.y.num > r.y.den || r.w.num > r.w.den || r.h.num > r.h.den {
        return Err(ImgError::InvalidRegion);
    }
    let px = scale_frac(r.x, width);
    let py = scale_frac(r.y, height);
    let pw0 = scale_frac(r.w, width);
    let ph0 = scale_frac(r.h, height);
    let pw = if px as u64 + pw0 as u64 > width as u64 {
        width - px
    } else {
        pw0
    };
    let ph = if py as u64 + ph0 as u64 > height as u64 {
        height - py
    } else {
        ph0
    };
    proof {
        lemma_normalize_in_bounds(width, height, r);
    }
    Ok(PixelRect { x: px, y: py, width: pw, height: ph })
}

} // verus!
