//! The Format Constraint Enforcer: rewrites the dimensions of a raster
//! when the requested output format imposes a hard limit, preserving the
//! aspect ratio.  Only the icon format carries such a limit today.

use vstd::prelude::*;
use vstd::arithmetic::div_mod::{lemma_fundamental_div_mod, lemma_mod_bound};

use crate::geometry::{
    lemma_round_scale_bounds, lemma_round_scale_full, round_scale, scale_frac, Frac,
};

verus! {

/// The raster formats the encoder adapter can produce.
#[derive(Clone, Copy, PartialEq, Eq, Structural, Debug)]
pub enum OutputFormat {
    Png,
    Jpeg,
    Gif,
    Bmp,
    Ico,
    Tiff,
    Tga,
    Qoi,
    Pnm,
    Farbfeld,
    OpenExr,
    WebP,
}

/// The icon format accepts at most this many pixels per side.
pub const ICON_MAX_SIDE: u32 = 256;

/// The per-format constraint table: the largest side a format accepts,
/// if it restricts one.  Only the icon format does.
pub open spec fn format_max_side(fmt: OutputFormat) -> Option<u32> {
    match fmt {
        OutputFormat::Ico => Some(ICON_MAX_SIDE),
        _ => None,
    }
}

/// One side after scaling by `cap / m`, rounded half up and kept at
/// least one pixel so no degenerate raster is produced.
pub open spec fn scaled_side(d: u32, m: u32, cap: u32) -> u32
    recommends
        1 <= m,
        d <= m,
        cap <= 0xffff_ffff,
{
    let s = round_scale(d as int, m as int, cap as int);
    if s < 1 {
        1u32
    } else {
        s as u32
    }
}

/// The dimensions an image of size `(w, h)` is given before it is
/// encoded to `fmt`: unchanged unless the format caps the longer side
/// and the image exceeds the cap, in which case both sides are scaled
/// by the same factor `cap / max(w, h)`.
pub open spec fn constrained_dims(fmt: OutputFormat, w: u32, h: u32) -> (u32, u32) {
    match format_max_side(fmt) {
        Some(cap) => if w <= cap && h <= cap {
            (w, h)
        } else {
            let m = if w >= h {
                w
            } else {
                h
            };
            (scaled_side(w, m, cap), scaled_side(h, m, cap))
        },
        None => (w, h),
    }
}

/// Rewrite `(w, h)` as the target format demands; see
/// [`constrained_dims`].
pub fn constrain_dims(fmt: OutputFormat, w: u32, h: u32) -> (r: (u32, u32))
    ensures
        r == constrained_dims(fmt, w, h),
{
    match fmt {
        OutputFormat::Ico => {
            if w <= ICON_MAX_SIDE && h <= ICON_MAX_SIDE {
                (w, h)
            } else {
                let m = if w >= h {
                    w
                } else {
                    h
                };
                let sw = scale_frac(Frac { num: w, den: m }, ICON_MAX_SIDE);
                let sh = scale_frac(Frac { num: h, den: m }, ICON_MAX_SIDE);
                (if sw < 1 { 1 } else { sw }, if sh < 1 { 1 } else { sh })
            }
        },
        _ => (w, h),
    }
}

/// Half-pixel accuracy of one scaled side: where no clamping to one
/// pixel happens, the result `s` of scaling `d` by `cap / m` satisfies
/// `2*m*s` within `m` of `2*cap*d`, which is rounding to the nearest
/// pixel of the exact ratio.
pub proof fn lemma_scaled_side_accuracy(d: u32, m: u32, cap: u32)
    requires
        1 <= m,
        d <= m,
        1 <= round_scale(d as int, m as int, cap as int),
    ensures
        2 * (cap as int) * (d as int) - m < 2 * (m as int) * (scaled_side(d, m, cap) as int) <= 2
            * (cap as int) * (d as int) + m,
{
    lemma_round_scale_bounds(d as int, m as int, cap as int);
    let x = 2 * (d as int) * (cap as int) + (m as int);
    let dv = 2 * (m as int);
    lemma_fundamental_div_mod(x, dv);
    lemma_mod_bound(x, dv);
    assert(2 * (cap as int) * (d as int) == 2 * (d as int) * (cap as int)) by (nonlinear_arith);
}

/// The Format Constraint Enforcer's guarantee for the icon format: an
/// image already within the cap keeps its dimensions; a larger one is
/// scaled so its longer side becomes exactly the cap, the shorter side
/// stays within it, and each side follows the common scale factor
/// `cap / max(w, h)` to within half-pixel rounding, so the aspect ratio
/// is preserved up to rounding tolerance.
pub proof fn lemma_icon_constraint(w: u32, h: u32)
    requires
        1 <= w,
        1 <= h,
    ensures
        w <= ICON_MAX_SIDE && h <= ICON_MAX_SIDE ==> constrained_dims(OutputFormat::Ico, w, h) == (
            w,
            h,
        ),
        w > ICON_MAX_SIDE || h > ICON_MAX_SIDE ==> {
            let m = if w >= h {
                w
            } else {
                h
            };
            let nw = constrained_dims(OutputFormat::Ico, w, h).0;
            let nh = constrained_dims(OutputFormat::Ico, w, h).1;
            &&& (if w >= h {
                nw == ICON_MAX_SIDE
            } else {
                nh == ICON_MAX_SIDE
            })
            &&& 1 <= nw <= ICON_MAX_SIDE
            &&& 1 <= nh <= ICON_MAX_SIDE
            &&& (round_scale(w as int, m as int, ICON_MAX_SIDE as int) >= 1 ==> 2 * (
            ICON_MAX_SIDE as int) * w - m < 2 * (m as int) * nw <= 2 * (ICON_MAX_SIDE as int) * w
                + m)
            &&& (round_scale(h as int, m as int, ICON_MAX_SIDE as int) >= 1 ==> 2 * (
            ICON_MAX_SIDE as int) * h - m < 2 * (m as int) * nh <= 2 * (ICON_MAX_SIDE as int) * h
                + m)
        },
{
    if w > ICON_MAX_SIDE || h > ICON_MAX_SIDE {
        let m = if w >= h {
            w
        } else {
            h
        };
        lemma_round_scale_bounds(w as int, m as int, ICON_MAX_SIDE as int);
        lemma_round_scale_bounds(h as int, m as int, ICON_MAX_SIDE as int);
        lemma_round_scale_full(m as int, ICON_MAX_SIDE as int);
        if round_scale(w as int, m as int, ICON_MAX_SIDE as int) >= 1 {
            lemma_scaled_side_accuracy(w, m, ICON_MAX_SIDE);
        }
        if round_scale(h as int, m as int, ICON_MAX_SIDE as int) >= 1 {
            lemma_scaled_side_accuracy(h, m, ICON_MAX_SIDE);
        }
    }
}

} // verus!
