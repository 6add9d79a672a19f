//! The in-memory raster model: an RGB pixel buffer with its dimensions, and
//! the fixed-point scale factor applied to both dimensions before a trial
//! encode.

use vstd::prelude::*;
use vstd::arithmetic::div_mod::{lemma_div_is_ordered, lemma_div_multiples_vanish};
use vstd::arithmetic::mul::lemma_mul_inequality;

verus! {

/// Scale factors are fixed-point fractions with this denominator: a factor
/// `s` stands for the real number `s / SCALE_DEN`.
pub const SCALE_DEN: u32 = 10000;

/// Smallest scale factor the search will probe (one tenth).
pub const SCALE_MIN: u32 = 1000;

/// The identity scale factor (one): no resize before encoding.
pub const SCALE_ONE: u32 = 10000;

/// Bytes per pixel of the raster model: red, green and blue, one byte each.
pub const BYTES_PER_PIXEL: u32 = 3;

/// A decoded image: its dimensions and its tightly packed RGB pixel rows.
pub struct RasterImage {
    pub width: u32,
    pub height: u32,
    pub pixels: Vec<u8>,
}

/// The mathematical value of a `RasterImage`.
pub struct RasterView {
    pub width: u32,
    pub height: u32,
    pub pixels: Seq<u8>,
}

impl View for RasterImage {
    type V = RasterView;

    open spec fn view(&self) -> RasterView {
        RasterView { width: self.width, height: self.height, pixels: self.pixels@ }
    }
}

impl RasterView {
    /// A well-formed raster holds exactly three bytes for each of its
    /// `width * height` pixels.
    pub open spec fn wf(self) -> bool {
        self.pixels.len() == BYTES_PER_PIXEL * self.width * self.height
    }
}

impl RasterImage {
    /// Builds a raster from plain values, accepting only a buffer whose
    /// length matches the dimensions.
    pub fn new(width: u32, height: u32, pixels: Vec<u8>) -> (r: Option<RasterImage>)
        ensures
            r matches Some(img) ==> img@ == (RasterView { width, height, pixels: pixels@ })
                && img@.wf(),
            r is None <==> pixels@.len() != BYTES_PER_PIXEL * width * height,
    {
        proof {
            assert((BYTES_PER_PIXEL as int) * (width as int) * (height as int)
                <= 3 * (u32::MAX as int) * (u32::MAX as int)) by (nonlinear_arith)
                requires
                    width <= u32::MAX,
                    height <= u32::MAX,
            ;
        }
        let need: u128 = (BYTES_PER_PIXEL as u128) * (width as u128) * (height as u128);
        if (pixels.len() as u128) == need {
            Some(RasterImage { width, height, pixels })
        } else {
            None
        }
    }
}

/// A dimension scaled by the fixed-point factor `scale`, rounded down to
/// whole pixels.
pub open spec fn spec_scaled(dim: u32, scale: u32) -> int {
    (dim * scale) / (SCALE_DEN as int)
}

/// A scaled dimension never exceeds the original while the factor is at most
/// one.
pub proof fn lemma_scaled_le_dim(dim: u32, scale: u32)
    requires
        scale <= SCALE_DEN,
    ensures
        0 <= spec_scaled(dim, scale) <= dim,
{
    lemma_mul_inequality(scale as int, SCALE_DEN as int, dim as int);
    assert(dim * scale == scale * dim) by (nonlinear_arith);
    assert(dim * SCALE_DEN == SCALE_DEN * dim) by (nonlinear_arith);
    lemma_div_is_ordered(dim * scale, dim * (SCALE_DEN as int), SCALE_DEN as int);
    lemma_div_multiples_vanish(dim as int, SCALE_DEN as int);
    assert(dim * scale >= 0) by (nonlinear_arith);
}

/// Scaling by the identity factor gives the dimension back.
pub proof fn lemma_scaled_one(dim: u32)
    ensures
        spec_scaled(dim, SCALE_ONE) == dim,
{
    lemma_div_multiples_vanish(dim as int, SCALE_DEN as int);
    assert(dim * SCALE_ONE == SCALE_DEN * dim) by (nonlinear_arith);
}

/// Multiplies a dimension by the fixed-point scale factor, rounding down.
pub fn scaled_dim(dim: u32, scale: u32) -> (r: u32)
    requires
        scale <= SCALE_DEN,
    ensures
        r == spec_scaled(dim, scale),
{
    proof {
        assert((dim as int) * (scale as int) <= (u32::MAX as int) * (SCALE_DEN as int))
            by (nonlinear_arith)
            requires
                dim <= u32::MAX,
                scale <= SCALE_DEN,
        ;
    }
    let wide: u64 = (dim as u64) * (scale as u64);
    let q: u64 = wide / (SCALE_DEN as u64);
    proof {
        lemma_scaled_le_dim(dim, scale);
    }
    q as u32
}

} // verus!
