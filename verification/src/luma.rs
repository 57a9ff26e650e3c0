//! Perceptual brightness of a colour.

use vstd::prelude::*;

use crate::raster::Rgb;

verus! {

/// Weight of the red channel, in ten-thousandths.
pub const RED_WEIGHT: u32 = 2126;

/// Weight of the green channel, in ten-thousandths.
pub const GREEN_WEIGHT: u32 = 7152;

/// Weight of the blue channel, in ten-thousandths.
pub const BLUE_WEIGHT: u32 = 722;

/// The luminance of a colour: the weighted mean of its channels, rounded
/// down. The weights add up to one, so black has luminance 0, white has
/// luminance 255 and every other colour lies in between.
pub open spec fn spec_luminance(p: Rgb) -> u8 {
    ((RED_WEIGHT * p.r + GREEN_WEIGHT * p.g + BLUE_WEIGHT * p.b) / 10000) as u8
}

/// The weighted mean fits in a byte, so `spec_luminance` is that mean itself.
pub proof fn lemma_luminance_is_weighted_mean(p: Rgb)
    ensures
        spec_luminance(p) == (2126 * p.r + 7152 * p.g + 722 * p.b) / 10000,
        p.r == 0 && p.g == 0 && p.b == 0 ==> spec_luminance(p) == 0,
        p.r == 255 && p.g == 255 && p.b == 255 ==> spec_luminance(p) == 255,
{
}

/// Luminance as the `image` crate computes it. The body builds an
/// `image::Rgb<u8>` and calls `image::Pixel::to_luma` on it. For 8-bit
/// channels that method multiplies the channels by 2126, 7152 and 722 in
/// 32-bit arithmetic, adds the products and divides by 10000, rounding down;
/// the contract claims exactly that value. It was not proved.
#[verifier::external_body]
pub(crate) fn luminance(p: Rgb) -> (luma: u8)
    ensures
        luma == spec_luminance(p),
{
    image::Pixel::to_luma(&image::Rgb([p.r, p.g, p.b])).0[0]
}

} // verus!
