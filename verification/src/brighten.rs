//! The brightening remap: a per-channel intensity adjustment computed
//! entirely in 8-bit wraparound arithmetic.

use crate::raster::Pixel;
use vstd::prelude::*;

verus! {

/// The brightening formula, all steps in 8-bit wraparound arithmetic:
/// `value - value * addition / 255 + addition`, with a truncating
/// division of the wrapped product.
pub open spec fn spec_brighten(value: u8, addition: u8) -> u8 {
    let scaled = vstd::wrapping::u8_specs::wrapping_mul(value, addition) / 255;
    vstd::wrapping::u8_specs::wrapping_add(
        vstd::wrapping::u8_specs::wrapping_sub(value, scaled),
        addition,
    )
}

/// Remaps one channel value: attenuates it by the headroom that
/// `addition` implies, then adds `addition` back, wrapping at each step.
pub fn brighten_pixels(value: u8, addition: u8) -> (r: u8)
    ensures
        r == spec_brighten(value, addition),
{
    let scaled: u8 = value.wrapping_mul(addition) / 255;
    value.wrapping_sub(scaled).wrapping_add(addition)
}

/// The brightening remap applied to all four channels of a pixel.
pub open spec fn spec_brighten_rgba(p: Pixel, addition: u8) -> Pixel {
    Pixel {
        r: spec_brighten(p.r, addition),
        g: spec_brighten(p.g, addition),
        b: spec_brighten(p.b, addition),
        a: spec_brighten(p.a, addition),
    }
}

/// Remaps all four channels of a pixel.
pub fn brighten_rgba(p: Pixel, addition: u8) -> (q: Pixel)
    ensures
        q == spec_brighten_rgba(p, addition),
{
    Pixel {
        r: brighten_pixels(p.r, addition),
        g: brighten_pixels(p.g, addition),
        b: brighten_pixels(p.b, addition),
        a: brighten_pixels(p.a, addition),
    }
}

/// With no addition, the brightening remap returns the channel unchanged.
pub proof fn lemma_brighten_zero(value: u8)
    ensures
        spec_brighten(value, 0) == value,
{
}

/// With no addition, the brightening remap returns the pixel unchanged.
pub proof fn lemma_brighten_rgba_zero(p: Pixel)
    ensures
        spec_brighten_rgba(p, 0) == p,
{
    lemma_brighten_zero(p.r);
    lemma_brighten_zero(p.g);
    lemma_brighten_zero(p.b);
    lemma_brighten_zero(p.a);
}

} // verus!
