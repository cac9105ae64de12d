//! The random source: a seedable generator from the rand crate behind
//! trusted draws, and the verified offset maps that scale a draw by a
//! magnitude with wraparound multiplication.

use rand::Rng;
use vstd::prelude::*;

verus! {

#[verifier::external_type_specification]
#[verifier::external_body]
pub struct ExStdRng(rand::rngs::StdRng);

/// Relies on rand's `Rng::sample` with the `Standard` distribution: one
/// uniformly distributed `u32`, advancing the generator's state. Nothing
/// is promised of the value.
#[verifier::external_body]
pub(crate) fn draw_u32(rng: &mut rand::rngs::StdRng) -> u32 {
    rng.sample::<u32, _>(rand::distributions::Standard)
}

/// Relies on rand's `Rng::sample` with the `Standard` distribution: one
/// uniformly distributed `i64`, advancing the generator's state. Nothing
/// is promised of the value.
#[verifier::external_body]
pub(crate) fn draw_i64(rng: &mut rand::rngs::StdRng) -> i64 {
    rng.sample::<i64, _>(rand::distributions::Standard)
}

/// Relies on rand's `Rng::gen_ratio`: a Bernoulli trial that succeeds
/// with probability `numerator / denominator`. rand panics when the
/// ratio is no probability, so those inputs are excluded; its source
/// returns `false` always for a zero numerator and `true` always when
/// the ratio is one.
#[verifier::external_body]
pub(crate) fn bernoulli(rng: &mut rand::rngs::StdRng, numerator: u32, denominator: u32) -> (r:
    bool)
    requires
        0 < denominator,
        numerator <= denominator,
    ensures
        numerator == 0 ==> !r,
        numerator == denominator ==> r,
{
    rng.gen_ratio(numerator, denominator)
}

/// Maps a magnitude to a signed spatial displacement: a uniform draw
/// scaled by `magnitude` with wraparound multiplication. A zero
/// magnitude yields no displacement, whatever was drawn.
pub fn offset_i64(rng: &mut rand::rngs::StdRng, magnitude: i64) -> (r: i64)
    ensures
        magnitude == 0 ==> r == 0,
{
    let random = draw_i64(rng);
    random.wrapping_mul(magnitude)
}

/// Maps a magnitude to an unsigned spatial displacement: a uniform draw
/// scaled by `magnitude` with wraparound multiplication. A zero
/// magnitude yields no displacement, whatever was drawn.
pub fn offset_u32(rng: &mut rand::rngs::StdRng, magnitude: u32) -> (r: u32)
    ensures
        magnitude == 0 ==> r == 0,
{
    let random = draw_u32(rng);
    random.wrapping_mul(magnitude)
}

} // verus!
