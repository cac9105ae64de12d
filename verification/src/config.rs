//! The configuration record: the scalar parameters of one corruption
//! run, immutable for its duration.

use vstd::prelude::*;

verus! {

/// The parameters of the three corruption passes. `stride_magnitude`
/// holds the floor of the configured stride strength: only its integer
/// part ever enters the block-dissolve arithmetic.
#[derive(Clone, Copy, Debug)]
pub struct Config {
    /// Strength of the per-pixel spatial jitter.
    pub magnitude: i64,
    /// Average height of a distorted block.
    pub block_height: u32,
    /// Average offset of a distorted block.
    pub block_offset: u32,
    /// Floor of the distorted block's stride strength.
    pub stride_magnitude: u32,
    /// Base red scanline lag.
    pub lr: u32,
    /// Base green scanline lag.
    pub lg: u32,
    /// Base blue scanline lag.
    pub lb: u32,
    /// Strength of the shared red-blue channel offset.
    pub std_offset: u32,
    /// Additional brightness, applied per channel with wraparound.
    pub brightness_addition: u8,
    /// Mean chromatic aberration offset.
    pub mean_abberation: u32,
    /// Strength of the chromatic aberration jitter.
    pub std_abberation: u32,
}

impl Default for Config {
    /// The stock parameters of a corruption run.
    fn default() -> (c: Config)
        ensures
            c == (Config {
                magnitude: 7i64,
                block_height: 15u32,
                block_offset: 30u32,
                stride_magnitude: 0u32,
                lr: 12u32,
                lg: 17u32,
                lb: 18u32,
                std_offset: 10u32,
                brightness_addition: 3u8,
                mean_abberation: 10u32,
                std_abberation: 1u32,
            }),
    {
        Config {
            magnitude: 7,
            block_height: 15,
            block_offset: 30,
            stride_magnitude: 0,
            lr: 12,
            lg: 17,
            lb: 18,
            std_offset: 10,
            brightness_addition: 3,
            mean_abberation: 10,
            std_abberation: 1,
        }
    }
}

} // verus!
