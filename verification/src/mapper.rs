//! Coordinate wrapping: the mapper that folds a displaced coordinate back
//! into image bounds, and the saturating conversion from a signed
//! displacement to an unsigned one.

use vstd::prelude::*;

verus! {

/// The wrapped coordinate: `coord` and `offset_coord` are added with
/// 32-bit wraparound, the wrapped sum (a non-negative value below `2^32`)
/// is reduced modulo `bounds_coord`.
pub open spec fn spec_modified_pixel(coord: u32, offset_coord: u32, bounds_coord: u32) -> u32
    recommends
        bounds_coord > 0,
{
    (vstd::wrapping::u32_specs::wrapping_add(coord, offset_coord) as int % bounds_coord as int) as u32
}

/// Folds a coordinate displaced by `offset_coord` back into `[0, bounds_coord)`.
pub fn modified_pixel(coord: u32, offset_coord: u32, bounds_coord: u32) -> (r: u32)
    requires
        bounds_coord > 0,
    ensures
        r == spec_modified_pixel(coord, offset_coord, bounds_coord),
        r < bounds_coord,
        offset_coord == 0 && coord < bounds_coord ==> r == coord,
        coord == 0 && offset_coord < bounds_coord ==> r == offset_coord,
{
    let wrapped: u32 = coord.wrapping_add(offset_coord);
    proof {
        if wrapped < bounds_coord {
            vstd::arithmetic::div_mod::lemma_small_mod(wrapped as nat, bounds_coord as nat);
        }
    }
    wrapped % bounds_coord
}

/// The saturating conversion of a signed displacement to a coordinate
/// offset: values outside `[0, u32::MAX]` (negative ones included)
/// saturate to `u32::MAX`.
pub open spec fn spec_saturate_to_u32(v: i64) -> u32 {
    if 0 <= v <= u32::MAX {
        v as u32
    } else {
        u32::MAX
    }
}

/// Converts a signed displacement to an unsigned coordinate offset,
/// saturating to `u32::MAX` when the value does not fit.
pub fn saturate_to_u32(v: i64) -> (r: u32)
    ensures
        r == spec_saturate_to_u32(v),
{
    if 0 <= v && v <= u32::MAX as i64 {
        v as u32
    } else {
        u32::MAX
    }
}

} // verus!
