//! Areas computed from bare side lengths.

use vstd::prelude::*;

verus! {

/// The area, in square pixels, of a rectangle with the given sides.
///
/// The sides are `u32` and the area is `u64`: the product of two `u32` values
/// always fits, so the result is the exact mathematical product for every
/// input.
pub fn area(width: u32, height: u32) -> (a: u64)
    ensures
        a == width * height,
{
    assert(width * height <= u64::MAX) by (nonlinear_arith);
    let w: u64 = width as u64;
    let h: u64 = height as u64;
    w * h
}

/// The area of a rectangle given as a `(width, height)` pair.
pub fn area_with_tuple(dimensions: (u32, u32)) -> (a: u64)
    ensures
        a == dimensions.0 * dimensions.1,
{
    area(dimensions.0, dimensions.1)
}

} // verus!
