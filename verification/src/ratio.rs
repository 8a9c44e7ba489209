//! The derived-ratio rule shared by the window summaries: division by a
//! zero denominator is defined to yield exactly 0, never an error.

use vstd::prelude::*;

verus! {

/// The fixed-point ratio `num / den` at scale 10^8, rounded toward zero;
/// exactly 0 whenever `den` is 0, for any `num`.
pub open spec fn scaled_ratio(num: int, den: int) -> int {
    if den == 0 {
        0
    } else {
        num * 100_000_000 / den
    }
}

/// Computes [`scaled_ratio`] on measure-sized operands.
pub fn ratio_scaled(num: u64, den: u64) -> (r: u128)
    ensures
        r as int == scaled_ratio(num as int, den as int),
{
    if den == 0 {
        0
    } else {
        (num as u128) * 100_000_000 / (den as u128)
    }
}

} // verus!
