//! Single-bit access into a byte, shared by the header flags and the tile
//! bitplanes.

use vstd::prelude::*;

verus! {

/// True iff bit `idx` (counted from the least-significant end) is set in `num`.
pub open spec fn bit_set(num: u8, idx: u8) -> bool
    recommends
        idx < 8,
{
    (num >> idx) & 1 == 1
}

/// Tests bit `idx` of `num`.
pub fn bit_at(num: u8, idx: u8) -> (r: bool)
    requires
        idx < 8,
    ensures
        r == bit_set(num, idx),
{
    (num >> idx) & 1 == 1
}

} // verus!
