//! Random draws, from quad-rand's global generator (the one that macroquad
//! re-exports as `macroquad::rand`).
use vstd::prelude::*;

verus! {

/// Relies on `quad_rand::gen_range` for `u32`: it scales one 32-bit draw into
/// `[low, high)`, exactly when the range is at most 2^16 wide.
#[verifier::external_body]
pub(crate) fn gen_range_u32(low: u32, high: u32) -> (r: u32)
    requires
        low < high <= 0x1_0000,
    ensures
        low <= r < high,
{
    quad_rand::gen_range(low, high)
}

} // verus!
