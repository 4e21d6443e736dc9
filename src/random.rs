//! The process-wide pseudo-random generator that spawning and decoration draw from.
use vstd::prelude::*;

verus! {

/// Relies on `macroquad::rand::gen_range` for `u32`: it scales a 32-bit draw
/// `k` to `low + (high - low) * k / 2^32` and truncates, which is exact for
/// bounds up to 2^20 and so lies in `[low, high)`.
#[verifier::external_body]
pub(crate) fn random_below(low: u32, high: u32) -> (r: u32)
    requires
        low < high,
        high <= 1_000_000,
    ensures
        low <= r < high,
{
    macroquad::rand::gen_range::<u32>(low, high)
}

} // verus!
