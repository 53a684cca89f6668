//! Randomness for spawn angles, target choice and respawn sampling.
//!
//! One trusted wrapper draws raw 64-bit values; everything that shapes
//! them into ranges is verified arithmetic.

use vstd::prelude::*;

verus! {

/// Relies on rand::random: a fresh 64-bit value from the thread-local
/// generator. Nothing is promised of it; every caller must hold for
/// every outcome.
#[verifier::external_body]
fn random_u64() -> u64 {
    rand::random()
}

/// A draw from `[lo, hi)`, by reducing a raw 64-bit draw modulo the
/// width. (The slight modulo bias is irrelevant here: the game only
/// needs an arbitrary value in range, never exact uniformity.)
pub fn rand_in_range(lo: i64, hi: i64) -> (r: i64)
    requires
        lo < hi,
        -1_000_000_000 <= lo,
        hi <= 1_000_000_000,
    ensures
        lo <= r < hi,
{
    let width = (hi - lo) as u64;
    let x = random_u64() % width;
    lo + x as i64
}

} // verus!
