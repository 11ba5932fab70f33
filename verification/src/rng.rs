//! The one randomness source of the simulation.

use vstd::prelude::*;

verus! {

/// Relies on `rand::RngExt::random_range` on `rand::rng()` over a half-open
/// integer range: the sample lies in `[lo, hi)`. Nothing more is assumed of
/// the value.
#[verifier::external_body]
pub(crate) fn random_in_range(lo: i64, hi: i64) -> (r: i64)
    requires
        lo < hi,
    ensures
        lo <= r < hi,
{
    <rand::rngs::ThreadRng as rand::RngExt>::random_range(&mut rand::rng(), lo..hi)
}

} // verus!
