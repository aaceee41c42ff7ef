//! The one randomness primitive the generators draw from.

use vstd::prelude::*;

verus! {

/// Relies on rand::thread_rng and rand::Rng::gen_range: drawing from the
/// inclusive range `lo..=hi` returns a value inside that range, uniformly
/// distributed; the range is non-empty, so the call does not panic.
#[verifier::external_body]
pub(crate) fn random_in_range(lo: u64, hi: u64) -> (r: u64)
    requires
        lo <= hi,
    ensures
        lo <= r <= hi,
{
    rand::Rng::gen_range(&mut rand::thread_rng(), lo..=hi)
}

} // verus!
