//! The one source of randomness: spawn placement and projectile headings are
//! drawn from the process-wide generator.

use vstd::prelude::*;

verus! {

/// Relies on rand::Rng::gen_range over the half-open range `lo..hi` of `i64`:
/// it panics on an empty range and otherwise returns a value inside it.
/// Nothing more is promised of a random draw.
#[verifier::external_body]
pub(crate) fn rand_range(lo: i64, hi: i64) -> (r: i64)
    requires
        lo < hi,
    ensures
        lo <= r < hi,
{
    rand::Rng::gen_range(&mut rand::thread_rng(), lo..hi)
}

} // verus!
