//! The simulation's one source of randomness.

use vstd::prelude::*;

verus! {

/// Relies on `rand::thread_rng` and `rand::Rng::gen_range`: a draw
/// from the range `0..n`, which panics only when the range is empty.
/// Nothing more is assumed of the outcome; every caller is verified
/// for every value below `n`.
#[verifier::external_body]
pub(crate) fn random_below(n: u32) -> (r: u32)
    requires
        n >= 1,
    ensures
        r < n,
{
    rand::Rng::gen_range(&mut rand::thread_rng(), 0..n)
}

} // verus!
