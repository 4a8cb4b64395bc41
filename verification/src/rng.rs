//! The one source of randomness: a uniform draw used to pick the
//! opponent's cell.

use vstd::prelude::*;

verus! {

/// Relies on rand::Rng::gen_range with the range `0..n`: it panics only
/// on an empty range, and otherwise returns a uniformly distributed
/// value inside the range, so the result is always below `n`. Nothing
/// more is promised: the draw is random, so two calls on the same `n`
/// may differ.
#[verifier::external_body]
pub(crate) fn random_below(n: usize) -> (r: usize)
    requires
        0 < n,
    ensures
        r < n,
{
    rand::Rng::gen_range(&mut rand::thread_rng(), 0..n)
}

} // verus!
