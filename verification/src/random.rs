//! The one source of chance.

use vstd::prelude::*;
use rand::Rng;

verus! {

/// A number drawn by `rand::Rng::gen_range` on the thread's generator
/// (`rand::thread_rng`) from the half-open range `low..high`. The generator
/// promises a member of the range and nothing else about it; on an empty
/// range it panics, so the range must not be empty.
#[verifier::external_body]
pub(crate) fn random_in(low: usize, high: usize) -> (drawn: usize)
    requires
        low < high,
    ensures
        low <= drawn < high,
{
    rand::thread_rng().gen_range(low..high)
}

} // verus!
