//! Random choices.
use rand::Rng;
use vstd::prelude::*;

verus! {

/// A whole number drawn at random from `low` up to, but not including, `high`.
///
/// Calls `gen_range` of `rand::Rng` on the generator of the thread. The
/// contract claims only that the number lies in the range, which `rand`
/// documents; `gen_range` panics on an empty range, which `requires` rules out.
#[verifier::external_body]
pub(crate) fn random_between(low: i64, high: i64) -> (r: i64)
    requires
        low < high,
    ensures
        low <= r < high,
{
    rand::thread_rng().gen_range(low, high)
}

} // verus!
