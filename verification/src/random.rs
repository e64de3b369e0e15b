//! The simulation's dice. Each function here hands a request to the `rand`
//! crate's thread-local generator; nothing about the values drawn is proved,
//! only the ranges that `rand` documents are stated.
use vstd::prelude::*;
use rand::Rng;
use rand::distributions::Distribution;

verus! {

/// Sum of a list of weights.
pub open spec fn total_weight(weights: Seq<u32>) -> int
    decreases weights.len(),
{
    if weights.len() == 0 {
        0
    } else {
        total_weight(weights.drop_last()) + weights.last()
    }
}

/// Calls `rand::Rng::gen_range` on the inclusive range `low..=high`, which
/// panics on an empty range and otherwise returns a value of the range.
#[verifier::external_body]
pub(crate) fn random_between(low: i64, high: i64) -> (r: i64)
    requires
        low <= high,
    ensures
        low <= r <= high,
{
    rand::thread_rng().gen_range(low..=high)
}

/// Calls `rand::Rng::gen_ratio(1, 2)`: a fair coin. Nothing is known of the
/// outcome.
#[verifier::external_body]
pub(crate) fn random_flip() -> (r: bool)
{
    rand::thread_rng().gen_ratio(1, 2)
}

/// Builds a `rand::distributions::WeightedIndex` over `weights` and samples
/// it once. Construction fails on an empty list or on weights that are all
/// zero; a sample is an index into the list.
#[verifier::external_body]
pub(crate) fn weighted_index(weights: &Vec<u32>) -> (r: usize)
    requires
        weights@.len() > 0,
        0 < total_weight(weights@) <= u32::MAX,
    ensures
        r < weights@.len(),
{
    rand::distributions::WeightedIndex::new(weights).unwrap().sample(&mut rand::thread_rng())
}

} // verus!
