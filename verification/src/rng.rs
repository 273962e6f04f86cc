//! The randomness boundary: thin trusted wrappers around the `rand` crate.
//! Every caller states only what holds of every possible outcome — a shuffle
//! is some permutation, a draw is some admissible index — and the verified
//! logic is proved for each such outcome.

use rand::Rng;
use rand::distributions::Distribution;
use rand::seq::SliceRandom;
use vstd::prelude::*;

verus! {

/// The sum of a sequence of weights.
pub open spec fn weight_sum(ws: Seq<u32>) -> int
    decreases ws.len(),
{
    if ws.len() == 0 {
        0
    } else {
        weight_sum(ws.drop_last()) + ws.last()
    }
}

/// A sum of weights is never negative.
pub proof fn lemma_weight_sum_nonneg(ws: Seq<u32>)
    ensures
        weight_sum(ws) >= 0,
    decreases ws.len(),
{
    if ws.len() > 0 {
        lemma_weight_sum_nonneg(ws.drop_last());
    }
}

/// Every single weight is bounded by the sum.
pub proof fn lemma_weight_le_sum(ws: Seq<u32>, i: int)
    requires
        0 <= i < ws.len(),
    ensures
        ws[i] <= weight_sum(ws),
    decreases ws.len(),
{
    lemma_weight_sum_nonneg(ws.drop_last());
    if i < ws.len() - 1 {
        lemma_weight_le_sum(ws.drop_last(), i);
        assert(ws.drop_last()[i] == ws[i]);
    }
}

/// Relies on rand's slice `shuffle`: the Fisher-Yates shuffle permutes the
/// elements in place by swaps, so exactly the same values remain, reordered.
#[verifier::external_body]
pub(crate) fn shuffle_ids(ids: &mut Vec<u32>)
    ensures
        final(ids)@.len() == old(ids)@.len(),
        final(ids)@.to_multiset() == old(ids)@.to_multiset(),
{
    ids.as_mut_slice().shuffle(&mut rand::thread_rng());
}

/// Relies on rand's `gen_range`: returns a value drawn from the given
/// (nonempty) range, so the result is below `n`.
#[verifier::external_body]
pub(crate) fn random_below(n: usize) -> (r: usize)
    requires
        n > 0,
    ensures
        r < n,
{
    rand::thread_rng().gen_range(0..n)
}

/// Relies on rand's `WeightedIndex`: with a nonempty weight list whose sum is
/// positive and does not overflow, `new` succeeds, and `sample` draws an index
/// with probability proportional to its weight — in particular an index whose
/// weight is zero is never drawn.
#[verifier::external_body]
pub(crate) fn weighted_random_index(weights: &Vec<u32>) -> (r: usize)
    requires
        weights@.len() > 0,
        exists|i: int| 0 <= i < weights@.len() && weights@[i] > 0,
        weight_sum(weights@) <= u32::MAX,
    ensures
        r < weights@.len(),
        weights@[r as int] > 0,
{
    let dist = rand::distributions::WeightedIndex::new(weights).unwrap();
    dist.sample(&mut rand::thread_rng())
}

} // verus!
