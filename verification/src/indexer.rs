//! What the block index found for one request, tier by tier.

use vstd::prelude::*;

use crate::keyed_map::KeyedMap;
use crate::protocols::{OverlapScores, StorageTier, WorkerWithDpRank};

verus! {

/// Matches in device memory.
#[derive(Debug)]
pub struct MatchDetails {
    pub overlap_scores: OverlapScores,
}

impl Default for MatchDetails {
    fn default() -> (d: Self)
        ensures
            d.overlap_scores.scores@ == Map::<WorkerWithDpRank, u32>::empty(),
    {
        MatchDetails { overlap_scores: OverlapScores::new() }
    }
}

/// Matches in one tier below device memory.
#[derive(Debug)]
pub struct LowerTierMatchDetails {
    /// For each worker, how many blocks in a row this tier adds past the end
    /// of the chain that the worker holds in the tiers above.
    pub hits: KeyedMap<WorkerWithDpRank, usize>,
}

impl Default for LowerTierMatchDetails {
    fn default() -> (d: Self)
        ensures
            d.hits@ == Map::<WorkerWithDpRank, usize>::empty(),
    {
        LowerTierMatchDetails { hits: KeyedMap::new() }
    }
}

/// Matches in all tiers.
#[derive(Debug)]
pub struct TieredMatchDetails {
    pub device: MatchDetails,
    pub lower_tier: KeyedMap<StorageTier, LowerTierMatchDetails>,
}

} // verus!
