//! Identities of workers, blocks and storage tiers.

use std::cmp::Ordering;

use vstd::prelude::*;

use crate::keyed_map::{KeyedMap, MapKey};

verus! {

/// Identity of a worker process.
pub type WorkerId = u64;

/// Data-parallel rank within a worker.
pub type DpRank = u32;

/// Hash of the tokens of one block.
#[derive(Debug, Clone, Copy, PartialEq, Eq, Hash, Structural)]
pub struct LocalBlockHash(pub u64);

/// Where a worker keeps cached blocks.
#[derive(Debug, Clone, Copy, PartialEq, Eq, Hash, Structural)]
pub enum StorageTier {
    /// Accelerator memory (G1).
    Device,
    /// Pinned host memory (G2).
    HostPinned,
    /// Local disk (G3).
    Disk,
    /// Storage outside the node (G4).
    External,
}

impl MapKey for StorageTier {
    open spec fn key_code(self) -> u128 {
        match self {
            StorageTier::Device => 0,
            StorageTier::HostPinned => 1,
            StorageTier::Disk => 2,
            StorageTier::External => 3,
        }
    }

    proof fn key_code_injective(a: Self, b: Self) {
    }

    fn code(&self) -> (c: u128) {
        match self {
            StorageTier::Device => 0,
            StorageTier::HostPinned => 1,
            StorageTier::Disk => 2,
            StorageTier::External => 3,
        }
    }
}

/// One data-parallel rank of one worker.
#[derive(Debug, Clone, Copy, PartialEq, Eq, Hash, Structural)]
pub struct WorkerWithDpRank {
    pub worker_id: WorkerId,
    pub dp_rank: DpRank,
}

impl WorkerWithDpRank {
    pub fn new(worker_id: WorkerId, dp_rank: DpRank) -> (w: Self)
        ensures
            w == (WorkerWithDpRank { worker_id, dp_rank }),
    {
        WorkerWithDpRank { worker_id, dp_rank }
    }

    /// The order of workers: by worker, then by rank.
    pub open spec fn precedes(self, other: Self) -> bool {
        self.worker_id < other.worker_id || (self.worker_id == other.worker_id && self.dp_rank
            < other.dp_rank)
    }
}

impl PartialOrd for WorkerWithDpRank {
    fn partial_cmp(&self, other: &Self) -> (o: Option<Ordering>) {
        if self.worker_id < other.worker_id {
            Some(Ordering::Less)
        } else if self.worker_id > other.worker_id {
            Some(Ordering::Greater)
        } else if self.dp_rank < other.dp_rank {
            Some(Ordering::Less)
        } else if self.dp_rank > other.dp_rank {
            Some(Ordering::Greater)
        } else {
            Some(Ordering::Equal)
        }
    }
}

impl vstd::std_specs::cmp::PartialOrdSpecImpl for WorkerWithDpRank {
    open spec fn obeys_partial_cmp_spec() -> bool {
        true
    }

    open spec fn partial_cmp_spec(&self, other: &Self) -> Option<Ordering> {
        if self.precedes(*other) {
            Some(Ordering::Less)
        } else if other.precedes(*self) {
            Some(Ordering::Greater)
        } else {
            Some(Ordering::Equal)
        }
    }
}

/// A worker comes before another if its id is lower, or if the ids are equal and
/// its rank is lower; only equal worker and rank compare as equal.
pub proof fn workers_are_ordered_by_id_then_rank(a: WorkerWithDpRank, b: WorkerWithDpRank)
    ensures
        vstd::std_specs::cmp::PartialOrdSpec::partial_cmp_spec(&a, &b) == (if a.worker_id
            < b.worker_id {
            Some(Ordering::Less)
        } else if a.worker_id > b.worker_id {
            Some(Ordering::Greater)
        } else if a.dp_rank < b.dp_rank {
            Some(Ordering::Less)
        } else if a.dp_rank > b.dp_rank {
            Some(Ordering::Greater)
        } else {
            Some(Ordering::Equal)
        }),
        a.precedes(b) <==> a.worker_id < b.worker_id || (a.worker_id == b.worker_id && a.dp_rank
            < b.dp_rank),
{
}

impl MapKey for WorkerWithDpRank {
    open spec fn key_code(self) -> u128 {
        (self.worker_id * 0x1_0000_0000 + self.dp_rank) as u128
    }

    proof fn key_code_injective(a: Self, b: Self) {
    }

    fn code(&self) -> (c: u128) {
        self.worker_id as u128 * 0x1_0000_0000 + self.dp_rank as u128
    }
}

/// How many leading blocks of a request each worker holds in device memory.
#[derive(Debug)]
pub struct OverlapScores {
    pub scores: KeyedMap<WorkerWithDpRank, u32>,
}

impl OverlapScores {
    /// Makes scores in which no worker is listed.
    pub fn new() -> (s: Self)
        ensures
            s.scores@ == Map::<WorkerWithDpRank, u32>::empty(),
    {
        OverlapScores { scores: KeyedMap::new() }
    }
}

impl Default for OverlapScores {
    fn default() -> (s: Self)
        ensures
            s.scores@ == Map::<WorkerWithDpRank, u32>::empty(),
    {
        OverlapScores::new()
    }
}

} // verus!
