//! The rules by which a reuse plan is chosen, over mathematical values.

use vstd::prelude::*;

use crate::decimal;
use crate::protocols::{DpRank, LocalBlockHash, StorageTier, WorkerId, WorkerWithDpRank};
use crate::remote_g2_plan::{
    RemoteKvReuseNoPlanReason, RemoteKvReuseSelectionStats, REMOTE_KV_REUSE_PLAN_VERSION,
};

verus! {

/// What the choice of a plan depends on.
pub struct SelectionRequest {
    pub request_id: Seq<char>,
    pub target: WorkerWithDpRank,
    pub block_hashes: Seq<LocalBlockHash>,
    pub block_size_tokens: u32,
    /// Leading blocks that each worker holds in device memory.
    pub device: Map<WorkerWithDpRank, u32>,
    /// Blocks that pinned host memory adds on each worker, if the index
    /// reported that tier at all.
    pub host_pinned: Option<Map<WorkerWithDpRank, usize>>,
    pub created_at_ms: u64,
    pub expires_at_ms: u64,
}

/// The contents of a plan.
pub struct ReusePlan {
    pub plan_id: Seq<char>,
    pub request_id: Seq<char>,
    pub target_worker_id: WorkerId,
    pub target_dp_rank: DpRank,
    pub source_worker_id: WorkerId,
    pub source_dp_rank: DpRank,
    pub source_tier: StorageTier,
    pub block_hashes: Seq<LocalBlockHash>,
    pub start_block_index: u32,
    pub planned_prefix_blocks: u32,
    pub block_size_tokens: u32,
    pub created_at_ms: u64,
    pub expires_at_ms: u64,
    pub plan_version: u32,
}

/// The outcome of a choice.
pub enum ReuseDecision {
    Plan { plan: ReusePlan, stats: RemoteKvReuseSelectionStats },
    NoPlan { reason: RemoteKvReuseNoPlanReason, stats: RemoteKvReuseSelectionStats },
}

impl SelectionRequest {
    /// The tables of matches list finitely many workers, as every table in
    /// memory does.
    pub open spec fn wf(self) -> bool {
        &&& self.device.dom().finite()
        &&& self.host_pinned matches Some(hits) ==> hits.dom().finite()
    }
}

impl ReusePlan {
    /// The worker that the blocks are pulled from.
    pub open spec fn source(self) -> WorkerWithDpRank {
        WorkerWithDpRank { worker_id: self.source_worker_id, dp_rank: self.source_dp_rank }
    }

    /// The worker that pulls the blocks.
    pub open spec fn target(self) -> WorkerWithDpRank {
        WorkerWithDpRank { worker_id: self.target_worker_id, dp_rank: self.target_dp_rank }
    }
}

impl ReuseDecision {
    pub open spec fn stats(self) -> RemoteKvReuseSelectionStats {
        match self {
            ReuseDecision::Plan { plan: _, stats } => stats,
            ReuseDecision::NoPlan { reason: _, stats } => stats,
        }
    }
}

pub open spec fn min_nat(a: nat, b: nat) -> nat {
    if a <= b {
        a
    } else {
        b
    }
}

/// `n` cut down to its low 32 bits.
pub open spec fn low_32_bits(n: nat) -> u32 {
    (n % 0x1_0000_0000) as u32
}

/// The workers that hold at least one block in device memory.
pub open spec fn device_holders(device: Map<WorkerWithDpRank, u32>) -> Set<WorkerWithDpRank> {
    device.dom().filter(|w: WorkerWithDpRank| device[w] > 0)
}

/// The statistics of a choice: device memory is never read remotely, so each
/// worker that holds blocks there is a rejected candidate.
pub open spec fn selection_stats(device: Map<WorkerWithDpRank, u32>) -> RemoteKvReuseSelectionStats {
    RemoteKvReuseSelectionStats { rejected_g1_candidates: low_32_bits(device_holders(device).len()) }
}

/// Some worker other than the target reported on its pinned host memory.
pub open spec fn has_remote(
    hits: Map<WorkerWithDpRank, usize>,
    target: WorkerWithDpRank,
) -> bool {
    exists|w: WorkerWithDpRank| #[trigger] hits.contains_key(w) && w != target
}

/// `w` is not the target, and holds blocks of the request in pinned host
/// memory.
pub open spec fn is_candidate(
    hits: Map<WorkerWithDpRank, usize>,
    target: WorkerWithDpRank,
    w: WorkerWithDpRank,
) -> bool {
    hits.contains_key(w) && w != target && hits[w] > 0
}

/// `a` is a better source than `b`: it holds more blocks, or as many and comes
/// first in the order of workers.
pub open spec fn outranks(
    hits: Map<WorkerWithDpRank, usize>,
    a: WorkerWithDpRank,
    b: WorkerWithDpRank,
) -> bool {
    hits[a] > hits[b] || (hits[a] == hits[b] && a.precedes(b))
}

/// `w` is the best of all candidates.
pub open spec fn is_best_source(
    hits: Map<WorkerWithDpRank, usize>,
    target: WorkerWithDpRank,
    w: WorkerWithDpRank,
) -> bool {
    &&& is_candidate(hits, target, w)
    &&& forall|v: WorkerWithDpRank| #[trigger]
        is_candidate(hits, target, v) && v != w ==> outranks(hits, w, v)
}

/// The best of all candidates, if there is one.
pub open spec fn best_source(
    hits: Map<WorkerWithDpRank, usize>,
    target: WorkerWithDpRank,
) -> Option<WorkerWithDpRank> {
    if exists|w: WorkerWithDpRank| is_best_source(hits, target, w) {
        Some(choose|w: WorkerWithDpRank| is_best_source(hits, target, w))
    } else {
        None
    }
}

/// How many leading blocks `w` holds in device memory.
pub open spec fn device_match(device: Map<WorkerWithDpRank, u32>, w: WorkerWithDpRank) -> nat {
    if device.contains_key(w) {
        device[w] as nat
    } else {
        0
    }
}

/// The position in the request's prefix where the blocks that `source` holds
/// in pinned host memory begin: where its chain in device memory ends.
pub open spec fn start_position(req: SelectionRequest, source: WorkerWithDpRank) -> nat {
    min_nat(device_match(req.device, source), req.block_hashes.len())
}

/// How many blocks of the request `source` can hand over: those that it
/// holds in pinned host memory, as far as the request reaches.
pub open spec fn reusable_blocks(
    req: SelectionRequest,
    hits: Map<WorkerWithDpRank, usize>,
    source: WorkerWithDpRank,
) -> nat {
    min_nat(hits[source] as nat, (req.block_hashes.len() - start_position(req, source)) as nat)
}

/// The number of blocks in the plan, which the plan holds in 32 bits.
pub open spec fn planned_blocks(
    req: SelectionRequest,
    hits: Map<WorkerWithDpRank, usize>,
    source: WorkerWithDpRank,
) -> u32 {
    low_32_bits(reusable_blocks(req, hits, source))
}

/// The identifier of a plan.
pub open spec fn plan_id(
    request_id: Seq<char>,
    source: WorkerWithDpRank,
    created_at_ms: u64,
) -> Seq<char> {
    "remote-g2:"@ + request_id + ":"@ + decimal::decimal(source.worker_id as nat) + ":"@ + decimal::decimal(
        source.dp_rank as nat,
    ) + ":"@ + decimal::decimal(created_at_ms as nat)
}

/// The plan that pulls from `source`.
pub open spec fn plan_from(
    req: SelectionRequest,
    hits: Map<WorkerWithDpRank, usize>,
    source: WorkerWithDpRank,
) -> ReusePlan {
    let start = start_position(req, source);
    let count = planned_blocks(req, hits, source);
    ReusePlan {
        plan_id: plan_id(req.request_id, source, req.created_at_ms),
        request_id: req.request_id,
        target_worker_id: req.target.worker_id,
        target_dp_rank: req.target.dp_rank,
        source_worker_id: source.worker_id,
        source_dp_rank: source.dp_rank,
        source_tier: StorageTier::HostPinned,
        block_hashes: req.block_hashes.subrange(start as int, start + count),
        start_block_index: start as u32,
        planned_prefix_blocks: count,
        block_size_tokens: req.block_size_tokens,
        created_at_ms: req.created_at_ms,
        expires_at_ms: req.expires_at_ms,
        plan_version: REMOTE_KV_REUSE_PLAN_VERSION,
    }
}

/// The decision on a request.
pub open spec fn decide(req: SelectionRequest) -> ReuseDecision {
    let stats = selection_stats(req.device);
    match req.host_pinned {
        None => ReuseDecision::NoPlan {
            reason: RemoteKvReuseNoPlanReason::NoRemoteG2Candidate,
            stats,
        },
        Some(hits) => match best_source(hits, req.target) {
            None => ReuseDecision::NoPlan {
                reason: if has_remote(hits, req.target) {
                    RemoteKvReuseNoPlanReason::NoContiguousPrefix
                } else {
                    RemoteKvReuseNoPlanReason::NoRemoteG2Candidate
                },
                stats,
            },
            Some(source) => if planned_blocks(req, hits, source) == 0 {
                ReuseDecision::NoPlan {
                    reason: RemoteKvReuseNoPlanReason::NoContiguousPrefix,
                    stats,
                }
            } else {
                ReuseDecision::Plan { plan: plan_from(req, hits, source), stats }
            },
        },
    }
}

/// There is at most one best candidate.
pub proof fn lemma_best_source_is_unique(
    hits: Map<WorkerWithDpRank, usize>,
    target: WorkerWithDpRank,
    a: WorkerWithDpRank,
    b: WorkerWithDpRank,
)
    requires
        is_best_source(hits, target, a),
        is_best_source(hits, target, b),
    ensures
        a == b,
{
    if a != b {
        assert(outranks(hits, a, b));
        assert(outranks(hits, b, a));
    }
}

} // verus!
