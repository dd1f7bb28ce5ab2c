//! Plans for pulling cached blocks out of another worker's pinned host memory.
//!
//! A plan names a source worker and a run of the request's blocks. It says
//! nothing of where those blocks lie in memory: the source resolves them when
//! the target asks.

use vstd::prelude::*;
use vstd::slice::{slice_subrange, slice_to_vec};
use vstd::std_specs::iter::IteratorSpec;

use crate::decimal;
use crate::decimal::append_decimal;
use crate::indexer::TieredMatchDetails;
use crate::keyed_map;
use crate::keyed_map::KeyedMap;
use crate::protocols::{DpRank, LocalBlockHash, StorageTier, WorkerId, WorkerWithDpRank};
use crate::selection;
use crate::selection::{ReuseDecision, ReusePlan, SelectionRequest};

verus! {

/// Key under which a request's extra arguments carry a plan.
pub const REMOTE_KV_REUSE_PLAN_EXTRA_ARGS_KEY: &'static str = "remote_kv_reuse_plan";

/// Key under which a request's extra arguments carry the reason for having no
/// plan.
pub const REMOTE_KV_REUSE_NO_PLAN_REASON_EXTRA_ARGS_KEY: &'static str = "remote_kv_reuse_no_plan_reason";

/// Version of the plan format.
pub const REMOTE_KV_REUSE_PLAN_VERSION: u32 = 1;

/// A plan for one request.
///
/// Compatibility identity is not part of this version of the format; the
/// source's own resolution of the hashes remains authoritative.
#[derive(Debug, Clone, PartialEq, Eq)]
pub struct RemoteKvReusePlan {
    pub plan_id: String,
    pub request_id: String,
    pub target_worker_id: WorkerId,
    pub target_dp_rank: DpRank,
    pub source_worker_id: WorkerId,
    pub source_dp_rank: DpRank,
    pub source_tier: StorageTier,
    pub block_hashes: Vec<LocalBlockHash>,
    /// Position in the request's prefix where `block_hashes[0]` lives.
    /// Equals the source worker's device-tier match count at plan time.
    /// The target's connector uses this to verify alignment with its own
    /// `num_computed_tokens` before attaching descriptors.
    pub start_block_index: u32,
    pub planned_prefix_blocks: u32,
    pub block_size_tokens: u32,
    pub created_at_ms: u64,
    pub expires_at_ms: u64,
    pub plan_version: u32,
}

/// Why there is no plan.
#[derive(Debug, Clone, Copy, PartialEq, Eq, Structural)]
pub enum RemoteKvReuseNoPlanReason {
    Disabled,
    NoRemoteG2Candidate,
    NoContiguousPrefix,
    SourceIsTarget,
    IncompatibleBlockSize,
    PlanExpired,
    SerializationFailed,
}

impl RemoteKvReuseNoPlanReason {
    /// The label of the reason.
    pub open spec fn label(self) -> Seq<char> {
        match self {
            RemoteKvReuseNoPlanReason::Disabled => "disabled"@,
            RemoteKvReuseNoPlanReason::NoRemoteG2Candidate => "no_remote_g2_candidate"@,
            RemoteKvReuseNoPlanReason::NoContiguousPrefix => "no_contiguous_prefix"@,
            RemoteKvReuseNoPlanReason::SourceIsTarget => "source_is_target"@,
            RemoteKvReuseNoPlanReason::IncompatibleBlockSize => "incompatible_block_size"@,
            RemoteKvReuseNoPlanReason::PlanExpired => "plan_expired"@,
            RemoteKvReuseNoPlanReason::SerializationFailed => "serialization_failed"@,
        }
    }

    pub fn as_str(&self) -> (s: &'static str)
        ensures
            s@ == self.label(),
            match *self {
                RemoteKvReuseNoPlanReason::Disabled => s@ == "disabled"@,
                RemoteKvReuseNoPlanReason::NoRemoteG2Candidate => s@ == "no_remote_g2_candidate"@,
                RemoteKvReuseNoPlanReason::NoContiguousPrefix => s@ == "no_contiguous_prefix"@,
                RemoteKvReuseNoPlanReason::SourceIsTarget => s@ == "source_is_target"@,
                RemoteKvReuseNoPlanReason::IncompatibleBlockSize => s@
                    == "incompatible_block_size"@,
                RemoteKvReuseNoPlanReason::PlanExpired => s@ == "plan_expired"@,
                RemoteKvReuseNoPlanReason::SerializationFailed => s@ == "serialization_failed"@,
            },
    {
        match self {
            Self::Disabled => "disabled",
            Self::NoRemoteG2Candidate => "no_remote_g2_candidate",
            Self::NoContiguousPrefix => "no_contiguous_prefix",
            Self::SourceIsTarget => "source_is_target",
            Self::IncompatibleBlockSize => "incompatible_block_size",
            Self::PlanExpired => "plan_expired",
            Self::SerializationFailed => "serialization_failed",
        }
    }
}

/// What the choice of a plan is made from.
pub struct RemoteKvReuseSelectionInput<'a> {
    pub request_id: &'a str,
    pub target: WorkerWithDpRank,
    pub block_hashes: &'a [LocalBlockHash],
    pub block_size_tokens: u32,
    pub tiered_matches: &'a TieredMatchDetails,
    pub created_at_ms: u64,
    pub expires_at_ms: u64,
}

/// Counters of one choice.
#[derive(Debug, Clone, Copy, PartialEq, Eq, Structural)]
pub struct RemoteKvReuseSelectionStats {
    pub rejected_g1_candidates: u32,
}

impl Default for RemoteKvReuseSelectionStats {
    fn default() -> (s: Self)
        ensures
            s.rejected_g1_candidates == 0,
    {
        RemoteKvReuseSelectionStats { rejected_g1_candidates: 0 }
    }
}

/// A plan, or the reason for having none.
#[derive(Debug, Clone, PartialEq, Eq)]
pub enum RemoteKvReuseDecision {
    Plan { plan: RemoteKvReusePlan, stats: RemoteKvReuseSelectionStats },
    NoPlan { reason: RemoteKvReuseNoPlanReason, stats: RemoteKvReuseSelectionStats },
}

impl View for RemoteKvReusePlan {
    type V = ReusePlan;

    open spec fn view(&self) -> ReusePlan {
        ReusePlan {
            plan_id: self.plan_id@,
            request_id: self.request_id@,
            target_worker_id: self.target_worker_id,
            target_dp_rank: self.target_dp_rank,
            source_worker_id: self.source_worker_id,
            source_dp_rank: self.source_dp_rank,
            source_tier: self.source_tier,
            block_hashes: self.block_hashes@,
            start_block_index: self.start_block_index,
            planned_prefix_blocks: self.planned_prefix_blocks,
            block_size_tokens: self.block_size_tokens,
            created_at_ms: self.created_at_ms,
            expires_at_ms: self.expires_at_ms,
            plan_version: self.plan_version,
        }
    }
}

impl View for RemoteKvReuseDecision {
    type V = ReuseDecision;

    open spec fn view(&self) -> ReuseDecision {
        match self {
            RemoteKvReuseDecision::Plan { plan, stats } => ReuseDecision::Plan {
                plan: plan@,
                stats: *stats,
            },
            RemoteKvReuseDecision::NoPlan { reason, stats } => ReuseDecision::NoPlan {
                reason: *reason,
                stats: *stats,
            },
        }
    }
}

impl<'a> View for RemoteKvReuseSelectionInput<'a> {
    type V = SelectionRequest;

    open spec fn view(&self) -> SelectionRequest {
        let lower = self.tiered_matches.lower_tier@;
        SelectionRequest {
            request_id: self.request_id@,
            target: self.target,
            block_hashes: self.block_hashes@,
            block_size_tokens: self.block_size_tokens,
            device: self.tiered_matches.device.overlap_scores.scores@,
            host_pinned: if lower.contains_key(StorageTier::HostPinned) {
                Some(lower[StorageTier::HostPinned].hits@)
            } else {
                None
            },
            created_at_ms: self.created_at_ms,
            expires_at_ms: self.expires_at_ms,
        }
    }
}

/// Counts the workers that hold at least one block in device memory.
fn count_device_holders(scores: &KeyedMap<WorkerWithDpRank, u32>) -> (count: usize)
    ensures
        count == selection::device_holders(scores@).len(),
        count == scores@.dom().filter(|w: WorkerWithDpRank| scores@[w] > 0).len(),
{
    let entries = scores.iter();
    let mut count: usize = 0;
    let ghost listed = keyed_map::walked(entries.remaining());
    let ghost mut seen = Set::<WorkerWithDpRank>::empty();
    for entry in it: entries
        invariant
            listed == keyed_map::walked(it.seq()),
            keyed_map::enumerates(listed, scores@),
            it.seq().len() <= usize::MAX,
            count <= it.index(),
            count == seen.len(),
            seen.finite(),
            forall|w: WorkerWithDpRank| #[trigger]
                seen.contains(w) <==> exists|j: int|
                    0 <= j < it.index() && (#[trigger] listed[j]).0 == w && listed[j].1 > 0,
    {
        let ghost before = seen;
        let overlap: u32 = entry.1.1;
        if overlap > 0 {
            count = count + 1;
            proof {
                seen = seen.insert(entry.1.0);
            }
        }
        assert(listed[it.index()] == *entry.1);
    }
    proof {
        assert(seen =~= selection::device_holders(scores@));
        assert(seen =~= scores@.dom().filter(|w: WorkerWithDpRank| scores@[w] > 0));
    }
    count
}

/// Finds the best source, with its number of blocks in pinned host memory, and
/// whether any worker but the target was listed at all.
fn find_best_source(
    hits: &KeyedMap<WorkerWithDpRank, usize>,
    target: WorkerWithDpRank,
) -> (found: (bool, Option<(WorkerWithDpRank, usize)>))
    ensures
        found.0 == selection::has_remote(hits@, target),
        found.1 == (match selection::best_source(hits@, target) {
            Some(source) => Some((source, hits@[source])),
            None => None,
        }),
        found.0 <==> exists|w: WorkerWithDpRank| #[trigger]
            hits@.contains_key(w) && w != target,
        match found.1 {
            Some((source, count)) => {
                &&& hits@.contains_key(source)
                &&& source != target
                &&& hits@[source] == count
                &&& count > 0
                &&& forall|w: WorkerWithDpRank| #[trigger]
                    hits@.contains_key(w) && w != target ==> hits@[w] < count || (hits@[w] == count
                        && (source.worker_id < w.worker_id || (source.worker_id == w.worker_id
                        && source.dp_rank <= w.dp_rank)))
            },
            None => forall|w: WorkerWithDpRank| #[trigger]
                hits@.contains_key(w) && w != target ==> hits@[w] == 0,
        },
{
    let entries = hits.iter();
    let mut saw_remote_candidate = false;
    let mut best: Option<(WorkerWithDpRank, usize)> = None;
    let ghost listed = keyed_map::walked(entries.remaining());
    for entry in it: entries
        invariant
            listed == keyed_map::walked(it.seq()),
            keyed_map::enumerates(listed, hits@),
            saw_remote_candidate == exists|j: int|
                0 <= j < it.index() && (#[trigger] listed[j]).0 != target,
            match best {
                None => forall|j: int|
                    0 <= j < it.index() ==> !selection::is_candidate(
                        hits@,
                        target,
                        (#[trigger] listed[j]).0,
                    ),
                Some(b) => {
                    &&& selection::is_candidate(hits@, target, b.0)
                    &&& hits@[b.0] == b.1
                    &&& forall|j: int|
                        0 <= j < it.index() && selection::is_candidate(
                            hits@,
                            target,
                            (#[trigger] listed[j]).0,
                        ) && listed[j].0 != b.0 ==> selection::outranks(hits@, b.0, listed[j].0)
                },
            },
    {
        let worker: WorkerWithDpRank = entry.1.0;
        let worker_hits: usize = entry.1.1;
        assert(listed[it.index()] == (worker, worker_hits));
        if worker != target {
            saw_remote_candidate = true;
            if worker_hits > 0 {
                let better = match best {
                    None => true,
                    Some((best_worker, best_hits)) => worker_hits > best_hits || (worker_hits
                        == best_hits && worker < best_worker),
                };
                if better {
                    best = Some((worker, worker_hits));
                }
            }
        }
    }
    proof {
        assert forall|w: WorkerWithDpRank| #[trigger] hits@.contains_key(w) implies exists|j: int|
            0 <= j < listed.len() && (#[trigger] listed[j]).0 == w by {
            assert(listed.contains((w, hits@[w])));
            let j = choose|j: int| 0 <= j < listed.len() && listed[j] == (w, hits@[w]);
            assert(listed[j].0 == w);
        }
        match best {
            None => {},
            Some(b) => {
                assert(selection::is_best_source(hits@, target, b.0));
                let chosen = selection::best_source(hits@, target)->0;
                selection::lemma_best_source_is_unique(hits@, target, b.0, chosen);
            },
        }
    }
    (saw_remote_candidate, best)
}

/// Writes the identifier of a plan.
fn format_plan_id(request_id: &str, source: WorkerWithDpRank, created_at_ms: u64) -> (id: String)
    ensures
        id@ == selection::plan_id(request_id@, source, created_at_ms),
        id@ == "remote-g2:"@ + request_id@ + ":"@ + decimal::decimal(source.worker_id as nat)
            + ":"@ + decimal::decimal(source.dp_rank as nat) + ":"@ + decimal::decimal(
            created_at_ms as nat,
        ),
{
    let mut id = "remote-g2:".to_string();
    id.append(request_id);
    id.append(":");
    append_decimal(&mut id, source.worker_id);
    id.append(":");
    append_decimal(&mut id, source.dp_rank as u64);
    id.append(":");
    append_decimal(&mut id, created_at_ms);
    id
}

/// Keeps the low 32 bits of `n`.
fn truncate_to_u32(n: usize) -> (t: u32)
    ensures
        t == selection::low_32_bits(n as nat),
        t == n as nat % 0x1_0000_0000,
{
    let wide: u64 = n as u64;
    assert(wide as u32 == wide % 0x1_0000_0000) by (bit_vector);
    wide as u32
}

/// Chooses the plan for a request.
///
/// The source is the worker, other than the target, that adds the most blocks
/// out of pinned host memory; among equals, the first by worker and then by
/// rank. Blocks that another worker holds in device memory are never pulled;
/// they are only counted.
///
/// The index counts a worker's pinned blocks from the position where its chain
/// in device memory ends, not from the start of the request. So the plan covers
/// the positions from there on, as far as the request reaches.
pub fn select_remote_g2_reuse_plan(input: RemoteKvReuseSelectionInput<'_>) -> (decision:
    RemoteKvReuseDecision)
    ensures
        decision@ == selection::decide(input@),
{
    let device_scores = &input.tiered_matches.device.overlap_scores.scores;
    let stats = RemoteKvReuseSelectionStats {
        rejected_g1_candidates: truncate_to_u32(count_device_holders(device_scores)),
    };

    let host_pinned_matches = match input.tiered_matches.lower_tier.get(&StorageTier::HostPinned) {
        Some(details) => details,
        None => {
            return RemoteKvReuseDecision::NoPlan {
                reason: RemoteKvReuseNoPlanReason::NoRemoteG2Candidate,
                stats,
            };
        },
    };

    let (saw_remote_candidate, best) = find_best_source(&host_pinned_matches.hits, input.target);
    let (source, hits) = match best {
        Some(found) => found,
        None => {
            return RemoteKvReuseDecision::NoPlan {
                reason: if saw_remote_candidate {
                    RemoteKvReuseNoPlanReason::NoContiguousPrefix
                } else {
                    RemoteKvReuseNoPlanReason::NoRemoteG2Candidate
                },
                stats,
            };
        },
    };

    let device_match: usize = match device_scores.get(&source) {
        Some(overlap) => *overlap as usize,
        None => 0,
    };
    let request_blocks: usize = input.block_hashes.len();
    let start: usize = if device_match <= request_blocks {
        device_match
    } else {
        request_blocks
    };
    let available_after_device: usize = request_blocks - start;
    let reusable: usize = if hits <= available_after_device {
        hits
    } else {
        available_after_device
    };
    let planned_prefix_blocks: u32 = truncate_to_u32(reusable);
    if planned_prefix_blocks == 0 {
        return RemoteKvReuseDecision::NoPlan {
            reason: RemoteKvReuseNoPlanReason::NoContiguousPrefix,
            stats,
        };
    }
    let end: usize = start + planned_prefix_blocks as usize;

    RemoteKvReuseDecision::Plan {
        plan: RemoteKvReusePlan {
            plan_id: format_plan_id(input.request_id, source, input.created_at_ms),
            request_id: input.request_id.to_string(),
            target_worker_id: input.target.worker_id,
            target_dp_rank: input.target.dp_rank,
            source_worker_id: source.worker_id,
            source_dp_rank: source.dp_rank,
            source_tier: StorageTier::HostPinned,
            block_hashes: slice_to_vec(slice_subrange(input.block_hashes, start, end)),
            start_block_index: start as u32,
            planned_prefix_blocks,
            block_size_tokens: input.block_size_tokens,
            created_at_ms: input.created_at_ms,
            expires_at_ms: input.expires_at_ms,
            plan_version: REMOTE_KV_REUSE_PLAN_VERSION,
        },
        stats,
    }
}

} // verus!
