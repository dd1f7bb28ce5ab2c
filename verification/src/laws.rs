//! What holds of every decision.
//!
//! [`crate::remote_g2_plan::select_remote_g2_reuse_plan`] returns
//! [`crate::selection::decide`] of its input, so each law here is a law of that
//! function.

use vstd::prelude::*;

use crate::decimal;
use crate::protocols::{StorageTier, WorkerWithDpRank};
use crate::remote_g2_plan::{
    RemoteKvReuseDecision, RemoteKvReuseNoPlanReason, RemoteKvReusePlan,
    RemoteKvReuseSelectionInput, RemoteKvReuseSelectionStats,
    REMOTE_KV_REUSE_PLAN_VERSION,
};
use crate::selection;
use crate::selection::{ReuseDecision, ReusePlan, SelectionRequest};

verus! {

/// The plan that is decided on, if there is one.
pub open spec fn decided_plan(req: SelectionRequest) -> Option<ReusePlan> {
    match selection::decide(req) {
        ReuseDecision::Plan { plan, stats: _ } => Some(plan),
        ReuseDecision::NoPlan { reason: _, stats: _ } => None,
    }
}

/// The reason that is given for having no plan, if there is none.
pub open spec fn decided_reason(req: SelectionRequest) -> Option<RemoteKvReuseNoPlanReason> {
    match selection::decide(req) {
        ReuseDecision::Plan { plan: _, stats: _ } => None,
        ReuseDecision::NoPlan { reason, stats: _ } => Some(reason),
    }
}

/// The tables of every input are finite.
pub proof fn input_is_well_formed(input: RemoteKvReuseSelectionInput<'_>)
    ensures
        input@.wf(),
{
    input.tiered_matches.device.overlap_scores.scores.lemma_finite();
    let lower = input.tiered_matches.lower_tier@;
    if lower.contains_key(StorageTier::HostPinned) {
        lower[StorageTier::HostPinned].hits.lemma_finite();
    }
}

/// `w` is the best of the candidates in `among`.
spec fn best_among(
    hits: Map<WorkerWithDpRank, usize>,
    target: WorkerWithDpRank,
    among: Set<WorkerWithDpRank>,
    w: WorkerWithDpRank,
) -> bool {
    &&& among.contains(w)
    &&& selection::is_candidate(hits, target, w)
    &&& forall|v: WorkerWithDpRank| #[trigger]
        selection::is_candidate(hits, target, v) && among.contains(v) && v != w
            ==> selection::outranks(hits, w, v)
}

proof fn lemma_best_among_exists(
    hits: Map<WorkerWithDpRank, usize>,
    target: WorkerWithDpRank,
    among: Set<WorkerWithDpRank>,
    some: WorkerWithDpRank,
) -> (best: WorkerWithDpRank)
    requires
        among.finite(),
        among.contains(some),
        selection::is_candidate(hits, target, some),
    ensures
        best_among(hits, target, among, best),
    decreases among.len(),
{
    let rest = among.remove(some);
    if exists|v: WorkerWithDpRank|
        selection::is_candidate(hits, target, v) && #[trigger] rest.contains(v) {
        let other = choose|v: WorkerWithDpRank|
            selection::is_candidate(hits, target, v) && #[trigger] rest.contains(v);
        let best = lemma_best_among_exists(hits, target, rest, other);
        if selection::outranks(hits, some, best) {
            some
        } else {
            best
        }
    } else {
        assert forall|v: WorkerWithDpRank| #[trigger]
            selection::is_candidate(hits, target, v) && among.contains(v) && v != some implies
            selection::outranks(hits, some, v) by {
            assert(rest.contains(v));
        }
        some
    }
}

/// A source is found exactly when there is a candidate, and it is the best one.
pub proof fn best_source_is_found(
    hits: Map<WorkerWithDpRank, usize>,
    target: WorkerWithDpRank,
)
    requires
        hits.dom().finite(),
    ensures
        selection::best_source(hits, target) is Some <==> exists|w: WorkerWithDpRank| #[trigger]
            selection::is_candidate(hits, target, w),
        selection::best_source(hits, target) matches Some(source)
            ==> selection::is_best_source(hits, target, source),
{
    if exists|w: WorkerWithDpRank| #[trigger] selection::is_candidate(hits, target, w) {
        let w = choose|w: WorkerWithDpRank| #[trigger] selection::is_candidate(hits, target, w);
        let best = lemma_best_among_exists(hits, target, hits.dom(), w);
        assert(selection::is_best_source(hits, target, best));
    }
}

/// The best source depends on the candidates alone.
proof fn lemma_same_reports_same_source(
    a: Map<WorkerWithDpRank, usize>,
    b: Map<WorkerWithDpRank, usize>,
    target: WorkerWithDpRank,
)
    requires
        forall|w: WorkerWithDpRank|
            #![trigger selection::is_candidate(a, target, w)]
            #![trigger selection::is_candidate(b, target, w)]
            selection::is_candidate(a, target, w) <==> selection::is_candidate(b, target, w),
        forall|w: WorkerWithDpRank| #[trigger]
            selection::is_candidate(a, target, w) ==> a[w] == b[w],
    ensures
        selection::best_source(a, target) == selection::best_source(b, target),
        selection::best_source(a, target) matches Some(w) ==> a[w] == b[w],
{
    assert forall|w: WorkerWithDpRank|
        selection::is_best_source(a, target, w) <==> selection::is_best_source(b, target, w) by {}
    if exists|w: WorkerWithDpRank| selection::is_best_source(a, target, w) {
        let w = selection::best_source(a, target)->0;
        assert(selection::is_best_source(b, target, w));
        selection::lemma_best_source_is_unique(
            b,
            target,
            w,
            selection::best_source(b, target)->0,
        );
    }
}

/// The source of a plan is a worker other than the target that holds blocks in
/// pinned host memory; no other such worker holds more of them; and those that
/// hold as many come after it, by worker and then by rank.
pub proof fn source_is_longest_remote_prefix(req: SelectionRequest)
    ensures
        decided_plan(req) matches Some(plan) ==> {
            &&& req.host_pinned matches Some(hits)
            &&& selection::is_candidate(hits, req.target, plan.source())
            &&& plan.source_tier == StorageTier::HostPinned
            &&& forall|w: WorkerWithDpRank| #[trigger]
                selection::is_candidate(hits, req.target, w) ==> hits[plan.source()] >= hits[w]
            &&& forall|w: WorkerWithDpRank| #[trigger]
                selection::is_candidate(hits, req.target, w) && w != plan.source()
                    && hits[plan.source()] == hits[w] ==> plan.source().precedes(w)
        },
{
}

/// The choice of a source never changes the target, and never picks it.
pub proof fn target_is_kept(req: SelectionRequest)
    ensures
        decided_plan(req) matches Some(plan) ==> plan.target() == req.target && plan.source()
            != req.target,
{
}

/// A plan repeats the request's own data, and carries the version of the
/// format.
pub proof fn request_data_is_kept(req: SelectionRequest)
    ensures
        decided_plan(req) matches Some(plan) ==> {
            &&& plan.request_id == req.request_id
            &&& plan.block_size_tokens == req.block_size_tokens
            &&& plan.created_at_ms == req.created_at_ms
            &&& plan.expires_at_ms == req.expires_at_ms
            &&& plan.plan_version == REMOTE_KV_REUSE_PLAN_VERSION
            &&& plan.plan_id == selection::plan_id(
                req.request_id,
                plan.source(),
                req.created_at_ms,
            )
        },
{
}

/// A plan covers a non-empty run of the request's blocks: it starts where the
/// source's chain in device memory ends, is no longer than what the source
/// holds in pinned host memory, and stays within the request.
pub proof fn plan_covers_a_run_of_the_request(req: SelectionRequest)
    ensures
        decided_plan(req) matches Some(plan) ==> {
            &&& plan.start_block_index == selection::device_match(req.device, plan.source())
            &&& plan.planned_prefix_blocks > 0
            &&& plan.planned_prefix_blocks <= req.host_pinned->0[plan.source()]
            &&& plan.start_block_index + plan.planned_prefix_blocks <= req.block_hashes.len()
            &&& plan.block_hashes.len() == plan.planned_prefix_blocks
            &&& forall|i: int|
                0 <= i < plan.block_hashes.len() ==> #[trigger] plan.block_hashes[i]
                    == req.block_hashes[plan.start_block_index + i]
        },
{
}

/// In a request of fewer than 2^32 blocks, a plan covers everything that the
/// source can hand over.
pub proof fn plan_covers_all_that_the_source_offers(req: SelectionRequest)
    requires
        req.block_hashes.len() < 0x1_0000_0000,
    ensures
        decided_plan(req) matches Some(plan) ==> plan.planned_prefix_blocks == selection::min_nat(
            req.host_pinned->0[plan.source()] as nat,
            (req.block_hashes.len() - plan.start_block_index) as nat,
        ),
{
}

/// In a request of fewer than 2^32 blocks, there is a plan exactly when some
/// worker other than the target holds blocks in pinned host memory, and the
/// best of these has not already matched the whole request in device memory.
pub proof fn when_there_is_a_plan(req: SelectionRequest)
    requires
        req.wf(),
        req.block_hashes.len() < 0x1_0000_0000,
    ensures
        decided_plan(req) is Some <==> {
            &&& req.host_pinned matches Some(hits)
            &&& exists|w: WorkerWithDpRank|
                {
                    &&& #[trigger] selection::is_best_source(hits, req.target, w)
                    &&& selection::device_match(req.device, w) < req.block_hashes.len()
                }
        },
        req.host_pinned matches Some(hits) ==> ((exists|w: WorkerWithDpRank| #[trigger]
            selection::is_candidate(hits, req.target, w)) <==> (exists|w: WorkerWithDpRank|
            #[trigger] selection::is_best_source(hits, req.target, w))),
{
    if let Some(hits) = req.host_pinned {
        best_source_is_found(hits, req.target);
        if let Some(source) = selection::best_source(hits, req.target) {
            assert forall|w: WorkerWithDpRank| #[trigger]
                selection::is_best_source(hits, req.target, w) implies w == source by {
                selection::lemma_best_source_is_unique(hits, req.target, w, source);
            }
        }
    }
}

/// Without a plan, the reason is the lack of a remote candidate exactly when no
/// worker but the target reported on its pinned host memory, and the lack of a
/// contiguous prefix otherwise. No other reason is ever given.
pub proof fn why_there_is_no_plan(req: SelectionRequest)
    ensures
        decided_reason(req) is Some <==> decided_plan(req) is None,
        decided_reason(req) == Some(RemoteKvReuseNoPlanReason::NoRemoteG2Candidate) <==> !(
        req.host_pinned matches Some(hits) && selection::has_remote(hits, req.target)),
        decided_reason(req) == Some(RemoteKvReuseNoPlanReason::NoContiguousPrefix) <==> {
            &&& req.host_pinned matches Some(hits)
            &&& selection::has_remote(hits, req.target)
            &&& decided_plan(req) is None
        },
{
    if let Some(hits) = req.host_pinned {
        if let Some(source) = selection::best_source(hits, req.target) {
            assert(hits.contains_key(source) && source != req.target);
        }
    }
}

/// Where every worker but the target reports zero blocks, there is no
/// contiguous prefix.
pub proof fn zero_hits_give_no_contiguous_prefix(
    req: SelectionRequest,
    hits: Map<WorkerWithDpRank, usize>,
)
    requires
        req.host_pinned == Some(hits),
        selection::has_remote(hits, req.target),
        forall|w: WorkerWithDpRank| #[trigger]
            hits.contains_key(w) && w != req.target ==> hits[w] == 0,
    ensures
        decided_reason(req) == Some(RemoteKvReuseNoPlanReason::NoContiguousPrefix),
{
    why_there_is_no_plan(req);
}

/// Blocks in device memory alone never make a source: without a report on
/// pinned host memory there is no candidate, whatever the device table holds.
pub proof fn device_holdings_are_never_selected(req: SelectionRequest)
    requires
        req.host_pinned is None,
    ensures
        decided_reason(req) == Some(RemoteKvReuseNoPlanReason::NoRemoteG2Candidate),
{
}

/// Of the device table, the plan or the reason depends only on the entry of
/// the best source.
pub proof fn other_device_entries_are_only_counted(a: SelectionRequest, b: SelectionRequest)
    requires
        b == (SelectionRequest { device: b.device, ..a }),
        a.host_pinned matches Some(hits) ==> (selection::best_source(hits, a.target) matches Some(
            source,
        ) ==> selection::device_match(a.device, source) == selection::device_match(
            b.device,
            source,
        )),
    ensures
        decided_plan(a) == decided_plan(b),
        decided_reason(a) == decided_reason(b),
{
}

/// The counter of rejected candidates is the number of workers that hold
/// blocks in device memory, and depends on nothing else.
pub proof fn device_holders_are_counted(req: SelectionRequest)
    ensures
        selection::decide(req).stats() == selection::selection_stats(req.device),
        selection::device_holders(req.device).len() < 0x1_0000_0000 ==> selection::decide(
            req,
        ).stats().rejected_g1_candidates == selection::device_holders(req.device).len(),
{
}

/// What the target holds in its own pinned host memory has no bearing on the
/// decision.
pub proof fn target_report_is_ignored(
    req: SelectionRequest,
    hits: Map<WorkerWithDpRank, usize>,
    own: usize,
)
    ensures
        selection::decide(
            SelectionRequest { host_pinned: Some(hits.insert(req.target, own)), ..req },
        ) == selection::decide(SelectionRequest { host_pinned: Some(hits), ..req }),
{
    let with_own = hits.insert(req.target, own);
    assert(selection::has_remote(with_own, req.target) == selection::has_remote(
        hits,
        req.target,
    )) by {
        assert forall|w: WorkerWithDpRank|
            #![trigger with_own.contains_key(w)]
            #![trigger hits.contains_key(w)]
            w != req.target implies with_own.contains_key(w) == hits.contains_key(w) by {}
    }
    lemma_same_reports_same_source(hits, with_own, req.target);
}

/// A worker that reports zero blocks has no bearing on the plan.
pub proof fn empty_report_is_ignored(
    req: SelectionRequest,
    hits: Map<WorkerWithDpRank, usize>,
    w: WorkerWithDpRank,
)
    requires
        !hits.contains_key(w),
    ensures
        decided_plan(SelectionRequest { host_pinned: Some(hits.insert(w, 0)), ..req })
            == decided_plan(SelectionRequest { host_pinned: Some(hits), ..req }),
{
    lemma_same_reports_same_source(hits, hits.insert(w, 0), req.target);
}

/// The order in which reports come in has no bearing on the decision.
pub proof fn report_order_is_irrelevant(
    req: SelectionRequest,
    hits: Map<WorkerWithDpRank, usize>,
    a: WorkerWithDpRank,
    a_hits: usize,
    b: WorkerWithDpRank,
    b_hits: usize,
)
    requires
        a != b,
    ensures
        selection::decide(
            SelectionRequest {
                host_pinned: Some(hits.insert(a, a_hits).insert(b, b_hits)),
                ..req
            },
        ) == selection::decide(
            SelectionRequest {
                host_pinned: Some(hits.insert(b, b_hits).insert(a, a_hits)),
                ..req
            },
        ),
{
    assert(hits.insert(a, a_hits).insert(b, b_hits) =~= hits.insert(b, b_hits).insert(a, a_hits));
}

/// A report on pinned host memory that lists no worker is as good as none.
pub proof fn empty_tier_is_no_tier(req: SelectionRequest)
    ensures
        selection::decide(
            SelectionRequest {
                host_pinned: Some(Map::<WorkerWithDpRank, usize>::empty()),
                ..req
            },
        ) == selection::decide(SelectionRequest { host_pinned: None, ..req }),
{
}

/// Of the tiers below device memory, only pinned host memory has a bearing on
/// the decision: two inputs that differ at most in the other tiers get the
/// same one.
pub proof fn other_tiers_are_ignored(
    a: RemoteKvReuseSelectionInput<'_>,
    b: RemoteKvReuseSelectionInput<'_>,
)
    requires
        a.request_id@ == b.request_id@,
        a.target == b.target,
        a.block_hashes@ == b.block_hashes@,
        a.block_size_tokens == b.block_size_tokens,
        a.tiered_matches.device.overlap_scores.scores@
            == b.tiered_matches.device.overlap_scores.scores@,
        a.tiered_matches.lower_tier@.contains_key(StorageTier::HostPinned)
            == b.tiered_matches.lower_tier@.contains_key(StorageTier::HostPinned),
        a.tiered_matches.lower_tier@.contains_key(StorageTier::HostPinned)
            ==> a.tiered_matches.lower_tier@[StorageTier::HostPinned].hits@
            == b.tiered_matches.lower_tier@[StorageTier::HostPinned].hits@,
        a.created_at_ms == b.created_at_ms,
        a.expires_at_ms == b.expires_at_ms,
    ensures
        selection::decide(a@) == selection::decide(b@),
{
}

/// Two strings that end in a colon and a part without colons are equal only if
/// both parts are.
proof fn lemma_last_field_is_determined(
    a: Seq<char>,
    a_field: Seq<char>,
    b: Seq<char>,
    b_field: Seq<char>,
)
    requires
        a + ":"@ + a_field == b + ":"@ + b_field,
        !a_field.contains(':'),
        !b_field.contains(':'),
    ensures
        a == b,
        a_field == b_field,
{
    reveal_strlit(":");
    let whole_a = a + ":"@ + a_field;
    let whole_b = b + ":"@ + b_field;
    assert(":"@.len() == 1 && ":"@[0] == ':');
    assert(whole_a.len() == a.len() + 1 + a_field.len());
    assert(whole_b.len() == b.len() + 1 + b_field.len());
    assert(whole_a[a.len() as int] == ':');
    assert(whole_b[b.len() as int] == ':');
    if a.len() < b.len() {
        assert(a_field[b.len() - a.len() - 1] == whole_a[b.len() as int]);
    } else if b.len() < a.len() {
        assert(b_field[a.len() - b.len() - 1] == whole_b[a.len() as int]);
    }
    assert(a =~= whole_a.subrange(0, a.len() as int));
    assert(b =~= whole_b.subrange(0, b.len() as int));
    assert(a_field =~= whole_a.subrange(a.len() + 1int, whole_a.len() as int));
    assert(b_field =~= whole_b.subrange(b.len() + 1int, whole_b.len() as int));
}

/// A plan's identifier determines the request, the source and the time of
/// creation.
pub proof fn plan_id_is_injective(
    a_request: Seq<char>,
    a_source: WorkerWithDpRank,
    a_created: u64,
    b_request: Seq<char>,
    b_source: WorkerWithDpRank,
    b_created: u64,
)
    requires
        selection::plan_id(a_request, a_source, a_created) == selection::plan_id(
            b_request,
            b_source,
            b_created,
        ),
    ensures
        a_request == b_request,
        a_source == b_source,
        a_created == b_created,
{
    let a0 = "remote-g2:"@ + a_request;
    let b0 = "remote-g2:"@ + b_request;
    let a_worker = decimal::decimal(a_source.worker_id as nat);
    let b_worker = decimal::decimal(b_source.worker_id as nat);
    let a_rank = decimal::decimal(a_source.dp_rank as nat);
    let b_rank = decimal::decimal(b_source.dp_rank as nat);
    let a_time = decimal::decimal(a_created as nat);
    let b_time = decimal::decimal(b_created as nat);
    decimal::lemma_decimal_has_digits_only(a_source.worker_id as nat);
    decimal::lemma_decimal_has_digits_only(b_source.worker_id as nat);
    decimal::lemma_decimal_has_digits_only(a_source.dp_rank as nat);
    decimal::lemma_decimal_has_digits_only(b_source.dp_rank as nat);
    decimal::lemma_decimal_has_digits_only(a_created as nat);
    decimal::lemma_decimal_has_digits_only(b_created as nat);
    let a1 = a0 + ":"@ + a_worker;
    let b1 = b0 + ":"@ + b_worker;
    lemma_last_field_is_determined(a1 + ":"@ + a_rank, a_time, b1 + ":"@ + b_rank, b_time);
    lemma_last_field_is_determined(a1, a_rank, b1, b_rank);
    lemma_last_field_is_determined(a0, a_worker, b0, b_worker);
    decimal::lemma_decimal_is_injective(a_source.worker_id as nat, b_source.worker_id as nat);
    decimal::lemma_decimal_is_injective(a_source.dp_rank as nat, b_source.dp_rank as nat);
    decimal::lemma_decimal_is_injective(a_created as nat, b_created as nat);
    let prefix = "remote-g2:"@.len() as int;
    assert(a_request =~= a0.subrange(prefix, a0.len() as int));
    assert(b_request =~= b0.subrange(prefix, b0.len() as int));
}

/// `c` may occur in a snake-case word.
pub open spec fn is_word_char(c: char) -> bool {
    ('a' <= c && c <= 'z') || ('0' <= c && c <= '9')
}

/// `s` is in snake case: words of lower-case letters and digits, joined by
/// single underscores.
pub open spec fn is_snake_case(s: Seq<char>) -> bool {
    &&& s.len() > 0
    &&& is_word_char(s[0])
    &&& is_word_char(s[s.len() - 1])
    &&& forall|i: int|
        0 <= i < s.len() ==> is_word_char(#[trigger] s[i]) || (s[i] == '_' && is_word_char(
            s[i - 1],
        ))
}

/// Every label is in snake case.
pub proof fn labels_are_snake_case(reason: RemoteKvReuseNoPlanReason)
    ensures
        is_snake_case(reason.label()),
{
    reveal_strlit("disabled");
    reveal_strlit("no_remote_g2_candidate");
    reveal_strlit("no_contiguous_prefix");
    reveal_strlit("source_is_target");
    reveal_strlit("incompatible_block_size");
    reveal_strlit("plan_expired");
    reveal_strlit("serialization_failed");
}

/// Different reasons have different labels.
pub proof fn labels_are_distinct(a: RemoteKvReuseNoPlanReason, b: RemoteKvReuseNoPlanReason)
    requires
        a.label() == b.label(),
    ensures
        a == b,
{
    reveal_strlit("disabled");
    reveal_strlit("no_remote_g2_candidate");
    reveal_strlit("no_contiguous_prefix");
    reveal_strlit("source_is_target");
    reveal_strlit("incompatible_block_size");
    reveal_strlit("plan_expired");
    reveal_strlit("serialization_failed");
    assert("disabled"@.len() == 8);
    assert("no_remote_g2_candidate"@.len() == 22);
    assert("no_contiguous_prefix"@.len() == 20);
    assert("source_is_target"@.len() == 16);
    assert("incompatible_block_size"@.len() == 23);
    assert("plan_expired"@.len() == 12);
    assert("serialization_failed"@.len() == 20);
    assert("no_contiguous_prefix"@[0] == 'n');
    assert("serialization_failed"@[0] == 's');
}

/// The source of a plan is listed in the pinned-host table with at least one
/// block, under a worker and rank other than the target's. Every other key of
/// the table that is not the target's has fewer blocks, or as many and a higher
/// worker, or as many, the same worker and a higher rank.
pub proof fn source_beats_every_other_listed_worker(
    input: RemoteKvReuseSelectionInput<'_>,
    plan: RemoteKvReusePlan,
    stats: RemoteKvReuseSelectionStats,
)
    requires
        (RemoteKvReuseDecision::Plan { plan, stats })@ == selection::decide(input@),
    ensures
        input.tiered_matches.lower_tier@.contains_key(StorageTier::HostPinned),
        plan.source_tier == StorageTier::HostPinned,
        ({
            let hits = input.tiered_matches.lower_tier@[StorageTier::HostPinned].hits@;
            let s = WorkerWithDpRank {
                worker_id: plan.source_worker_id,
                dp_rank: plan.source_dp_rank,
            };
            &&& hits.contains_key(s)
            &&& hits[s] > 0
            &&& s.worker_id != input.target.worker_id || s.dp_rank != input.target.dp_rank
            &&& forall|w: WorkerWithDpRank| #[trigger]
                hits.contains_key(w) && w != input.target ==> hits[s] >= hits[w]
            &&& forall|w: WorkerWithDpRank| #[trigger]
                hits.contains_key(w) && w != input.target && hits[w] == hits[s] ==> s.worker_id
                    < w.worker_id || (s.worker_id == w.worker_id && s.dp_rank <= w.dp_rank)
        }),
{
    let hits = input.tiered_matches.lower_tier@[StorageTier::HostPinned].hits@;
    let s = WorkerWithDpRank { worker_id: plan.source_worker_id, dp_rank: plan.source_dp_rank };
    assert(plan@.source() == s);
    assert(selection::is_best_source(hits, input.target, s));
    assert forall|w: WorkerWithDpRank| #[trigger]
        hits.contains_key(w) && w != input.target implies w == s || hits[w] < hits[s] || (hits[w]
        == hits[s] && s.precedes(w)) by {
        if hits[w] > 0 {
            assert(selection::is_candidate(hits, input.target, w));
        }
    }
}

/// A plan starts at the device entry of exactly its source, same worker and
/// same rank, and at the first block where the device table has no such entry,
/// whatever else that table lists.
pub proof fn plan_starts_at_the_device_entry_of_its_source(
    input: RemoteKvReuseSelectionInput<'_>,
    plan: RemoteKvReusePlan,
    stats: RemoteKvReuseSelectionStats,
)
    requires
        (RemoteKvReuseDecision::Plan { plan, stats })@ == selection::decide(input@),
    ensures
        ({
            let device = input.tiered_matches.device.overlap_scores.scores@;
            let s = WorkerWithDpRank {
                worker_id: plan.source_worker_id,
                dp_rank: plan.source_dp_rank,
            };
            &&& device.contains_key(s) ==> plan.start_block_index == device[s]
            &&& !device.contains_key(s) ==> plan.start_block_index == 0
        }),
{
    let s = WorkerWithDpRank { worker_id: plan.source_worker_id, dp_rank: plan.source_dp_rank };
    assert(plan@.source() == s);
}

/// The run of a plan stops only where the source's blocks or the request end.
/// It is not empty, and passes neither end. The count is held in 32 bits, so
/// longer runs, which take a request of 2^32 blocks or more, are counted modulo
/// 2^32.
pub proof fn run_stops_only_at_an_end(
    input: RemoteKvReuseSelectionInput<'_>,
    plan: RemoteKvReusePlan,
    stats: RemoteKvReuseSelectionStats,
)
    requires
        (RemoteKvReuseDecision::Plan { plan, stats })@ == selection::decide(input@),
    ensures
        ({
            let hits = input.tiered_matches.lower_tier@[StorageTier::HostPinned].hits@;
            let s = WorkerWithDpRank {
                worker_id: plan.source_worker_id,
                dp_rank: plan.source_dp_rank,
            };
            let blocks = input.block_hashes@.len();
            let start = plan.start_block_index as int;
            &&& 0 < plan.planned_prefix_blocks <= hits[s]
            &&& start + plan.planned_prefix_blocks <= blocks
            &&& blocks < 0x1_0000_0000 ==> plan.planned_prefix_blocks == hits[s] || start
                + plan.planned_prefix_blocks == blocks
            &&& start + hits[s] <= blocks ==> plan.planned_prefix_blocks == hits[s] as int
                % 0x1_0000_0000
            &&& start + hits[s] >= blocks ==> plan.planned_prefix_blocks == (blocks - start)
                % 0x1_0000_0000
        }),
{
    let s = WorkerWithDpRank { worker_id: plan.source_worker_id, dp_rank: plan.source_dp_rank };
    assert(plan@.source() == s);
}

/// The hashes of a plan are those of the request, from the start position on,
/// in order and without gaps.
pub proof fn plan_lists_the_hashes_of_its_run(
    input: RemoteKvReuseSelectionInput<'_>,
    plan: RemoteKvReusePlan,
    stats: RemoteKvReuseSelectionStats,
)
    requires
        (RemoteKvReuseDecision::Plan { plan, stats })@ == selection::decide(input@),
    ensures
        plan.block_hashes@.len() == plan.planned_prefix_blocks,
        plan.start_block_index + plan.block_hashes@.len() <= input.block_hashes@.len(),
        forall|i: int|
            0 <= i < plan.block_hashes@.len() ==> #[trigger] plan.block_hashes@[i]
                == input.block_hashes@[plan.start_block_index + i],
{
}

/// A plan repeats the target and the request's own data, and carries version 1.
pub proof fn plan_repeats_the_input(
    input: RemoteKvReuseSelectionInput<'_>,
    plan: RemoteKvReusePlan,
    stats: RemoteKvReuseSelectionStats,
)
    requires
        (RemoteKvReuseDecision::Plan { plan, stats })@ == selection::decide(input@),
    ensures
        plan.request_id@ == input.request_id@,
        plan.target_worker_id == input.target.worker_id,
        plan.target_dp_rank == input.target.dp_rank,
        plan.block_size_tokens == input.block_size_tokens,
        plan.created_at_ms == input.created_at_ms,
        plan.expires_at_ms == input.expires_at_ms,
        plan.plan_version == 1,
{
}

/// The identifier of a plan is `remote-g2`, the request, the source's worker,
/// the source's rank and the time of creation, joined by colons, each number in
/// decimal notation.
pub proof fn plan_id_joins_its_parts(
    input: RemoteKvReuseSelectionInput<'_>,
    plan: RemoteKvReusePlan,
    stats: RemoteKvReuseSelectionStats,
)
    requires
        (RemoteKvReuseDecision::Plan { plan, stats })@ == selection::decide(input@),
    ensures
        plan.plan_id@ == "remote-g2:"@ + input.request_id@ + ":"@ + decimal::decimal(
            plan.source_worker_id as nat,
        ) + ":"@ + decimal::decimal(plan.source_dp_rank as nat) + ":"@ + decimal::decimal(
            input.created_at_ms as nat,
        ),
{
}

/// Without a plan, the reason is the lack of a contiguous prefix exactly when
/// the pinned-host table is there and lists any worker and rank other than the
/// target's, with whatever count; otherwise it is the lack of a remote
/// candidate.
pub proof fn reason_tells_whether_a_remote_worker_was_listed(
    input: RemoteKvReuseSelectionInput<'_>,
    reason: RemoteKvReuseNoPlanReason,
    stats: RemoteKvReuseSelectionStats,
)
    requires
        (RemoteKvReuseDecision::NoPlan { reason, stats })@ == selection::decide(input@),
    ensures
        ({
            let lower = input.tiered_matches.lower_tier@;
            let listed = lower.contains_key(StorageTier::HostPinned) && exists|w: WorkerWithDpRank|
                #[trigger] lower[StorageTier::HostPinned].hits@.contains_key(w) && w
                    != input.target;
            &&& listed ==> reason == RemoteKvReuseNoPlanReason::NoContiguousPrefix
            &&& !listed ==> reason == RemoteKvReuseNoPlanReason::NoRemoteG2Candidate
        }),
{
    let lower = input.tiered_matches.lower_tier@;
    if lower.contains_key(StorageTier::HostPinned) {
        let hits = lower[StorageTier::HostPinned].hits@;
        if let Some(source) = selection::best_source(hits, input.target) {
            assert(hits.contains_key(source) && source != input.target);
        }
    }
}

/// There is a plan exactly when the pinned-host table lists, besides the
/// target, a worker with at least one block which comes before all others, by
/// most blocks, then lowest worker, then lowest rank, and whose run within the
/// request, from its own device entry on, has a count that is not 0 in 32 bits.
pub proof fn plan_exists_when_the_best_worker_has_a_run(
    input: RemoteKvReuseSelectionInput<'_>,
    decision: RemoteKvReuseDecision,
)
    requires
        decision@ == selection::decide(input@),
    ensures
        ({
            let device = input.tiered_matches.device.overlap_scores.scores@;
            let lower = input.tiered_matches.lower_tier@;
            let hits = lower[StorageTier::HostPinned].hits@;
            let blocks = input.block_hashes@.len() as int;
            decision is Plan <==> lower.contains_key(StorageTier::HostPinned) && exists|
                s: WorkerWithDpRank,
            |
                {
                    let left = if device.contains_key(s) {
                        blocks - device[s]
                    } else {
                        blocks
                    };
                    &&& #[trigger] hits.contains_key(s)
                    &&& s != input.target
                    &&& hits[s] > 0
                    &&& forall|w: WorkerWithDpRank| #[trigger]
                        hits.contains_key(w) && w != input.target ==> hits[w] < hits[s] || (hits[w]
                            == hits[s] && (s.worker_id < w.worker_id || (s.worker_id == w.worker_id
                            && s.dp_rank <= w.dp_rank)))
                    &&& left > 0
                    &&& hits[s] <= left ==> hits[s] as int % 0x1_0000_0000 != 0
                    &&& hits[s] > left ==> left % 0x1_0000_0000 != 0
                }
        }),
{
    let device = input.tiered_matches.device.overlap_scores.scores@;
    let lower = input.tiered_matches.lower_tier@;
    let hits = lower[StorageTier::HostPinned].hits@;
    let blocks = input.block_hashes@.len() as int;
    if lower.contains_key(StorageTier::HostPinned) {
        assert forall|s: WorkerWithDpRank| #[trigger] hits.contains_key(s) implies (
        selection::is_best_source(hits, input.target, s) <==> {
            &&& s != input.target
            &&& hits[s] > 0
            &&& forall|w: WorkerWithDpRank| #[trigger]
                hits.contains_key(w) && w != input.target ==> hits[w] < hits[s] || (hits[w]
                    == hits[s] && (s.worker_id < w.worker_id || (s.worker_id == w.worker_id
                    && s.dp_rank <= w.dp_rank)))
        }) by {
            if selection::is_best_source(hits, input.target, s) {
                assert forall|w: WorkerWithDpRank| #[trigger]
                    hits.contains_key(w) && w != input.target implies hits[w] < hits[s] || (hits[w]
                    == hits[s] && (s.worker_id < w.worker_id || (s.worker_id == w.worker_id
                    && s.dp_rank <= w.dp_rank))) by {
                    if hits[w] > 0 && w != s {
                        assert(selection::is_candidate(hits, input.target, w));
                    }
                }
            }
        }
        assert forall|s: WorkerWithDpRank| #[trigger]
            selection::is_best_source(hits, input.target, s) implies selection::best_source(
            hits,
            input.target,
        ) == Some(s) by {
            selection::lemma_best_source_is_unique(
                hits,
                input.target,
                s,
                selection::best_source(hits, input.target)->0,
            );
        }
        if let Some(s) = selection::best_source(hits, input.target) {
            assert(hits.contains_key(s));
        }
    }
}

/// In a request of fewer than 2^32 blocks, there is a plan whenever the
/// pinned-host table lists a worker and rank other than the target's with at
/// least one block, and no such worker has matched the whole request in device
/// memory.
pub proof fn remote_blocks_give_a_plan(
    input: RemoteKvReuseSelectionInput<'_>,
    decision: RemoteKvReuseDecision,
    listed: WorkerWithDpRank,
)
    requires
        decision@ == selection::decide(input@),
        input.block_hashes@.len() < 0x1_0000_0000,
        input.tiered_matches.lower_tier@.contains_key(StorageTier::HostPinned),
        ({
            let device = input.tiered_matches.device.overlap_scores.scores@;
            let hits = input.tiered_matches.lower_tier@[StorageTier::HostPinned].hits@;
            &&& hits.contains_key(listed)
            &&& listed != input.target
            &&& hits[listed] > 0
            &&& forall|w: WorkerWithDpRank| #[trigger]
                hits.contains_key(w) && w != input.target && hits[w] > 0 ==> if device.contains_key(
                    w,
                ) {
                    device[w] < input.block_hashes@.len()
                } else {
                    0 < input.block_hashes@.len()
                }
        }),
    ensures
        decision is Plan,
{
    let hits = input.tiered_matches.lower_tier@[StorageTier::HostPinned].hits@;
    input_is_well_formed(input);
    best_source_is_found(hits, input.target);
    assert(selection::is_candidate(hits, input.target, listed));
    let s = selection::best_source(hits, input.target)->0;
    assert(hits.contains_key(s) && s != input.target && hits[s] > 0);
}

/// There is never a plan once every worker and rank other than the target's has
/// reported zero blocks, or has matched the whole request in device memory.
pub proof fn nothing_left_to_pull_gives_no_plan(
    input: RemoteKvReuseSelectionInput<'_>,
    decision: RemoteKvReuseDecision,
)
    requires
        decision@ == selection::decide(input@),
        ({
            let device = input.tiered_matches.device.overlap_scores.scores@;
            let hits = input.tiered_matches.lower_tier@[StorageTier::HostPinned].hits@;
            forall|w: WorkerWithDpRank| #[trigger]
                hits.contains_key(w) && w != input.target ==> hits[w] == 0 || (device.contains_key(
                    w,
                ) && device[w] >= input.block_hashes@.len())
        }),
    ensures
        decision is NoPlan,
{
    if input.tiered_matches.lower_tier@.contains_key(StorageTier::HostPinned) {
        let hits = input.tiered_matches.lower_tier@[StorageTier::HostPinned].hits@;
        if let Some(s) = selection::best_source(hits, input.target) {
            assert(hits.contains_key(s) && s != input.target && hits[s] > 0);
        }
    }
}

/// With or without a plan, the counter of rejected candidates is the number of
/// keys of the device table with an overlap above zero, in 32 bits.
pub proof fn rejected_counter_counts_positive_device_entries(
    input: RemoteKvReuseSelectionInput<'_>,
    decision: RemoteKvReuseDecision,
)
    requires
        decision@ == selection::decide(input@),
    ensures
        ({
            let device = input.tiered_matches.device.overlap_scores.scores@;
            let rejected = match decision {
                RemoteKvReuseDecision::Plan { plan: _, stats } => stats.rejected_g1_candidates,
                RemoteKvReuseDecision::NoPlan {
                    reason: _,
                    stats,
                } => stats.rejected_g1_candidates,
            };
            rejected == device.dom().filter(|w: WorkerWithDpRank| device[w] > 0).len()
                % 0x1_0000_0000
        }),
{
    let device = input.tiered_matches.device.overlap_scores.scores@;
    assert(selection::device_holders(device) =~= device.dom().filter(
        |w: WorkerWithDpRank| device[w] > 0,
    ));
}

/// One more worker in the device table raises the counter of rejected
/// candidates by one if its overlap is above zero, and leaves it alone
/// otherwise.
pub proof fn one_more_device_entry_counts_once(
    a: RemoteKvReuseSelectionInput<'_>,
    a_decision: RemoteKvReuseDecision,
    b: RemoteKvReuseSelectionInput<'_>,
    b_decision: RemoteKvReuseDecision,
    w: WorkerWithDpRank,
    overlap: u32,
)
    requires
        a_decision@ == selection::decide(a@),
        b_decision@ == selection::decide(b@),
        !a.tiered_matches.device.overlap_scores.scores@.contains_key(w),
        b.tiered_matches.device.overlap_scores.scores@
            == a.tiered_matches.device.overlap_scores.scores@.insert(w, overlap),
    ensures
        ({
            let a_rejected = match a_decision {
                RemoteKvReuseDecision::Plan { plan: _, stats } => stats.rejected_g1_candidates,
                RemoteKvReuseDecision::NoPlan {
                    reason: _,
                    stats,
                } => stats.rejected_g1_candidates,
            };
            let b_rejected = match b_decision {
                RemoteKvReuseDecision::Plan { plan: _, stats } => stats.rejected_g1_candidates,
                RemoteKvReuseDecision::NoPlan {
                    reason: _,
                    stats,
                } => stats.rejected_g1_candidates,
            };
            b_rejected == (a_rejected + (if overlap > 0 {
                1int
            } else {
                0int
            })) % 0x1_0000_0000
        }),
{
    let before = a.tiered_matches.device.overlap_scores.scores@;
    let after = before.insert(w, overlap);
    input_is_well_formed(a);
    if overlap > 0 {
        assert(selection::device_holders(after) =~= selection::device_holders(before).insert(w));
    } else {
        assert(selection::device_holders(after) =~= selection::device_holders(before));
    }
}

/// An empty device table leaves the counter of rejected candidates at zero.
pub proof fn empty_device_table_counts_nothing(
    input: RemoteKvReuseSelectionInput<'_>,
    decision: RemoteKvReuseDecision,
)
    requires
        decision@ == selection::decide(input@),
        input.tiered_matches.device.overlap_scores.scores@
            == Map::<WorkerWithDpRank, u32>::empty(),
    ensures
        match decision {
            RemoteKvReuseDecision::Plan { plan: _, stats } => stats.rejected_g1_candidates == 0,
            RemoteKvReuseDecision::NoPlan {
                reason: _,
                stats,
            } => stats.rejected_g1_candidates == 0,
        },
{
    assert(selection::device_holders(Map::<WorkerWithDpRank, u32>::empty()) =~= Set::empty());
}

/// Each reason is labelled by its own name in snake case.
pub proof fn labels_are_the_names_in_snake_case()
    ensures
        RemoteKvReuseNoPlanReason::Disabled.label() == "disabled"@,
        RemoteKvReuseNoPlanReason::NoRemoteG2Candidate.label() == "no_remote_g2_candidate"@,
        RemoteKvReuseNoPlanReason::NoContiguousPrefix.label() == "no_contiguous_prefix"@,
        RemoteKvReuseNoPlanReason::SourceIsTarget.label() == "source_is_target"@,
        RemoteKvReuseNoPlanReason::IncompatibleBlockSize.label() == "incompatible_block_size"@,
        RemoteKvReuseNoPlanReason::PlanExpired.label() == "plan_expired"@,
        RemoteKvReuseNoPlanReason::SerializationFailed.label() == "serialization_failed"@,
{
}

} // verus!
