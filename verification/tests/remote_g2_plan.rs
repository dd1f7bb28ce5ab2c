use kv_router::indexer::{LowerTierMatchDetails, MatchDetails, TieredMatchDetails};
use kv_router::keyed_map::KeyedMap;
use kv_router::protocols::{LocalBlockHash, OverlapScores, StorageTier, WorkerWithDpRank};
use kv_router::remote_g2_plan::{
    select_remote_g2_reuse_plan, RemoteKvReuseDecision, RemoteKvReuseNoPlanReason,
    RemoteKvReusePlan, RemoteKvReuseSelectionInput, RemoteKvReuseSelectionStats,
    REMOTE_KV_REUSE_NO_PLAN_REASON_EXTRA_ARGS_KEY, REMOTE_KV_REUSE_PLAN_EXTRA_ARGS_KEY,
    REMOTE_KV_REUSE_PLAN_VERSION,
};

fn block_hashes(count: u64) -> Vec<LocalBlockHash> {
    (0..count).map(LocalBlockHash).collect()
}

fn host_pinned_details(hits: &[(WorkerWithDpRank, usize)]) -> LowerTierMatchDetails {
    let mut details = LowerTierMatchDetails::default();
    for &(worker, count) in hits {
        details.hits.insert(worker, count);
    }
    details
}

fn tiered_matches(
    device_hits: &[(WorkerWithDpRank, u32)],
    host_pinned_hits: &[(WorkerWithDpRank, usize)],
) -> TieredMatchDetails {
    let mut device = MatchDetails {
        overlap_scores: OverlapScores::new(),
    };
    for &(worker, overlap) in device_hits {
        device.overlap_scores.scores.insert(worker, overlap);
    }

    let mut lower_tier = KeyedMap::new();
    lower_tier.insert(
        StorageTier::HostPinned,
        host_pinned_details(host_pinned_hits),
    );

    TieredMatchDetails { device, lower_tier }
}

fn selection_input<'a>(
    target: WorkerWithDpRank,
    block_hashes: &'a [LocalBlockHash],
    tiered_matches: &'a TieredMatchDetails,
) -> RemoteKvReuseSelectionInput<'a> {
    RemoteKvReuseSelectionInput {
        request_id: "request-1",
        target,
        block_hashes,
        block_size_tokens: 16,
        tiered_matches,
        created_at_ms: 1000,
        expires_at_ms: 2000,
    }
}

fn expect_plan(decision: RemoteKvReuseDecision) -> RemoteKvReusePlan {
    match decision {
        RemoteKvReuseDecision::Plan { plan, .. } => plan,
        other => panic!("expected plan, got {other:?}"),
    }
}

fn expect_reason(decision: RemoteKvReuseDecision) -> RemoteKvReuseNoPlanReason {
    match decision {
        RemoteKvReuseDecision::NoPlan { reason, .. } => reason,
        other => panic!("expected no plan, got {other:?}"),
    }
}

#[test]
fn no_plan_reason_is_low_cardinality_snake_case() {
    let json =
        serde_json::to_string(RemoteKvReuseNoPlanReason::NoRemoteG2Candidate.as_str()).unwrap();
    assert_eq!(json, "\"no_remote_g2_candidate\"");
}

#[test]
fn selects_longest_remote_g2_prefix() {
    let hashes = block_hashes(5);
    let target = WorkerWithDpRank::new(9, 0);
    let matches = tiered_matches(
        &[],
        &[
            (WorkerWithDpRank::new(7, 0), 2),
            (WorkerWithDpRank::new(8, 0), 4),
        ],
    );

    let decision = select_remote_g2_reuse_plan(selection_input(target, &hashes, &matches));

    match decision {
        RemoteKvReuseDecision::Plan { plan, .. } => {
            assert_eq!(plan.source_worker_id, 8);
            assert_eq!(plan.source_dp_rank, 0);
            assert_eq!(plan.planned_prefix_blocks, 4);
            assert_eq!(plan.block_hashes, hashes[..4].to_vec());
        }
        other => panic!("expected plan, got {other:?}"),
    }
}

#[test]
fn remote_g2_tie_break_is_stable_by_worker_then_rank() {
    let hashes = block_hashes(4);
    let target = WorkerWithDpRank::new(9, 0);
    let matches = tiered_matches(
        &[],
        &[
            (WorkerWithDpRank::new(8, 1), 3),
            (WorkerWithDpRank::new(7, 3), 3),
            (WorkerWithDpRank::new(7, 1), 3),
        ],
    );

    let decision = select_remote_g2_reuse_plan(selection_input(target, &hashes, &matches));

    match decision {
        RemoteKvReuseDecision::Plan { plan, .. } => {
            assert_eq!(plan.source_worker_id, 7);
            assert_eq!(plan.source_dp_rank, 1);
            assert_eq!(plan.planned_prefix_blocks, 3);
        }
        other => panic!("expected plan, got {other:?}"),
    }
}

#[test]
fn remote_g1_device_hits_are_rejected_not_selected() {
    let hashes = block_hashes(2);
    let target = WorkerWithDpRank::new(9, 0);
    let matches = TieredMatchDetails {
        device: {
            let mut device = MatchDetails {
                overlap_scores: OverlapScores::new(),
            };
            device
                .overlap_scores
                .scores
                .insert(WorkerWithDpRank::new(7, 0), 2);
            device
        },
        lower_tier: Default::default(),
    };

    let decision = select_remote_g2_reuse_plan(selection_input(target, &hashes, &matches));

    match decision {
        RemoteKvReuseDecision::NoPlan { reason, stats } => {
            assert_eq!(reason, RemoteKvReuseNoPlanReason::NoRemoteG2Candidate);
            assert!(stats.rejected_g1_candidates > 0);
        }
        other => panic!("expected no plan, got {other:?}"),
    }
}

#[test]
fn source_selection_does_not_change_target() {
    let hashes = block_hashes(3);
    let target = WorkerWithDpRank::new(42, 2);
    let matches = tiered_matches(&[], &[(WorkerWithDpRank::new(7, 0), 3)]);

    let decision = select_remote_g2_reuse_plan(selection_input(target, &hashes, &matches));

    match decision {
        RemoteKvReuseDecision::Plan { plan, .. } => {
            assert_eq!(plan.target_worker_id, 42);
            assert_eq!(plan.target_dp_rank, 2);
            assert_eq!(plan.source_worker_id, 7);
            assert_eq!(plan.source_dp_rank, 0);
        }
        other => panic!("expected plan, got {other:?}"),
    }
}

#[test]
fn zero_host_pinned_hits_return_no_contiguous_prefix() {
    let hashes = block_hashes(2);
    let target = WorkerWithDpRank::new(9, 0);
    let matches = tiered_matches(&[], &[(WorkerWithDpRank::new(7, 0), 0)]);

    let decision = select_remote_g2_reuse_plan(selection_input(target, &hashes, &matches));

    match decision {
        RemoteKvReuseDecision::NoPlan { reason, .. } => {
            assert_eq!(reason, RemoteKvReuseNoPlanReason::NoContiguousPrefix);
        }
        other => panic!("expected no plan, got {other:?}"),
    }
}

#[test]
fn plan_start_block_index_is_zero_when_source_has_no_device_match() {
    // The source has 0 device-tier matches and 3 HostPinned hits: the plan
    // covers request positions [0, 3) and start_block_index == 0.
    let hashes = block_hashes(5);
    let target = WorkerWithDpRank::new(9, 0);
    let source = WorkerWithDpRank::new(7, 0);
    let matches = tiered_matches(&[], &[(source, 3)]);

    let decision = select_remote_g2_reuse_plan(selection_input(target, &hashes, &matches));

    match decision {
        RemoteKvReuseDecision::Plan { plan, .. } => {
            assert_eq!(plan.start_block_index, 0);
            assert_eq!(plan.planned_prefix_blocks, 3);
            assert_eq!(plan.block_hashes, hashes[..3].to_vec());
        }
        other => panic!("expected plan, got {other:?}"),
    }
}

#[test]
fn plan_start_block_index_equals_source_device_match() {
    // The source has 2 device-tier matches and 2 HostPinned hits chained past
    // them: the plan covers request positions [2, 4) and
    // start_block_index == 2.
    let hashes = block_hashes(6);
    let target = WorkerWithDpRank::new(9, 0);
    let source = WorkerWithDpRank::new(7, 0);
    let matches = tiered_matches(&[(source, 2)], &[(source, 2)]);

    let decision = select_remote_g2_reuse_plan(selection_input(target, &hashes, &matches));

    match decision {
        RemoteKvReuseDecision::Plan { plan, .. } => {
            assert_eq!(plan.start_block_index, 2);
            assert_eq!(plan.planned_prefix_blocks, 2);
            assert_eq!(plan.block_hashes, hashes[2..4].to_vec());
        }
        other => panic!("expected plan, got {other:?}"),
    }
}

#[test]
fn whole_decision_is_as_expected() {
    let hashes = block_hashes(6);
    let source = WorkerWithDpRank::new(7, 3);
    let matches = tiered_matches(
        &[
            (source, 1),
            (WorkerWithDpRank::new(5, 0), 4),
            (WorkerWithDpRank::new(6, 0), 0),
        ],
        &[(source, 2)],
    );

    let decision = select_remote_g2_reuse_plan(selection_input(
        WorkerWithDpRank::new(9, 1),
        &hashes,
        &matches,
    ));

    assert_eq!(
        decision,
        RemoteKvReuseDecision::Plan {
            plan: RemoteKvReusePlan {
                plan_id: "remote-g2:request-1:7:3:1000".to_string(),
                request_id: "request-1".to_string(),
                target_worker_id: 9,
                target_dp_rank: 1,
                source_worker_id: 7,
                source_dp_rank: 3,
                source_tier: StorageTier::HostPinned,
                block_hashes: vec![LocalBlockHash(1), LocalBlockHash(2)],
                start_block_index: 1,
                planned_prefix_blocks: 2,
                block_size_tokens: 16,
                created_at_ms: 1000,
                expires_at_ms: 2000,
                plan_version: REMOTE_KV_REUSE_PLAN_VERSION,
            },
            stats: RemoteKvReuseSelectionStats {
                rejected_g1_candidates: 2,
            },
        }
    );
}

#[test]
fn plan_id_writes_extreme_numbers() {
    let hashes = block_hashes(1);
    let source = WorkerWithDpRank::new(u64::MAX, u32::MAX);
    let matches = tiered_matches(&[], &[(source, 1)]);
    let mut input = selection_input(WorkerWithDpRank::new(9, 0), &hashes, &matches);
    input.request_id = "a:b";
    input.created_at_ms = 0;

    let plan = expect_plan(select_remote_g2_reuse_plan(input));

    assert_eq!(
        plan.plan_id,
        "remote-g2:a:b:18446744073709551615:4294967295:0"
    );
    assert_eq!(
        plan.plan_id,
        format!("remote-g2:{}:{}:{}:{}", "a:b", u64::MAX, u32::MAX, 0)
    );
}

#[test]
fn plan_ids_of_different_sources_differ() {
    let hashes = block_hashes(1);
    let target = WorkerWithDpRank::new(9, 0);
    let a = tiered_matches(&[], &[(WorkerWithDpRank::new(1, 12), 1)]);
    let b = tiered_matches(&[], &[(WorkerWithDpRank::new(11, 2), 1)]);
    let plan_a = expect_plan(select_remote_g2_reuse_plan(selection_input(
        target, &hashes, &a,
    )));
    let plan_b = expect_plan(select_remote_g2_reuse_plan(selection_input(
        target, &hashes, &b,
    )));
    assert_ne!(plan_a.plan_id, plan_b.plan_id);
}

#[test]
fn plan_stops_at_the_end_of_the_request() {
    let hashes = block_hashes(5);
    let source = WorkerWithDpRank::new(7, 0);
    let matches = tiered_matches(&[(source, 3)], &[(source, 100)]);
    let plan = expect_plan(select_remote_g2_reuse_plan(selection_input(
        WorkerWithDpRank::new(9, 0),
        &hashes,
        &matches,
    )));
    assert_eq!(plan.start_block_index, 3);
    assert_eq!(plan.planned_prefix_blocks, 2);
    assert_eq!(plan.block_hashes, hashes[3..].to_vec());
}

#[test]
fn device_match_of_the_whole_request_leaves_nothing() {
    let hashes = block_hashes(3);
    let source = WorkerWithDpRank::new(7, 0);
    for device in [3u32, 4, u32::MAX] {
        let matches = tiered_matches(&[(source, device)], &[(source, 2)]);
        let reason = expect_reason(select_remote_g2_reuse_plan(selection_input(
            WorkerWithDpRank::new(9, 0),
            &hashes,
            &matches,
        )));
        assert_eq!(reason, RemoteKvReuseNoPlanReason::NoContiguousPrefix);
    }
}

#[test]
fn request_without_blocks_gets_no_plan() {
    let matches = tiered_matches(&[], &[(WorkerWithDpRank::new(7, 0), 2)]);
    let reason = expect_reason(select_remote_g2_reuse_plan(selection_input(
        WorkerWithDpRank::new(9, 0),
        &[],
        &matches,
    )));
    assert_eq!(reason, RemoteKvReuseNoPlanReason::NoContiguousPrefix);
}

#[test]
fn target_report_has_no_bearing() {
    let hashes = block_hashes(4);
    let target = WorkerWithDpRank::new(9, 0);
    let source = WorkerWithDpRank::new(7, 0);

    let without = tiered_matches(&[], &[(source, 2)]);
    let with = tiered_matches(&[], &[(source, 2), (target, 4)]);
    assert_eq!(
        select_remote_g2_reuse_plan(selection_input(target, &hashes, &with)),
        select_remote_g2_reuse_plan(selection_input(target, &hashes, &without)),
    );

    let own_only = tiered_matches(&[], &[(target, 4)]);
    assert_eq!(
        expect_reason(select_remote_g2_reuse_plan(selection_input(
            target, &hashes, &own_only
        ))),
        RemoteKvReuseNoPlanReason::NoRemoteG2Candidate
    );
}

#[test]
fn other_rank_of_the_target_worker_is_remote() {
    let hashes = block_hashes(4);
    let matches = tiered_matches(&[], &[(WorkerWithDpRank::new(9, 1), 2)]);
    let plan = expect_plan(select_remote_g2_reuse_plan(selection_input(
        WorkerWithDpRank::new(9, 0),
        &hashes,
        &matches,
    )));
    assert_eq!(plan.source_worker_id, 9);
    assert_eq!(plan.source_dp_rank, 1);
}

#[test]
fn empty_report_has_no_bearing_on_the_plan() {
    let hashes = block_hashes(4);
    let target = WorkerWithDpRank::new(9, 0);
    let source = WorkerWithDpRank::new(7, 0);
    let without = tiered_matches(&[], &[(source, 2)]);
    let with = tiered_matches(&[], &[(WorkerWithDpRank::new(1, 0), 0), (source, 2)]);
    assert_eq!(
        select_remote_g2_reuse_plan(selection_input(target, &hashes, &with)),
        select_remote_g2_reuse_plan(selection_input(target, &hashes, &without)),
    );
}

#[test]
fn report_order_has_no_bearing() {
    let hashes = block_hashes(4);
    let target = WorkerWithDpRank::new(9, 0);
    let reports = [
        (WorkerWithDpRank::new(3, 0), 2),
        (WorkerWithDpRank::new(2, 5), 2),
        (WorkerWithDpRank::new(2, 4), 2),
    ];
    for rotation in 0..3 {
        let mut rotated = reports;
        rotated.rotate_left(rotation);
        let matches = tiered_matches(&[], &rotated);
        let plan = expect_plan(select_remote_g2_reuse_plan(selection_input(
            target, &hashes, &matches,
        )));
        assert_eq!((plan.source_worker_id, plan.source_dp_rank), (2, 4));
    }
}

#[test]
fn device_entries_of_others_are_only_counted() {
    let hashes = block_hashes(4);
    let target = WorkerWithDpRank::new(9, 0);
    let source = WorkerWithDpRank::new(7, 0);
    let other = WorkerWithDpRank::new(1, 0);

    let without = tiered_matches(&[(source, 1)], &[(source, 2)]);
    let with = tiered_matches(&[(source, 1), (other, 4), (target, 3)], &[(source, 2)]);
    let a = select_remote_g2_reuse_plan(selection_input(target, &hashes, &without));
    let b = select_remote_g2_reuse_plan(selection_input(target, &hashes, &with));
    match (a, b) {
        (
            RemoteKvReuseDecision::Plan {
                plan: plan_a,
                stats: stats_a,
            },
            RemoteKvReuseDecision::Plan {
                plan: plan_b,
                stats: stats_b,
            },
        ) => {
            assert_eq!(plan_a, plan_b);
            assert_eq!(stats_a.rejected_g1_candidates, 1);
            assert_eq!(stats_b.rejected_g1_candidates, 3);
        }
        other => panic!("expected two plans, got {other:?}"),
    }
}

#[test]
fn other_tiers_have_no_bearing() {
    let hashes = block_hashes(4);
    let target = WorkerWithDpRank::new(9, 0);
    let worker = WorkerWithDpRank::new(7, 0);
    for tier in [StorageTier::Device, StorageTier::Disk, StorageTier::External] {
        let mut matches = tiered_matches(&[], &[(worker, 1)]);
        matches
            .lower_tier
            .insert(tier, host_pinned_details(&[(worker, 4)]));
        let plan = expect_plan(select_remote_g2_reuse_plan(selection_input(
            target, &hashes, &matches,
        )));
        assert_eq!(plan.planned_prefix_blocks, 1);

        let mut lower_tier = KeyedMap::new();
        lower_tier.insert(tier, host_pinned_details(&[(worker, 4)]));
        let matches = TieredMatchDetails {
            device: MatchDetails::default(),
            lower_tier,
        };
        assert_eq!(
            expect_reason(select_remote_g2_reuse_plan(selection_input(
                target, &hashes, &matches
            ))),
            RemoteKvReuseNoPlanReason::NoRemoteG2Candidate
        );
    }
}

#[test]
fn tier_without_workers_is_no_tier() {
    let hashes = block_hashes(2);
    let target = WorkerWithDpRank::new(9, 0);
    let empty = tiered_matches(&[], &[]);
    let none = TieredMatchDetails {
        device: MatchDetails::default(),
        lower_tier: Default::default(),
    };
    let decision = select_remote_g2_reuse_plan(selection_input(target, &hashes, &empty));
    assert_eq!(
        decision,
        select_remote_g2_reuse_plan(selection_input(target, &hashes, &none))
    );
    assert_eq!(
        decision,
        RemoteKvReuseDecision::NoPlan {
            reason: RemoteKvReuseNoPlanReason::NoRemoteG2Candidate,
            stats: RemoteKvReuseSelectionStats::default(),
        }
    );
}

#[test]
fn every_reason_has_its_label() {
    let labels = [
        (RemoteKvReuseNoPlanReason::Disabled, "disabled"),
        (
            RemoteKvReuseNoPlanReason::NoRemoteG2Candidate,
            "no_remote_g2_candidate",
        ),
        (
            RemoteKvReuseNoPlanReason::NoContiguousPrefix,
            "no_contiguous_prefix",
        ),
        (
            RemoteKvReuseNoPlanReason::SourceIsTarget,
            "source_is_target",
        ),
        (
            RemoteKvReuseNoPlanReason::IncompatibleBlockSize,
            "incompatible_block_size",
        ),
        (RemoteKvReuseNoPlanReason::PlanExpired, "plan_expired"),
        (
            RemoteKvReuseNoPlanReason::SerializationFailed,
            "serialization_failed",
        ),
    ];
    for (i, (reason, label)) in labels.iter().enumerate() {
        assert_eq!(reason.as_str(), *label);
        for (_, later) in &labels[i + 1..] {
            assert_ne!(label, later);
        }
    }
}

#[test]
fn extra_args_keys_and_version() {
    assert_eq!(REMOTE_KV_REUSE_PLAN_EXTRA_ARGS_KEY, "remote_kv_reuse_plan");
    assert_eq!(
        REMOTE_KV_REUSE_NO_PLAN_REASON_EXTRA_ARGS_KEY,
        "remote_kv_reuse_no_plan_reason"
    );
    assert_eq!(REMOTE_KV_REUSE_PLAN_VERSION, 1);
}
