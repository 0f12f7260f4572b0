use checkpoint_executor::execution::{
    assert_not_forked, detect_fork, find_first_fork, partition_checkpoint_transactions,
    ForkDetected,
};
use checkpoint_executor::loading::{
    assemble_full_contents, first_missing, require_all_present, split_execution_digests,
};
use checkpoint_executor::progress::{
    post_commit_step, EpochProgress, PostCommitStep, ThroughputSample,
};
use checkpoint_executor::schedule::{start_epoch, CheckpointScheduler, EpochPlan, EpochStart};
use checkpoint_executor::types::{
    CheckpointSummary, Digest, ExecutionDigests, RunWithRange, StopReason,
};
use checkpoint_executor::watermark::{
    check_watermark_move, plan_watermark_bump, WatermarkBump, WatermarkError,
    NUM_SAVED_FULL_CHECKPOINT_CONTENTS,
};

fn digest(b: u8) -> Digest {
    Digest { bytes: [b; 32] }
}

fn summary(epoch: u64, seq: u64, total: u64, end_of_epoch: bool) -> CheckpointSummary {
    CheckpointSummary {
        epoch,
        sequence_number: seq,
        network_total_transactions: total,
        timestamp_ms: 1_000 + seq,
        content_digest: digest(seq as u8),
        end_of_epoch,
    }
}

#[test]
fn digests_compare_byte_by_byte() {
    let a = digest(7);
    let mut b = digest(7);
    assert!(a.equals(&b));
    b.bytes[31] = 8;
    assert!(!a.equals(&b));
    b.bytes[31] = 7;
    b.bytes[0] = 0;
    assert!(!a.equals(&b));
}

#[test]
fn run_with_range_epoch_bound_is_inclusive() {
    let rwr = RunWithRange::Epoch(5);
    assert!(!rwr.is_epoch_gt(4));
    assert!(!rwr.is_epoch_gt(5));
    assert!(rwr.is_epoch_gt(6));
    assert_eq!(rwr.into_checkpoint_bound(), None);
    let rwr = RunWithRange::Checkpoint(10);
    assert!(!rwr.is_epoch_gt(100));
    assert_eq!(rwr.into_checkpoint_bound(), Some(10));
}

#[test]
fn start_epoch_stops_past_the_run_with_range_epoch() {
    let r = start_epoch(6, Some(RunWithRange::Epoch(5)), Some(summary(5, 99, 1000, true)));
    assert_eq!(r, EpochStart::Stop(StopReason::RunWithRangeCondition));
    let r = start_epoch(5, Some(RunWithRange::Epoch(5)), Some(summary(5, 10, 100, false)));
    assert_eq!(
        r,
        EpochStart::Run(EpochPlan { start_seq: 11, stop_seq: None, initial_transaction_count: 100 })
    );
}

#[test]
fn start_epoch_complete_when_final_checkpoint_already_executed() {
    let r = start_epoch(3, None, Some(summary(3, 50, 700, true)));
    assert_eq!(r, EpochStart::Stop(StopReason::EpochComplete));
    // The final checkpoint of the previous epoch: the new epoch runs on.
    let r = start_epoch(4, None, Some(summary(3, 50, 700, true)));
    assert_eq!(
        r,
        EpochStart::Run(EpochPlan { start_seq: 51, stop_seq: None, initial_transaction_count: 700 })
    );
}

#[test]
fn start_epoch_from_genesis_and_with_checkpoint_bound() {
    let r = start_epoch(0, None, None);
    assert_eq!(
        r,
        EpochStart::Run(EpochPlan { start_seq: 0, stop_seq: None, initial_transaction_count: 0 })
    );
    let r = start_epoch(2, Some(RunWithRange::Checkpoint(100)), Some(summary(2, 41, 9, false)));
    assert_eq!(
        r,
        EpochStart::Run(EpochPlan {
            start_seq: 42,
            stop_seq: Some(100),
            initial_transaction_count: 9
        })
    );
}

#[test]
fn scheduler_hands_out_consecutive_checkpoints_up_to_the_bound() {
    let mut s = CheckpointScheduler::new(3, Some(6));
    let mut handed = Vec::new();
    while let Some(seq) = s.next_to_read() {
        let out = s.on_synced(summary(1, seq, seq * 10, false));
        handed.push(out.sequence_number);
    }
    assert_eq!(handed, vec![3, 4, 5]);
}

#[test]
fn scheduler_hands_out_the_last_checkpoint_of_the_epoch_and_stops() {
    let mut s = CheckpointScheduler::new(0, None);
    let mut handed = Vec::new();
    while let Some(seq) = s.next_to_read() {
        let end = seq == 2;
        let out = s.on_synced(summary(0, seq, seq, end));
        handed.push((out.sequence_number, out.is_last_checkpoint_of_epoch()));
    }
    assert_eq!(handed, vec![(0, false), (1, false), (2, true)]);
    assert_eq!(s.next_to_read(), None);
}

#[test]
fn scheduler_with_empty_range_reads_nothing() {
    let s = CheckpointScheduler::new(7, Some(7));
    assert_eq!(s.next_to_read(), None);
    let s = CheckpointScheduler::new(8, Some(7));
    assert_eq!(s.next_to_read(), None);
}

#[test]
fn not_forked_when_digests_match() {
    let cp = summary(1, 12, 0, false);
    assert!(detect_fork(&cp, &digest(1), &digest(2), &digest(2)).is_none());
    assert_not_forked(&cp, &digest(1), &digest(2), &digest(2));
}

#[test]
fn fork_detected_when_digests_differ() {
    let cp = summary(1, 12, 0, false);
    let f: ForkDetected = detect_fork(&cp, &digest(1), &digest(2), &digest(3)).unwrap();
    assert_eq!(f.checkpoint_sequence_number, 12);
    assert!(f.tx_digest.equals(&digest(1)));
    assert!(f.expected_digest.equals(&digest(2)));
    assert!(f.actual_effects_digest.equals(&digest(3)));
}

#[test]
fn partition_keeps_unexecuted_in_order() {
    let cp = summary(1, 5, 0, false);
    let txns = vec!["t0", "t1", "t2", "t3"];
    let tx = vec![digest(10), digest(11), digest(12), digest(13)];
    let fx = vec![digest(20), digest(21), digest(22), digest(23)];
    let effects = vec![100, 101, 102, 103];
    let executed = vec![None, Some(digest(21)), None, Some(digest(23))];
    assert!(find_first_fork(&cp, &txns, &tx, &fx, &effects, &executed).is_none());
    let u = partition_checkpoint_transactions(&cp, txns, &tx, &fx, effects, &executed);
    assert_eq!(u.tx_digests.len(), 2);
    assert!(u.tx_digests[0].equals(&digest(10)));
    assert!(u.tx_digests[1].equals(&digest(12)));
    assert_eq!(u.txns[0].0, "t0");
    assert!(u.txns[0].1.equals(&digest(20)));
    assert_eq!(u.txns[1].0, "t2");
    assert!(u.txns[1].1.equals(&digest(22)));
    assert_eq!(u.effects, vec![100, 102]);
}

#[test]
fn partition_reports_first_fork() {
    let cp = summary(1, 5, 0, false);
    let txns = vec![0u8, 1, 2];
    let tx = vec![digest(10), digest(11), digest(12)];
    let fx = vec![digest(20), digest(21), digest(22)];
    let effects = vec![(), (), ()];
    let executed = vec![Some(digest(20)), Some(digest(99)), Some(digest(98))];
    let f = find_first_fork(&cp, &txns, &tx, &fx, &effects, &executed).unwrap();
    assert_eq!(f.checkpoint_sequence_number, 5);
    assert!(f.tx_digest.equals(&digest(11)));
    assert!(f.expected_digest.equals(&digest(21)));
    assert!(f.actual_effects_digest.equals(&digest(99)));
}

#[test]
fn partition_walks_only_the_shortest_column() {
    let cp = summary(1, 5, 0, false);
    let txns = vec![0u8, 1, 2];
    let tx = vec![digest(10), digest(11), digest(12)];
    let fx = vec![digest(20), digest(21), digest(22)];
    let effects = vec![7u32, 8, 9];
    // A fork at position 2 lies past the shortest column and is not looked at.
    let executed = vec![None, None, Some(digest(0))];
    let fx_short = vec![fx[0], fx[1]];
    assert!(find_first_fork(&cp, &txns, &tx, &fx_short, &effects, &executed).is_none());
    let u = partition_checkpoint_transactions(&cp, txns, &tx, &fx_short, effects, &executed);
    assert_eq!(u.txns.len(), 2);
    assert_eq!(u.effects, vec![7, 8]);
}

#[test]
fn split_digests_keeps_order() {
    let d = vec![
        ExecutionDigests { transaction: digest(1), effects: digest(2) },
        ExecutionDigests { transaction: digest(3), effects: digest(4) },
    ];
    let (tx, fx) = split_execution_digests(&d);
    assert_eq!(tx.len(), 2);
    assert!(tx[0].equals(&digest(1)) && tx[1].equals(&digest(3)));
    assert!(fx[0].equals(&digest(2)) && fx[1].equals(&digest(4)));
}

#[test]
fn assemble_full_contents_pairs_up_to_shorter() {
    let d = vec![
        ExecutionDigests { transaction: digest(1), effects: digest(2) },
        ExecutionDigests { transaction: digest(3), effects: digest(4) },
        ExecutionDigests { transaction: digest(5), effects: digest(6) },
    ];
    let full = vec![("a", 1u32), ("b", 2u32)];
    let l = assemble_full_contents(full, &d);
    assert_eq!(l.txns, vec!["a", "b"]);
    assert_eq!(l.effects, vec![1, 2]);
    assert_eq!(l.tx_digests.len(), 2);
    assert!(l.tx_digests[1].equals(&digest(3)));
    assert!(l.fx_digests[1].equals(&digest(4)));
}

#[test]
fn require_all_present_unwraps_or_names_first_missing() {
    assert_eq!(first_missing(&vec![Some(1), Some(2)]), None);
    assert_eq!(require_all_present(vec![Some(1), Some(2)]), vec![1, 2]);
    assert_eq!(first_missing(&vec![Some(1), None, None]), Some(1));
    assert_eq!(first_missing::<u8>(&vec![]), None);
    assert_eq!(require_all_present::<u8>(vec![]), Vec::<u8>::new());
}

#[test]
fn watermark_moves_only_to_the_next_checkpoint() {
    assert_eq!(check_watermark_move(None, 0), Ok(()));
    assert_eq!(
        plan_watermark_bump(None, 0),
        WatermarkBump { sequence_number: 0, prune: None, log_progress: true }
    );
    assert_eq!(check_watermark_move(None, 1), Err(WatermarkError::NotFirst { sequence_number: 1 }));
    assert_eq!(check_watermark_move(Some(4), 5), Ok(()));
    assert_eq!(
        plan_watermark_bump(Some(4), 5),
        WatermarkBump { sequence_number: 5, prune: None, log_progress: false }
    );
    assert_eq!(
        check_watermark_move(Some(4), 6),
        Err(WatermarkError::NotNext { previous_highest: 4, sequence_number: 6 })
    );
    assert_eq!(
        check_watermark_move(Some(4), 4),
        Err(WatermarkError::NotNext { previous_highest: 4, sequence_number: 4 })
    );
    assert_eq!(
        check_watermark_move(Some(u64::MAX), 0),
        Err(WatermarkError::NotNext { previous_highest: u64::MAX, sequence_number: 0 })
    );
}

#[test]
fn watermark_prunes_beyond_the_kept_window() {
    assert_eq!(NUM_SAVED_FULL_CHECKPOINT_CONTENTS, 5_000);
    assert_eq!(plan_watermark_bump(Some(4_998), 4_999).prune, None);
    assert_eq!(
        plan_watermark_bump(Some(4_999), 5_000),
        WatermarkBump { sequence_number: 5_000, prune: Some(0), log_progress: true }
    );
    assert_eq!(
        plan_watermark_bump(Some(12_344), 12_345),
        WatermarkBump { sequence_number: 12_345, prune: Some(7_345), log_progress: false }
    );
}

#[test]
fn consecutive_execution_never_skips_and_prunes_each_once() {
    // Law: from any watermark, consecutive checkpoints always move it, and the
    // pruned checkpoints follow one another from 0.
    let mut prev: Option<u64> = None;
    let mut pruned = Vec::new();
    for seq in 0..12_000u64 {
        assert!(check_watermark_move(prev, seq).is_ok());
        let b = plan_watermark_bump(prev, seq);
        if let Some(p) = b.prune {
            pruned.push(p);
        }
        prev = Some(b.sequence_number);
    }
    assert_eq!(pruned, (0..7_000u64).collect::<Vec<_>>());
}

#[test]
fn epoch_run_first_checkpoint_continues_watermark() {
    let highest = summary(2, 41, 9, false);
    match start_epoch(2, None, Some(highest)) {
        EpochStart::Run(plan) => {
            assert!(check_watermark_move(Some(highest.sequence_number), plan.start_seq).is_ok());
        }
        EpochStart::Stop(_) => panic!("expected a run"),
    }
}

#[test]
fn progress_samples_throughput_by_count_or_time() {
    let mut p = EpochProgress::new(None);
    assert_eq!(p.baseline_transactions(), 0);
    assert_eq!(p.record_executed(summary(0, 0, 10_000, false), 30_000), None);
    assert_eq!(p.highest_executed().unwrap().sequence_number, 0);
    assert_eq!(
        p.record_executed(summary(0, 1, 10_001, false), 10),
        Some(ThroughputSample { transactions: 10_001, elapsed_ms: 10 })
    );
    assert_eq!(p.baseline_transactions(), 10_001);
    assert_eq!(
        p.record_executed(summary(0, 2, 10_002, false), 30_001),
        Some(ThroughputSample { transactions: 1, elapsed_ms: 30_001 })
    );
    assert_eq!(p.baseline_transactions(), 10_002);
    let p = EpochProgress::new(Some(summary(3, 7, 555, false)));
    assert_eq!(p.baseline_transactions(), 555);
}

#[test]
fn bulk_and_one_by_one_loading_agree() {
    let d = vec![
        ExecutionDigests { transaction: digest(1), effects: digest(2) },
        ExecutionDigests { transaction: digest(3), effects: digest(4) },
    ];
    let bulk = assemble_full_contents(vec![("a", 10u32), ("b", 20u32)], &d);
    let (tx, fx) = split_execution_digests(&d);
    let txns = require_all_present(vec![Some("a"), Some("b")]);
    let effects = require_all_present(vec![Some(10u32), Some(20u32)]);
    assert_eq!(bulk.txns, txns);
    assert_eq!(bulk.effects, effects);
    assert_eq!(bulk.tx_digests.len(), tx.len());
    for i in 0..tx.len() {
        assert!(bulk.tx_digests[i].equals(&tx[i]));
        assert!(bulk.fx_digests[i].equals(&fx[i]));
    }
}

#[test]
fn only_checkpoints_before_the_last_move_the_watermark() {
    assert_eq!(
        post_commit_step(&summary(4, 80, 0, false)),
        PostCommitStep::AccumulateAndBump { sequence_number: 80 }
    );
    assert_eq!(post_commit_step(&summary(4, 81, 0, true)), PostCommitStep::EpochEnd);
}
