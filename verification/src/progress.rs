//! Bookkeeping of an epoch run as checkpoints finish executing, in order:
//! the highest executed checkpoint, and when to sample throughput.
use vstd::prelude::*;

use crate::schedule::{epoch_start, highest_seq};
use crate::types::{CheckpointSummary, RunWithRange};
use crate::watermark::{
    bumps_all_succeed, is_next_checkpoint, lemma_successful_bumps_are_consecutive, next_after,
};

verus! {

/// Throughput is sampled once more than this many transactions were executed
/// since the last sample...
pub const TPS_SAMPLE_TRANSACTIONS: u64 = 10_000;

/// ...or once more than this many milliseconds passed since it.
pub const TPS_SAMPLE_INTERVAL_MS: u64 = 30_000;

/// A throughput sample: transactions executed over the elapsed time since the
/// previous sample.
#[derive(Clone, Copy, Debug, PartialEq, Eq, Structural)]
pub struct ThroughputSample {
    pub transactions: u64,
    pub elapsed_ms: u64,
}

/// The state an epoch run keeps across executed checkpoints.
pub struct EpochProgress {
    highest_executed: Option<CheckpointSummary>,
    baseline_transactions: u64,
}

/// Whether a sample is due after `transactions` more transactions in
/// `elapsed_ms` milliseconds.
pub open spec fn sample_due(transactions: int, elapsed_ms: u64) -> bool {
    transactions > TPS_SAMPLE_TRANSACTIONS || elapsed_ms > TPS_SAMPLE_INTERVAL_MS
}

impl EpochProgress {
    /// The checkpoint executed last in this run (or before it).
    pub closed spec fn spec_highest_executed(&self) -> Option<CheckpointSummary> {
        self.highest_executed
    }

    /// The network transaction count at the last throughput sample.
    pub closed spec fn spec_baseline_transactions(&self) -> u64 {
        self.baseline_transactions
    }

    /// Starts from the highest checkpoint executed before the run; throughput
    /// is first measured from its transaction count (0 when there is none).
    pub fn new(highest_executed: Option<CheckpointSummary>) -> (p: Self)
        ensures
            p.spec_highest_executed() == highest_executed,
            p.spec_baseline_transactions() == match highest_executed {
                Some(h) => h.network_total_transactions,
                None => 0,
            },
    {
        let baseline_transactions = match &highest_executed {
            Some(h) => h.network_total_transactions,
            None => 0,
        };
        EpochProgress { highest_executed, baseline_transactions }
    }

    pub fn highest_executed(&self) -> (r: Option<CheckpointSummary>)
        ensures
            r == self.spec_highest_executed(),
    {
        self.highest_executed
    }

    pub fn baseline_transactions(&self) -> (r: u64)
        ensures
            r == self.spec_baseline_transactions(),
    {
        self.baseline_transactions
    }

    /// Records that `checkpoint` finished executing, `elapsed_ms` after the
    /// last throughput sample. Checkpoints are processed in sequence order:
    /// `checkpoint` is the one right after the highest executed checkpoint
    /// (checkpoint 0 when there is none), and it becomes the highest. A
    /// sample is due once more than `TPS_SAMPLE_TRANSACTIONS` transactions or
    /// more than `TPS_SAMPLE_INTERVAL_MS` milliseconds passed since the last
    /// one; the sample is returned and the next is measured from here.
    pub fn record_executed(&mut self, checkpoint: CheckpointSummary, elapsed_ms: u64) -> (r: Option<
        ThroughputSample,
    >)
        requires
            is_next_checkpoint(
                highest_seq(old(self).spec_highest_executed()),
                checkpoint.sequence_number,
            ),
            checkpoint.network_total_transactions >= old(self).spec_baseline_transactions(),
        ensures
            final(self).spec_highest_executed() == Some(checkpoint),
            ({
                let delta = checkpoint.network_total_transactions
                    - old(self).spec_baseline_transactions();
                if sample_due(delta, elapsed_ms) {
                    &&& r == Some(
                        ThroughputSample { transactions: delta as u64, elapsed_ms: elapsed_ms },
                    )
                    &&& final(self).spec_baseline_transactions()
                        == checkpoint.network_total_transactions
                } else {
                    &&& r is None
                    &&& final(self).spec_baseline_transactions()
                        == old(self).spec_baseline_transactions()
                }
            }),
    {
        self.highest_executed = Some(checkpoint);
        let current = checkpoint.network_total_transactions;
        let delta = current - self.baseline_transactions;
        if delta > TPS_SAMPLE_TRANSACTIONS || elapsed_ms > TPS_SAMPLE_INTERVAL_MS {
            self.baseline_transactions = current;
            Some(ThroughputSample { transactions: delta, elapsed_ms })
        } else {
            None
        }
    }
}

/// Throughput is sampled exactly when more than 10,000 transactions or more
/// than 30 seconds went by since the last sample.
pub proof fn lemma_sample_due_exact(transactions: int, elapsed_ms: u64)
    ensures
        sample_due(transactions, elapsed_ms) <==> (transactions > 10_000 || elapsed_ms > 30_000),
{
}

/// What follows committing a checkpoint's transactions: any checkpoint but
/// the epoch's last adds to the running state accumulator and moves the
/// highest-executed watermark to itself; the epoch's last does neither.
#[derive(Clone, Copy, Debug, PartialEq, Eq, Structural)]
pub enum PostCommitStep {
    AccumulateAndBump { sequence_number: u64 },
    EpochEnd,
}

/// Decides what follows committing `checkpoint`: the watermark moves (after
/// the running root is accumulated) exactly when it is not the epoch's last.
pub fn post_commit_step(checkpoint: &CheckpointSummary) -> (r: PostCommitStep)
    ensures
        r == (if checkpoint.end_of_epoch {
            PostCommitStep::EpochEnd
        } else {
            PostCommitStep::AccumulateAndBump { sequence_number: checkpoint.sequence_number }
        }),
{
    if checkpoint.is_last_checkpoint_of_epoch() {
        PostCommitStep::EpochEnd
    } else {
        PostCommitStep::AccumulateAndBump { sequence_number: checkpoint.sequence_number }
    }
}

/// Checkpoints are processed in sequence order: the checkpoints an epoch run
/// records as executed, in call order, are the synced checkpoints the run
/// starts with (right after the highest executed one, or 0) and those right
/// after, each exactly once, none skipped and none out of order. (That each
/// call of `record_executed` is admitted in turn, starting from the highest
/// executed checkpoint, is `bumps_all_succeed` of the recorded sequence
/// numbers.)
pub proof fn lemma_processing_in_sequence_order(
    epoch: u64,
    run_with_range: Option<RunWithRange>,
    highest_executed: Option<CheckpointSummary>,
    processed: Seq<u64>,
)
    requires
        epoch_start(epoch, run_with_range, highest_executed) is Run,
        match highest_executed {
            Some(h) => h.sequence_number < u64::MAX,
            None => true,
        },
        bumps_all_succeed(highest_seq(highest_executed), processed),
    ensures
        forall|i: int|
            0 <= i < processed.len() ==> #[trigger] processed[i] == epoch_start(
                epoch,
                run_with_range,
                highest_executed,
            )->Run_0.start_seq + i,
{
    lemma_successful_bumps_are_consecutive(highest_seq(highest_executed), processed);
    assert(epoch_start(epoch, run_with_range, highest_executed)->Run_0.start_seq == next_after(
        highest_seq(highest_executed),
    ));
}

} // verus!
