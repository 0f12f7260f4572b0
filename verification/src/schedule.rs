//! Where an epoch run starts and which checkpoints it schedules.
use vstd::prelude::*;

use crate::types::{CheckpointSummary, RunWithRange, StopReason};
use crate::watermark::{bumps_all_succeed, lemma_consecutive_bumps_succeed, next_after};

verus! {

/// Where an epoch run starts scheduling, where it stops, and the transaction
/// count that throughput is first measured from.
#[derive(Clone, Copy, Debug, PartialEq, Eq, Structural)]
pub struct EpochPlan {
    pub start_seq: u64,
    pub stop_seq: Option<u64>,
    pub initial_transaction_count: u64,
}

/// Whether an epoch run stops at once, and why, or runs according to a plan.
#[derive(Clone, Copy, Debug, PartialEq, Eq, Structural)]
pub enum EpochStart {
    Stop(StopReason),
    Run(EpochPlan),
}

/// Whether the run-with-range bound says not to run `epoch`.
pub open spec fn range_stops_epoch(run_with_range: Option<RunWithRange>, epoch: u64) -> bool {
    match run_with_range {
        Some(rwr) => rwr.spec_is_epoch_gt(epoch),
        None => false,
    }
}

/// Whether the final checkpoint of `epoch` has been executed already (the
/// watermark was bumped to it, and the node stopped before reconfiguring).
pub open spec fn final_checkpoint_executed(
    epoch: u64,
    highest_executed: Option<CheckpointSummary>,
) -> bool {
    match highest_executed {
        Some(h) => h.epoch == epoch && h.end_of_epoch,
        None => false,
    }
}

/// The sequence number of the highest executed checkpoint, if any.
pub open spec fn highest_seq(highest_executed: Option<CheckpointSummary>) -> Option<u64> {
    match highest_executed {
        Some(h) => Some(h.sequence_number),
        None => None,
    }
}

/// The checkpoint bound of a run-with-range, if any.
pub open spec fn checkpoint_bound(run_with_range: Option<RunWithRange>) -> Option<u64> {
    match run_with_range {
        Some(rwr) => rwr.spec_into_checkpoint_bound(),
        None => None,
    }
}

/// What starting to run `epoch` amounts to.
pub open spec fn epoch_start(
    epoch: u64,
    run_with_range: Option<RunWithRange>,
    highest_executed: Option<CheckpointSummary>,
) -> EpochStart {
    if range_stops_epoch(run_with_range, epoch) {
        EpochStart::Stop(StopReason::RunWithRangeCondition)
    } else if final_checkpoint_executed(epoch, highest_executed) {
        EpochStart::Stop(StopReason::EpochComplete)
    } else {
        EpochStart::Run(
            EpochPlan {
                start_seq: next_after(highest_seq(highest_executed)) as u64,
                stop_seq: checkpoint_bound(run_with_range),
                initial_transaction_count: match highest_executed {
                    Some(h) => h.network_total_transactions,
                    None => 0,
                },
            },
        )
    }
}

/// Decides how a run of `epoch` begins: not at all if the run-with-range bound
/// lies before it; at once complete if the final checkpoint of the epoch was
/// already executed; otherwise scheduling from the checkpoint right after the
/// highest executed one (from checkpoint 0 when nothing was executed, which
/// happens only in epoch 0), up to the run-with-range checkpoint bound.
pub fn start_epoch(
    epoch: u64,
    run_with_range: Option<RunWithRange>,
    highest_executed: Option<CheckpointSummary>,
) -> (r: EpochStart)
    requires
        !range_stops_epoch(run_with_range, epoch) && !final_checkpoint_executed(
            epoch,
            highest_executed,
        ) ==> match highest_executed {
            Some(h) => h.sequence_number < u64::MAX,
            None => epoch == 0,
        },
    ensures
        r == epoch_start(epoch, run_with_range, highest_executed),
{
    if let Some(rwr) = &run_with_range {
        if rwr.is_epoch_gt(epoch) {
            return EpochStart::Stop(StopReason::RunWithRangeCondition);
        }
    }
    if let Some(h) = &highest_executed {
        if epoch == h.epoch && h.is_last_checkpoint_of_epoch() {
            return EpochStart::Stop(StopReason::EpochComplete);
        }
    }
    let (start_seq, initial_transaction_count) = match &highest_executed {
        Some(h) => (h.sequence_number + 1, h.network_total_transactions),
        None => (0, 0),
    };
    let stop_seq = match run_with_range {
        Some(rwr) => rwr.into_checkpoint_bound(),
        None => None,
    };
    EpochStart::Run(EpochPlan { start_seq, stop_seq, initial_transaction_count })
}

/// How an epoch run starts, stated on the inputs:
/// - an `Epoch(n)` bound with `epoch > n` stops the run for that bound;
/// - otherwise, if the highest executed checkpoint is this epoch's and carries
///   end-of-epoch data, the run stops as complete, whatever the run-with-range;
/// - otherwise the run goes, from checkpoint 0 when nothing was executed and
///   from the checkpoint right after the highest executed one otherwise, up to
///   the checkpoint of a `Checkpoint(n)` bound (and unbounded under any other
///   run-with-range, whatever was executed), measuring throughput from the
///   highest executed checkpoint's transaction count (0 when there is none).
/// In particular the run goes only if the epoch's final checkpoint was not
/// executed yet. (The start is stated for a highest executed checkpoint below
/// `u64::MAX`; `start_epoch` admits no other when it runs.)
pub proof fn lemma_epoch_start_cases(
    epoch: u64,
    run_with_range: Option<RunWithRange>,
    highest_executed: Option<CheckpointSummary>,
)
    ensures
        ({
            let r = epoch_start(epoch, run_with_range, highest_executed);
            let past_bound = match run_with_range {
                Some(RunWithRange::Epoch(n)) => epoch > n,
                _ => false,
            };
            let final_done = match highest_executed {
                Some(h) => h.epoch == epoch && h.end_of_epoch,
                None => false,
            };
            &&& past_bound ==> r == EpochStart::Stop(StopReason::RunWithRangeCondition)
            &&& !past_bound && final_done ==> r == EpochStart::Stop(StopReason::EpochComplete)
            &&& r is Run ==> !past_bound && !final_done
            &&& !past_bound && !final_done ==> r is Run
            &&& r is Run ==> r->Run_0.stop_seq == match run_with_range {
                Some(RunWithRange::Checkpoint(n)) => Some(n),
                _ => None::<u64>,
            }
            &&& r is Run && highest_executed is None ==> r->Run_0.start_seq == 0
                && r->Run_0.initial_transaction_count == 0
            &&& r is Run && highest_executed is Some && highest_executed->Some_0.sequence_number
                < u64::MAX ==> r->Run_0.start_seq
                == highest_executed->Some_0.sequence_number + 1
            &&& r is Run && highest_executed is Some ==> r->Run_0.initial_transaction_count
                == highest_executed->Some_0.network_total_transactions
        }),
{
}

/// Produces, one by one and in sequence order, the synced checkpoints an epoch
/// run executes: those from a start sequence number up to (not including) a
/// stop bound, ending for good with the first checkpoint that carries
/// end-of-epoch data, the epoch's last, which is handed out too.
pub struct CheckpointScheduler {
    start: u64,
    next: u64,
    end: u64,
    finished: bool,
}

impl CheckpointScheduler {
    pub closed spec fn start_seq(&self) -> u64 {
        self.start
    }

    /// The sequence number to read next, unless the scheduler is done.
    pub closed spec fn next_seq(&self) -> u64 {
        self.next
    }

    /// The exclusive bound on scheduled sequence numbers.
    pub closed spec fn end_seq(&self) -> u64 {
        self.end
    }

    /// Whether the epoch's last checkpoint was handed out.
    pub closed spec fn is_finished(&self) -> bool {
        self.finished
    }

    /// The sequence numbers handed out so far, in order.
    pub open spec fn scheduled(&self) -> Seq<int> {
        Seq::new((self.next_seq() - self.start_seq()) as nat, |i: int| self.start_seq() + i)
    }

    /// Whether another checkpoint is to be read.
    pub open spec fn wants_more(&self) -> bool {
        !self.is_finished() && self.next_seq() < self.end_seq()
    }

    pub closed spec fn wf(&self) -> bool {
        &&& self.start <= self.next
        &&& self.next > self.start ==> self.next <= self.end
    }

    /// A scheduler over `start_seq..stop_seq`, or up to `u64::MAX` when there
    /// is no stop bound.
    pub fn new(start_seq: u64, stop_seq: Option<u64>) -> (s: Self)
        ensures
            s.wf(),
            s.start_seq() == start_seq,
            s.next_seq() == start_seq,
            s.end_seq() == match stop_seq {
                Some(stop) => stop,
                None => u64::MAX,
            },
            !s.is_finished(),
            s.scheduled() == Seq::<int>::empty(),
    {
        let end = match stop_seq {
            Some(stop) => stop,
            None => u64::MAX,
        };
        let s = CheckpointScheduler { start: start_seq, next: start_seq, end, finished: false };
        assert(s.scheduled() =~= Seq::<int>::empty());
        s
    }

    /// The sequence number of the synced checkpoint to read next, if any.
    pub fn next_to_read(&self) -> (r: Option<u64>)
        ensures
            r == (if self.wants_more() {
                Some(self.next_seq())
            } else {
                None
            }),
    {
        if !self.finished && self.next < self.end {
            Some(self.next)
        } else {
            None
        }
    }

    /// Takes the synced checkpoint read for `next_to_read` and hands it out;
    /// the schedule moves to the following sequence number, unless the
    /// checkpoint carries end-of-epoch data: it is the epoch's last, and
    /// nothing is read after it.
    pub fn on_synced(&mut self, checkpoint: CheckpointSummary) -> (r: CheckpointSummary)
        requires
            old(self).wf(),
            old(self).wants_more(),
            checkpoint.sequence_number == old(self).next_seq(),
        ensures
            final(self).wf(),
            final(self).start_seq() == old(self).start_seq(),
            final(self).end_seq() == old(self).end_seq(),
            r == checkpoint,
            final(self).next_seq() == old(self).next_seq() + 1,
            final(self).scheduled() == old(self).scheduled().push(old(self).next_seq() as int),
            final(self).is_finished() == checkpoint.end_of_epoch,
    {
        let ghost before = self.scheduled();
        self.next = self.next + 1;
        if checkpoint.is_last_checkpoint_of_epoch() {
            self.finished = true;
        }
        assert(self.scheduled() =~= before.push((self.next - 1) as int));
        checkpoint
    }
}

/// Once finished, a scheduler asks for nothing more; every sequence number it
/// handed out lies in `start..end`, in increasing order without gaps.
pub proof fn lemma_scheduled_within_bounds(s: CheckpointScheduler)
    requires
        s.wf(),
    ensures
        s.is_finished() ==> !s.wants_more(),
        forall|i: int|
            0 <= i < s.scheduled().len() ==> s.start_seq() <= #[trigger] s.scheduled()[i]
                < s.end_seq(),
        forall|i: int|
            0 <= i < s.scheduled().len() ==> #[trigger] s.scheduled()[i] == s.start_seq() + i,
{
}

/// An epoch run never skips a checkpoint: the first checkpoint it schedules is
/// the one right after the highest executed checkpoint, and as it executes the
/// checkpoints it schedules, in order, each one moves the watermark (stored as
/// the highest executed checkpoint) without tripping the no-skipping check.
pub proof fn lemma_epoch_run_never_skips(
    epoch: u64,
    run_with_range: Option<RunWithRange>,
    highest_executed: Option<CheckpointSummary>,
    executed: Seq<u64>,
)
    requires
        epoch_start(epoch, run_with_range, highest_executed) is Run,
        forall|i: int|
            0 <= i < executed.len() ==> #[trigger] executed[i] == epoch_start(
                epoch,
                run_with_range,
                highest_executed,
            )->Run_0.start_seq + i,
        match highest_executed {
            Some(h) => h.sequence_number < u64::MAX,
            None => true,
        },
    ensures
        bumps_all_succeed(highest_seq(highest_executed), executed),
{
    lemma_consecutive_bumps_succeed(highest_seq(highest_executed), executed);
}

} // verus!
