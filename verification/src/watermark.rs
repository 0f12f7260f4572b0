//! Advancing the highest-executed-checkpoint watermark.
use vstd::prelude::*;

verus! {

/// How many checkpoints' full contents are kept after they have been executed,
/// for state sync to serve.
pub const NUM_SAVED_FULL_CHECKPOINT_CONTENTS: u64 = 5_000;

/// Every this many checkpoints, progress is logged.
pub const CHECKPOINT_PROGRESS_LOG_COUNT_INTERVAL: u64 = 5_000;

/// What to do when the watermark moves to a newly executed checkpoint.
#[derive(Clone, Copy, Debug, PartialEq, Eq, Structural)]
pub struct WatermarkBump {
    /// The new highest executed checkpoint.
    pub sequence_number: u64,
    /// The checkpoint whose full contents (and contents-digest mapping) to
    /// delete, if it is still stored.
    pub prune: Option<u64>,
    /// Whether to log progress at this checkpoint.
    pub log_progress: bool,
}

/// The checkpoint offered is not the one right after the watermark: executing
/// it would skip checkpoints.
#[derive(Clone, Copy, Debug, PartialEq, Eq, Structural)]
pub enum WatermarkError {
    /// A watermark exists and the checkpoint is not the next one after it.
    NotNext { previous_highest: u64, sequence_number: u64 },
    /// No checkpoint was executed yet and the checkpoint is not the first.
    NotFirst { sequence_number: u64 },
}

/// Whether `seq` is the checkpoint right after the watermark `prev` (the first
/// checkpoint, where there is no watermark yet).
pub open spec fn is_next_checkpoint(prev: Option<u64>, seq: u64) -> bool {
    match prev {
        Some(p) => seq == p + 1,
        None => seq == 0,
    }
}

/// The sequence number right after the watermark `prev`.
pub open spec fn next_after(prev: Option<u64>) -> int {
    match prev {
        Some(p) => p + 1,
        None => 0,
    }
}

/// The checkpoint whose full contents fall out of the kept window once `seq`
/// has been executed.
pub open spec fn prune_target(seq: u64) -> Option<u64> {
    if seq >= NUM_SAVED_FULL_CHECKPOINT_CONTENTS {
        Some((seq - NUM_SAVED_FULL_CHECKPOINT_CONTENTS) as u64)
    } else {
        None
    }
}

/// What moving the watermark to `seq` (the checkpoint right after it)
/// involves.
pub open spec fn bump_plan(seq: u64) -> WatermarkBump {
    WatermarkBump {
        sequence_number: seq,
        prune: prune_target(seq),
        log_progress: seq % CHECKPOINT_PROGRESS_LOG_COUNT_INTERVAL == 0,
    }
}

/// Why the watermark `prev` cannot move to `seq`.
pub open spec fn watermark_error(prev: Option<u64>, seq: u64) -> WatermarkError {
    match prev {
        Some(p) => WatermarkError::NotNext { previous_highest: p, sequence_number: seq },
        None => WatermarkError::NotFirst { sequence_number: seq },
    }
}

/// Checks that the watermark, as stored (`prev_highest`), may move to the
/// executed checkpoint `seq`: only to the checkpoint right after it, never
/// skipping one. Where it may not, the error names both.
pub fn check_watermark_move(prev_highest: Option<u64>, seq: u64) -> (r: Result<(), WatermarkError>)
    ensures
        r is Ok <==> is_next_checkpoint(prev_highest, seq),
        r is Err ==> r->Err_0 == watermark_error(prev_highest, seq),
{
    match prev_highest {
        Some(prev) => {
            if seq == 0 || seq - 1 != prev {
                return Err(WatermarkError::NotNext { previous_highest: prev, sequence_number: seq });
            }
        },
        None => {
            if seq != 0 {
                return Err(WatermarkError::NotFirst { sequence_number: seq });
            }
        },
    }
    Ok(())
}

/// Plans moving the watermark from `prev_highest` to the executed checkpoint
/// `seq`, which must be the one right after it: no checkpoint is ever skipped
/// (`check_watermark_move` tells whether it is). Once `seq` is at least the
/// size of the kept window, the checkpoint that many below it is to be pruned.
pub fn plan_watermark_bump(prev_highest: Option<u64>, seq: u64) -> (r: WatermarkBump)
    requires
        is_next_checkpoint(prev_highest, seq),
    ensures
        r == bump_plan(seq),
{
    let prune = if seq >= NUM_SAVED_FULL_CHECKPOINT_CONTENTS {
        Some(seq - NUM_SAVED_FULL_CHECKPOINT_CONTENTS)
    } else {
        None
    };
    WatermarkBump {
        sequence_number: seq,
        prune,
        log_progress: seq % CHECKPOINT_PROGRESS_LOG_COUNT_INTERVAL == 0,
    }
}

/// Whether moving the watermark from `prev` through `seqs`, one at a time in
/// order, is allowed at every step.
pub open spec fn bumps_all_succeed(prev: Option<u64>, seqs: Seq<u64>) -> bool
    decreases seqs.len(),
{
    if seqs.len() == 0 {
        true
    } else {
        is_next_checkpoint(prev, seqs[0]) && bumps_all_succeed(Some(seqs[0]), seqs.drop_first())
    }
}

/// The watermark after moving it from `prev` through `seqs`.
pub open spec fn watermark_after(prev: Option<u64>, seqs: Seq<u64>) -> Option<u64> {
    if seqs.len() == 0 {
        prev
    } else {
        Some(seqs.last())
    }
}

/// The watermark moves only to the checkpoint right after it: from `p` only to
/// `p + 1`, and from no watermark only to checkpoint 0.
pub proof fn lemma_next_checkpoint_exact(prev: Option<u64>, seq: u64)
    ensures
        prev is None ==> (is_next_checkpoint(prev, seq) <==> seq == 0),
        prev is Some ==> (is_next_checkpoint(prev, seq) <==> seq == prev->Some_0 + 1),
        is_next_checkpoint(prev, seq) ==> seq == next_after(prev),
        prev is None ==> next_after(prev) == 0,
        prev is Some ==> next_after(prev) == prev->Some_0 + 1,
{
}

/// Executing checkpoints in order, each one right after the last, never trips
/// the no-skipping check: starting from any watermark, moving it through the
/// checkpoints that follow it consecutively is allowed at every step, and
/// leaves it at the last of them.
pub proof fn lemma_consecutive_bumps_succeed(prev: Option<u64>, seqs: Seq<u64>)
    requires
        forall|i: int| 0 <= i < seqs.len() ==> #[trigger] seqs[i] == next_after(prev) + i,
    ensures
        bumps_all_succeed(prev, seqs),
        watermark_after(prev, seqs) == (if seqs.len() == 0 {
            prev
        } else {
            Some((next_after(prev) + seqs.len() - 1) as u64)
        }),
    decreases seqs.len(),
{
    if seqs.len() > 0 {
        let rest = seqs.drop_first();
        assert(seqs[0] == next_after(prev));
        assert forall|i: int| 0 <= i < rest.len() implies #[trigger] rest[i] == next_after(
            Some(seqs[0]),
        ) + i by {
            assert(rest[i] == seqs[i + 1]);
        }
        lemma_consecutive_bumps_succeed(Some(seqs[0]), rest);
    }
}

/// Moves that succeed in a row visit consecutive checkpoints: starting from
/// any watermark (from checkpoint 0 when there is none), a run of allowed
/// moves goes through the checkpoints right after it, one by one, and no
/// other.
pub proof fn lemma_successful_bumps_are_consecutive(prev: Option<u64>, seqs: Seq<u64>)
    requires
        bumps_all_succeed(prev, seqs),
    ensures
        forall|i: int| 0 <= i < seqs.len() ==> #[trigger] seqs[i] == next_after(prev) + i,
    decreases seqs.len(),
{
    if seqs.len() > 0 {
        let rest = seqs.drop_first();
        lemma_successful_bumps_are_consecutive(Some(seqs[0]), rest);
        assert forall|i: int| 0 <= i < seqs.len() implies #[trigger] seqs[i] == next_after(prev)
            + i by {
            if i > 0 {
                assert(seqs[i] == rest[i - 1]);
            }
        }
    }
}

/// Skipping a checkpoint is refused: if the checkpoint offered is anything but
/// the one right after the watermark, the move is not allowed and the error
/// names both.
pub proof fn lemma_skipping_is_refused(prev: u64, seq: u64)
    requires
        seq != prev + 1,
    ensures
        !is_next_checkpoint(Some(prev), seq),
        watermark_error(Some(prev), seq) == (WatermarkError::NotNext {
            previous_highest: prev,
            sequence_number: seq,
        }),
{
}

/// Each executed checkpoint's full contents are pruned exactly once, in order:
/// after a move to `seq`, the kept window is the last
/// `NUM_SAVED_FULL_CHECKPOINT_CONTENTS` checkpoints up to `seq`, and two
/// successive moves prune successive checkpoints, the first pruned being
/// checkpoint 0.
pub proof fn lemma_pruning_follows_watermark(prev: Option<u64>, seq: u64)
    requires
        is_next_checkpoint(prev, seq),
        seq < u64::MAX,
    ensures
        ({
            let first = bump_plan(seq);
            let second = bump_plan((seq + 1) as u64);
            &&& is_next_checkpoint(Some(seq), (seq + 1) as u64)
            &&& first.prune matches Some(p) ==> p < seq && seq - p == NUM_SAVED_FULL_CHECKPOINT_CONTENTS
            &&& first.prune is None ==> seq < NUM_SAVED_FULL_CHECKPOINT_CONTENTS
            &&& seq >= NUM_SAVED_FULL_CHECKPOINT_CONTENTS ==> first.prune is Some
            &&& first.log_progress <==> seq % CHECKPOINT_PROGRESS_LOG_COUNT_INTERVAL == 0
            &&& first.sequence_number == seq
            &&& first.prune matches Some(p) ==> second.prune == Some((p + 1) as u64)
            &&& first.prune is None ==> (second.prune is None || second.prune == Some(0u64))
        }),
{
}

} // verus!
