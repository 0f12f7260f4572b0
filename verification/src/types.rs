//! Plain values that the executor's decisions are made on.
use vstd::prelude::*;

verus! {

broadcast use vstd::array::group_array_axioms;

/// A 32-byte digest (of a transaction, of transaction effects, or of
/// checkpoint contents).
#[derive(Clone, Copy, Debug)]
pub struct Digest {
    pub bytes: [u8; 32],
}

/// The digest of a transaction.
pub type TransactionDigest = Digest;

/// The digest of the effects of a transaction.
pub type TransactionEffectsDigest = Digest;

impl Digest {
    /// Byte-wise equality of two digests.
    pub fn equals(&self, other: &Digest) -> (r: bool)
        ensures
            r == (*self == *other),
    {
        let mut i: usize = 0;
        while i < 32
            invariant
                i <= 32,
                forall|j: int| 0 <= j < i ==> self.bytes[j] == other.bytes[j],
            decreases 32 - i,
        {
            if self.bytes[i] != other.bytes[i] {
                return false;
            }
            i = i + 1;
        }
        assert(self.bytes =~= other.bytes);
        true
    }
}

/// The pair of digests that a checkpoint's contents hold for each of its
/// transactions: the transaction's digest and the digest of its effects.
#[derive(Clone, Copy, Debug)]
pub struct ExecutionDigests {
    pub transaction: TransactionDigest,
    pub effects: TransactionEffectsDigest,
}

/// What the executor reads of a certified checkpoint summary.
#[derive(Clone, Copy, Debug)]
pub struct CheckpointSummary {
    pub epoch: u64,
    pub sequence_number: u64,
    /// Number of transactions the network has executed up to and including
    /// this checkpoint.
    pub network_total_transactions: u64,
    pub timestamp_ms: u64,
    pub content_digest: Digest,
    /// Whether the summary carries end-of-epoch data.
    pub end_of_epoch: bool,
}

impl CheckpointSummary {
    /// The last checkpoint of an epoch is the one that carries end-of-epoch data.
    pub fn is_last_checkpoint_of_epoch(&self) -> (r: bool)
        ensures
            r == self.end_of_epoch,
    {
        self.end_of_epoch
    }
}

/// Why an epoch run ended.
#[derive(Clone, Copy, Debug, PartialEq, Eq, Structural)]
pub enum StopReason {
    EpochComplete,
    RunWithRangeCondition,
}

/// A bound on how far a node runs: up to the end of an epoch, or up to a
/// checkpoint.
#[derive(Clone, Copy, Debug, PartialEq, Eq, Structural)]
pub enum RunWithRange {
    Epoch(u64),
    Checkpoint(u64),
}

impl RunWithRange {
    /// Whether `epoch_id` lies past the epoch bound: `Epoch(n)` runs epoch `n`
    /// and stops on reaching `n + 1`.
    pub open spec fn spec_is_epoch_gt(self, epoch_id: u64) -> bool {
        match self {
            RunWithRange::Epoch(e) => epoch_id > e,
            RunWithRange::Checkpoint(_) => false,
        }
    }

    /// The checkpoint bound, where the range is one.
    pub open spec fn spec_into_checkpoint_bound(self) -> Option<u64> {
        match self {
            RunWithRange::Epoch(_) => None,
            RunWithRange::Checkpoint(seq) => Some(seq),
        }
    }

    pub fn is_epoch_gt(&self, epoch_id: u64) -> (r: bool)
        ensures
            r == self.spec_is_epoch_gt(epoch_id),
    {
        match self {
            RunWithRange::Epoch(e) => epoch_id > *e,
            RunWithRange::Checkpoint(_) => false,
        }
    }

    pub fn into_checkpoint_bound(self) -> (r: Option<u64>)
        ensures
            r == self.spec_into_checkpoint_bound(),
    {
        match self {
            RunWithRange::Epoch(_) => None,
            RunWithRange::Checkpoint(seq) => Some(seq),
        }
    }
}

/// The epoch bound is exclusive of later epochs and only of them: `Epoch(n)`
/// runs every epoch up to and including `n` and stops at every epoch past it
/// (so once past the bound, every later epoch is past it too); a checkpoint
/// bound never stops an epoch, and only it bounds scheduling, at its
/// checkpoint.
pub proof fn lemma_run_with_range_bounds(n: u64, epoch_id: u64, later: u64)
    ensures
        RunWithRange::Epoch(n).spec_is_epoch_gt(epoch_id) <==> epoch_id > n,
        RunWithRange::Epoch(n).spec_is_epoch_gt(epoch_id) && later >= epoch_id
            ==> RunWithRange::Epoch(n).spec_is_epoch_gt(later),
        !RunWithRange::Checkpoint(n).spec_is_epoch_gt(epoch_id),
        RunWithRange::Epoch(n).spec_into_checkpoint_bound() == None::<u64>,
        RunWithRange::Checkpoint(n).spec_into_checkpoint_bound() == Some(n),
{
}

} // verus!
