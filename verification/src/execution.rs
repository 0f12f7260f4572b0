//! Splitting the transactions of a checkpoint into those that still need
//! executing and those that were executed already, whose effects must match the
//! checkpoint's (a mismatch is a fork).
use vstd::prelude::*;

use crate::stack::into_stack;
use crate::types::{CheckpointSummary, Digest, TransactionDigest, TransactionEffectsDigest};
use crate::unzip::unzip3;

verus! {

/// A transaction of a checkpoint was executed locally with effects whose digest
/// differs from the one the checkpoint certifies.
#[derive(Clone, Copy, Debug)]
pub struct ForkDetected {
    pub checkpoint_sequence_number: u64,
    pub tx_digest: TransactionDigest,
    pub expected_digest: TransactionEffectsDigest,
    pub actual_effects_digest: TransactionEffectsDigest,
}

/// The transactions of a checkpoint that have not been executed yet, in
/// checkpoint order: their digests, each transaction with the effects digest
/// it is expected to produce, and their effects.
pub struct UnexecutedTransactions<T, E> {
    pub tx_digests: Vec<TransactionDigest>,
    pub txns: Vec<(T, TransactionEffectsDigest)>,
    pub effects: Vec<E>,
}

/// What to report when an already executed transaction produced effects other
/// than the checkpoint's.
pub open spec fn fork_report(
    checkpoint: CheckpointSummary,
    tx_digest: Digest,
    expected_digest: Digest,
    actual_effects_digest: Digest,
) -> ForkDetected {
    ForkDetected {
        checkpoint_sequence_number: checkpoint.sequence_number,
        tx_digest,
        expected_digest,
        actual_effects_digest,
    }
}

/// Tells whether a transaction that was already executed produced the effects
/// digest the checkpoint expects; a mismatch means the node has forked from
/// the network, and the report names the checkpoint, the transaction and both
/// digests.
pub fn detect_fork(
    checkpoint: &CheckpointSummary,
    tx_digest: &TransactionDigest,
    expected_digest: &TransactionEffectsDigest,
    actual_effects_digest: &TransactionEffectsDigest,
) -> (r: Option<ForkDetected>)
    ensures
        r is None <==> *expected_digest == *actual_effects_digest,
        r is Some ==> r->Some_0 == fork_report(
            *checkpoint,
            *tx_digest,
            *expected_digest,
            *actual_effects_digest,
        ),
{
    if expected_digest.equals(actual_effects_digest) {
        None
    } else {
        Some(ForkDetected {
            checkpoint_sequence_number: checkpoint.sequence_number,
            tx_digest: *tx_digest,
            expected_digest: *expected_digest,
            actual_effects_digest: *actual_effects_digest,
        })
    }
}

/// Asserts that a transaction that was already executed produced the effects
/// digest the checkpoint expects. A node whose effects differ has forked and
/// must halt: that input is not admitted here, and `detect_fork` tells it apart
/// (with the report to log) before this is called.
pub fn assert_not_forked(
    checkpoint: &CheckpointSummary,
    tx_digest: &TransactionDigest,
    expected_digest: &TransactionEffectsDigest,
    actual_effects_digest: &TransactionEffectsDigest,
)
    requires
        *expected_digest == *actual_effects_digest,
{
}

/// The number of rows when five columns are walked together: the shortest
/// column's length.
pub open spec fn rows_len(a: nat, b: nat, c: nat, d: nat, e: nat) -> nat {
    let ab = if a <= b { a } else { b };
    let cd = if c <= d { c } else { d };
    let abcd = if ab <= cd { ab } else { cd };
    if abcd <= e { abcd } else { e }
}

/// Walking five columns together goes exactly as far as the shortest one.
pub proof fn lemma_rows_len_is_shortest(a: nat, b: nat, c: nat, d: nat, e: nat)
    ensures
        rows_len(a, b, c, d, e) <= a,
        rows_len(a, b, c, d, e) <= b,
        rows_len(a, b, c, d, e) <= c,
        rows_len(a, b, c, d, e) <= d,
        rows_len(a, b, c, d, e) <= e,
        rows_len(a, b, c, d, e) == a || rows_len(a, b, c, d, e) == b || rows_len(a, b, c, d, e)
            == c || rows_len(a, b, c, d, e) == d || rows_len(a, b, c, d, e) == e,
{
}

/// The positions, in order, among the first `n` transactions, of those that
/// have no locally executed effects.
pub open spec fn unexecuted_indices(executed: Seq<Option<Digest>>, n: nat) -> Seq<int>
    decreases n,
{
    if n == 0 {
        Seq::empty()
    } else {
        let prev = unexecuted_indices(executed, (n - 1) as nat);
        if executed[n - 1] is None {
            prev.push(n - 1)
        } else {
            prev
        }
    }
}

/// Whether the transaction at `i` was executed with effects other than the
/// expected ones.
pub open spec fn forked_at(expected: Seq<Digest>, executed: Seq<Option<Digest>>, i: int) -> bool {
    match executed[i] {
        Some(actual) => actual != expected[i],
        None => false,
    }
}

/// Whether some transaction among the first `n` is forked.
pub open spec fn fork_among(expected: Seq<Digest>, executed: Seq<Option<Digest>>, n: nat) -> bool {
    exists|i: int| 0 <= i < n && forked_at(expected, executed, i)
}

/// A fork among the first `n` transactions is exactly a position below `n`
/// (the last one included) whose transaction was executed locally with an
/// effects digest other than the expected one.
pub proof fn lemma_fork_among_exact(expected: Seq<Digest>, executed: Seq<Option<Digest>>, n: nat)
    ensures
        fork_among(expected, executed, n) <==> exists|i: int|
            0 <= i < n && #[trigger] executed[i] is Some && executed[i]->Some_0 != expected[i],
        n > 0 && executed[n - 1] is Some && executed[n - 1]->Some_0 != expected[n - 1]
            ==> fork_among(expected, executed, n),
{
    if fork_among(expected, executed, n) {
        let i = choose|i: int| 0 <= i < n && forked_at(expected, executed, i);
        assert(0 <= i < n && executed[i] is Some && executed[i]->Some_0 != expected[i]);
    }
    if exists|i: int|
        0 <= i < n && #[trigger] executed[i] is Some && executed[i]->Some_0 != expected[i] {
        let i = choose|i: int|
            0 <= i < n && #[trigger] executed[i] is Some && executed[i]->Some_0 != expected[i];
        assert(forked_at(expected, executed, i));
    }
    if n > 0 && executed[n - 1] is Some && executed[n - 1]->Some_0 != expected[n - 1] {
        assert(forked_at(expected, executed, n - 1));
    }
}

/// Every one of the first `n` transactions is either already executed (and so
/// held to its expected effects) or listed as unexecuted, exactly once and in
/// checkpoint order: the unexecuted positions are precisely those without local
/// effects, in strictly increasing order.
pub proof fn lemma_unexecuted_indices_exact(executed: Seq<Option<Digest>>, n: nat)
    requires
        n <= executed.len(),
    ensures
        ({
            let idx = unexecuted_indices(executed, n);
            &&& forall|k: int| 0 <= k < idx.len() ==> 0 <= #[trigger] idx[k] < n
            &&& forall|k: int| 0 <= k < idx.len() ==> executed[#[trigger] idx[k]] is None
            &&& forall|k1: int, k2: int|
                0 <= k1 < k2 < idx.len() ==> #[trigger] idx[k1] < #[trigger] idx[k2]
            &&& forall|j: int|
                0 <= j < n && #[trigger] executed[j] is None ==> idx.contains(j)
        }),
    decreases n,
{
    if n > 0 {
        let prev = unexecuted_indices(executed, (n - 1) as nat);
        lemma_unexecuted_indices_exact(executed, (n - 1) as nat);
        let idx = unexecuted_indices(executed, n);
        assert forall|j: int| 0 <= j < n && #[trigger] executed[j] is None implies idx.contains(j) by {
            if j < n - 1 {
                let k = choose|k: int| 0 <= k < prev.len() && prev[k] == j;
                assert(idx[k] == j);
            } else {
                assert(idx[idx.len() - 1] == j);
            }
        }
    }
}

/// Looks for a fork among the transactions of a checkpoint, walking its
/// columns together up to the shortest one as `partition_checkpoint_transactions`
/// does, and reports the first transaction whose local effects differ from
/// the expected ones.
pub fn find_first_fork<T, E>(
    checkpoint: &CheckpointSummary,
    txns: &Vec<T>,
    tx_digests: &Vec<TransactionDigest>,
    fx_digests: &Vec<TransactionEffectsDigest>,
    effects: &Vec<E>,
    executed_fx_digests: &Vec<Option<TransactionEffectsDigest>>,
) -> (r: Option<ForkDetected>)
    ensures
        ({
            let n = rows_len(
                txns@.len(),
                tx_digests@.len(),
                fx_digests@.len(),
                effects@.len(),
                executed_fx_digests@.len(),
            );
            &&& (r is None <==> !fork_among(fx_digests@, executed_fx_digests@, n))
            &&& r is Some ==> exists|i: int|
                {
                    &&& 0 <= i < n
                    &&& forked_at(fx_digests@, executed_fx_digests@, i)
                    &&& !fork_among(fx_digests@, executed_fx_digests@, i as nat)
                    &&& r->Some_0 == fork_report(
                        *checkpoint,
                        tx_digests@[i],
                        fx_digests@[i],
                        executed_fx_digests@[i]->Some_0,
                    )
                }
        }),
{
    let mut n: usize = txns.len();
    if tx_digests.len() < n {
        n = tx_digests.len();
    }
    if fx_digests.len() < n {
        n = fx_digests.len();
    }
    if effects.len() < n {
        n = effects.len();
    }
    if executed_fx_digests.len() < n {
        n = executed_fx_digests.len();
    }
    let mut i: usize = 0;
    while i < n
        invariant
            i <= n,
            n == rows_len(
                txns@.len(),
                tx_digests@.len(),
                fx_digests@.len(),
                effects@.len(),
                executed_fx_digests@.len(),
            ),
            n <= tx_digests@.len(),
            n <= fx_digests@.len(),
            n <= executed_fx_digests@.len(),
            !fork_among(fx_digests@, executed_fx_digests@, i as nat),
        decreases n - i,
    {
        if let Some(actual) = &executed_fx_digests[i] {
            let found = detect_fork(checkpoint, &tx_digests[i], &fx_digests[i], actual);
            if found.is_some() {
                assert(forked_at(fx_digests@, executed_fx_digests@, i as int));
                assert(fork_among(fx_digests@, executed_fx_digests@, n as nat));
                return found;
            }
        }
        assert forall|j: int| 0 <= j < i + 1 implies !forked_at(
            fx_digests@,
            executed_fx_digests@,
            j,
        ) by {
            if j < i {
                assert(!(0 <= j < i && forked_at(fx_digests@, executed_fx_digests@, j)));
            }
        }
        i = i + 1;
    }
    None
}

/// Walks the transactions of a checkpoint together with their digests, their
/// expected effects digests, their effects and the effects digests of any
/// local execution, up to the shortest of these columns, and lists the
/// transactions without local effects, in checkpoint order, each with the
/// effects digest it is expected to produce. Each transaction that was
/// executed locally is asserted not to have forked: a fork (which
/// `find_first_fork` reports) is not admitted.
pub fn partition_checkpoint_transactions<T, E>(
    checkpoint: &CheckpointSummary,
    txns: Vec<T>,
    tx_digests: &Vec<TransactionDigest>,
    fx_digests: &Vec<TransactionEffectsDigest>,
    effects: Vec<E>,
    executed_fx_digests: &Vec<Option<TransactionEffectsDigest>>,
) -> (u: UnexecutedTransactions<T, E>)
    requires
        !fork_among(
            fx_digests@,
            executed_fx_digests@,
            rows_len(
                txns@.len(),
                tx_digests@.len(),
                fx_digests@.len(),
                effects@.len(),
                executed_fx_digests@.len(),
            ),
        ),
    ensures
        ({
            let n = rows_len(
                txns@.len(),
                tx_digests@.len(),
                fx_digests@.len(),
                effects@.len(),
                executed_fx_digests@.len(),
            );
            let idx = unexecuted_indices(executed_fx_digests@, n);
            &&& u.tx_digests@.len() == idx.len()
            &&& u.txns@.len() == idx.len()
            &&& u.effects@.len() == idx.len()
            &&& forall|k: int| 0 <= k < idx.len() ==> #[trigger] u.tx_digests@[k] == tx_digests@[idx[k]]
            &&& forall|k: int|
                0 <= k < idx.len() ==> #[trigger] u.txns@[k] == (txns@[idx[k]], fx_digests@[idx[k]])
            &&& forall|k: int| 0 <= k < idx.len() ==> #[trigger] u.effects@[k] == effects@[idx[k]]
        }),
{
    let ghost txns0 = txns@;
    let ghost effects0 = effects@;
    let mut n: usize = txns.len();
    if tx_digests.len() < n {
        n = tx_digests.len();
    }
    if fx_digests.len() < n {
        n = fx_digests.len();
    }
    if effects.len() < n {
        n = effects.len();
    }
    if executed_fx_digests.len() < n {
        n = executed_fx_digests.len();
    }
    assert(n == rows_len(
        txns@.len(),
        tx_digests@.len(),
        fx_digests@.len(),
        effects@.len(),
        executed_fx_digests@.len(),
    ));
    let mut txns_prefix = txns;
    let mut effects_prefix = effects;
    txns_prefix.truncate(n);
    effects_prefix.truncate(n);
    let mut txn_stack = into_stack(txns_prefix);
    let mut effects_stack = into_stack(effects_prefix);
    let mut rows: Vec<(TransactionDigest, (T, TransactionEffectsDigest), E)> = Vec::new();
    let mut i: usize = 0;
    while i < n
        invariant
            i <= n,
            txns0 == txns@,
            effects0 == effects@,
            n == rows_len(
                txns0.len(),
                tx_digests@.len(),
                fx_digests@.len(),
                effects0.len(),
                executed_fx_digests@.len(),
            ),
            n <= txns0.len(),
            n <= tx_digests@.len(),
            n <= fx_digests@.len(),
            n <= effects0.len(),
            n <= executed_fx_digests@.len(),
            txn_stack@.len() == n - i,
            effects_stack@.len() == n - i,
            forall|k: int| 0 <= k < n - i ==> txn_stack@[k] == txns0[n - 1 - k],
            forall|k: int| 0 <= k < n - i ==> effects_stack@[k] == effects0[n - 1 - k],
            !fork_among(fx_digests@, executed_fx_digests@, n as nat),
            rows@.len() == unexecuted_indices(executed_fx_digests@, i as nat).len(),
            forall|k: int|
                0 <= k < rows@.len() ==> {
                    let j = unexecuted_indices(executed_fx_digests@, i as nat)[k];
                    #[trigger] rows@[k] == (tx_digests@[j], (txns0[j], fx_digests@[j]), effects0[j])
                },
        decreases n - i,
    {
        let txn = txn_stack.pop().unwrap();
        let eff = effects_stack.pop().unwrap();
        let tx_digest: TransactionDigest = tx_digests[i];
        let expected: TransactionEffectsDigest = fx_digests[i];
        proof {
            assert(unexecuted_indices(executed_fx_digests@, (i + 1) as nat)
                == if executed_fx_digests@[i as int] is None {
                    unexecuted_indices(executed_fx_digests@, i as nat).push(i as int)
                } else {
                    unexecuted_indices(executed_fx_digests@, i as nat)
                });
        }
        match &executed_fx_digests[i] {
            Some(actual) => {
                assert(!forked_at(fx_digests@, executed_fx_digests@, i as int)) by {
                    assert(!(0 <= i < n && forked_at(fx_digests@, executed_fx_digests@, i as int)));
                }
                assert_not_forked(checkpoint, &tx_digest, &expected, actual);
            },
            None => {
                rows.push((tx_digest, (txn, expected), eff));
            },
        }
        i = i + 1;
    }
    let (unexecuted_tx_digests, unexecuted_txns, unexecuted_effects) = unzip3(rows);
    UnexecutedTransactions {
        tx_digests: unexecuted_tx_digests,
        txns: unexecuted_txns,
        effects: unexecuted_effects,
    }
}

} // verus!
