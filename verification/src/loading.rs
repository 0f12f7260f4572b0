//! Assembling what was loaded for a checkpoint: the digests its contents list,
//! and the transactions and effects fetched for them.
use vstd::prelude::*;

use crate::stack::into_stack;
use crate::types::{ExecutionDigests, TransactionDigest, TransactionEffectsDigest};

verus! {

/// The transactions of a checkpoint as loaded for execution, in checkpoint
/// order.
pub struct LoadedTransactions<Tx, Fx> {
    pub tx_digests: Vec<TransactionDigest>,
    pub fx_digests: Vec<TransactionEffectsDigest>,
    pub txns: Vec<Tx>,
    pub effects: Vec<Fx>,
}

/// The transaction digests a checkpoint's contents list, in order.
pub open spec fn transaction_digests(digests: Seq<ExecutionDigests>) -> Seq<TransactionDigest> {
    digests.map_values(|d: ExecutionDigests| d.transaction)
}

/// The effects digests a checkpoint's contents list, in order.
pub open spec fn effects_digests(digests: Seq<ExecutionDigests>) -> Seq<TransactionEffectsDigest> {
    digests.map_values(|d: ExecutionDigests| d.effects)
}

/// The items of a sequence of present items.
pub open spec fn unwrap_all<T>(items: Seq<Option<T>>) -> Seq<T> {
    items.map_values(|o: Option<T>| o->Some_0)
}

/// What loading a checkpoint in bulk gives: its listed digests paired with
/// its full contents, up to the shorter of the two.
pub open spec fn bulk_loaded<Tx, Fx>(full_contents: Seq<(Tx, Fx)>, digests: Seq<ExecutionDigests>) -> (
    Seq<TransactionDigest>,
    Seq<TransactionEffectsDigest>,
    Seq<Tx>,
    Seq<Fx>,
) {
    let n = if full_contents.len() <= digests.len() {
        full_contents.len()
    } else {
        digests.len()
    };
    let d = digests.take(n as int);
    let f = full_contents.take(n as int);
    (
        transaction_digests(d),
        effects_digests(d),
        f.map_values(|p: (Tx, Fx)| p.0),
        f.map_values(|p: (Tx, Fx)| p.1),
    )
}

/// What loading a checkpoint one transaction at a time gives: its listed
/// digests, and the transactions and effects fetched for them.
pub open spec fn loaded_one_by_one<Tx, Fx>(
    digests: Seq<ExecutionDigests>,
    txns: Seq<Option<Tx>>,
    effects: Seq<Option<Fx>>,
) -> (Seq<TransactionDigest>, Seq<TransactionEffectsDigest>, Seq<Tx>, Seq<Fx>) {
    (transaction_digests(digests), effects_digests(digests), unwrap_all(txns), unwrap_all(effects))
}

/// Splits the digests of a checkpoint's contents into the transaction digests
/// and the effects digests, keeping their order.
pub fn split_execution_digests(digests: &Vec<ExecutionDigests>) -> (r: (
    Vec<TransactionDigest>,
    Vec<TransactionEffectsDigest>,
))
    ensures
        r.0@.len() == digests@.len(),
        r.1@.len() == digests@.len(),
        forall|i: int| 0 <= i < digests@.len() ==> #[trigger] r.0@[i] == digests@[i].transaction,
        forall|i: int| 0 <= i < digests@.len() ==> #[trigger] r.1@[i] == digests@[i].effects,
        r.0@ == transaction_digests(digests@),
        r.1@ == effects_digests(digests@),
{
    let mut tx_digests: Vec<TransactionDigest> = Vec::new();
    let mut fx_digests: Vec<TransactionEffectsDigest> = Vec::new();
    let mut i: usize = 0;
    while i < digests.len()
        invariant
            i <= digests@.len(),
            tx_digests@.len() == i,
            fx_digests@.len() == i,
            forall|k: int| 0 <= k < i ==> #[trigger] tx_digests@[k] == digests@[k].transaction,
            forall|k: int| 0 <= k < i ==> #[trigger] fx_digests@[k] == digests@[k].effects,
        decreases digests@.len() - i,
    {
        let d: ExecutionDigests = digests[i];
        tx_digests.push(d.transaction);
        fx_digests.push(d.effects);
        i = i + 1;
    }
    assert(tx_digests@ =~= transaction_digests(digests@));
    assert(fx_digests@ =~= effects_digests(digests@));
    (tx_digests, fx_digests)
}

/// Pairs the full contents of a checkpoint (each transaction with its effects)
/// with the digests its contents list, position by position, up to the shorter
/// of the two.
pub fn assemble_full_contents<Tx, Fx>(
    full_contents: Vec<(Tx, Fx)>,
    digests: &Vec<ExecutionDigests>,
) -> (r: LoadedTransactions<Tx, Fx>)
    ensures
        ({
            let n = if full_contents@.len() <= digests@.len() {
                full_contents@.len()
            } else {
                digests@.len()
            };
            &&& r.tx_digests@.len() == n
            &&& r.fx_digests@.len() == n
            &&& r.txns@.len() == n
            &&& r.effects@.len() == n
            &&& forall|i: int| 0 <= i < n ==> #[trigger] r.tx_digests@[i] == digests@[i].transaction
            &&& forall|i: int| 0 <= i < n ==> #[trigger] r.fx_digests@[i] == digests@[i].effects
            &&& forall|i: int| 0 <= i < n ==> #[trigger] r.txns@[i] == full_contents@[i].0
            &&& forall|i: int| 0 <= i < n ==> #[trigger] r.effects@[i] == full_contents@[i].1
        }),
        (r.tx_digests@, r.fx_digests@, r.txns@, r.effects@) == bulk_loaded(full_contents@, digests@),
{
    let ghost full0 = full_contents@;
    let n: usize = if full_contents.len() <= digests.len() {
        full_contents.len()
    } else {
        digests.len()
    };
    let mut prefix = full_contents;
    prefix.truncate(n);
    let mut stack = into_stack(prefix);
    let mut tx_digests: Vec<TransactionDigest> = Vec::new();
    let mut fx_digests: Vec<TransactionEffectsDigest> = Vec::new();
    let mut txns: Vec<Tx> = Vec::new();
    let mut effects: Vec<Fx> = Vec::new();
    let mut i: usize = 0;
    while i < n
        invariant
            full0 == full_contents@,
            i <= n,
            n == (if full0.len() <= digests@.len() { full0.len() } else { digests@.len() }),
            n <= full0.len(),
            n <= digests@.len(),
            stack@.len() == n - i,
            forall|k: int| 0 <= k < n - i ==> stack@[k] == full0[n - 1 - k],
            tx_digests@.len() == i,
            fx_digests@.len() == i,
            txns@.len() == i,
            effects@.len() == i,
            forall|k: int| 0 <= k < i ==> #[trigger] tx_digests@[k] == digests@[k].transaction,
            forall|k: int| 0 <= k < i ==> #[trigger] fx_digests@[k] == digests@[k].effects,
            forall|k: int| 0 <= k < i ==> #[trigger] txns@[k] == full0[k].0,
            forall|k: int| 0 <= k < i ==> #[trigger] effects@[k] == full0[k].1,
        decreases n - i,
    {
        let (txn, eff) = stack.pop().unwrap();
        let d: ExecutionDigests = digests[i];
        tx_digests.push(d.transaction);
        txns.push(txn);
        effects.push(eff);
        fx_digests.push(d.effects);
        i = i + 1;
    }
    proof {
        let b = bulk_loaded(full0, digests@);
        assert(tx_digests@ =~= b.0);
        assert(fx_digests@ =~= b.1);
        assert(txns@ =~= b.2);
        assert(effects@ =~= b.3);
    }
    LoadedTransactions { tx_digests, fx_digests, txns, effects }
}

/// Whether every fetched item among the first `n` is present.
pub open spec fn all_present_before<T>(items: Seq<Option<T>>, n: int) -> bool {
    forall|i: int| 0 <= i < n ==> #[trigger] items[i] is Some
}

/// Looks through the results of fetching the transactions (or effects) a
/// checkpoint lists, and reports the position of the first one that is
/// missing locally, if any.
pub fn first_missing<T>(items: &Vec<Option<T>>) -> (r: Option<usize>)
    ensures
        r is None <==> all_present_before(items@, items@.len() as int),
        r is Some ==> {
            let i = r->Some_0 as int;
            &&& 0 <= i < items@.len()
            &&& items@[i] is None
            &&& all_present_before(items@, i)
        },
{
    let mut i: usize = 0;
    while i < items.len()
        invariant
            i <= items@.len(),
            all_present_before(items@, i as int),
        decreases items@.len() - i,
    {
        if items[i].is_none() {
            return Some(i);
        }
        i = i + 1;
    }
    None
}

/// Unwraps the results of fetching the transactions (or effects) a checkpoint
/// lists, all of which must exist locally (a missing one is fatal, and
/// `first_missing` reports it).
pub fn require_all_present<T>(items: Vec<Option<T>>) -> (r: Vec<T>)
    requires
        all_present_before(items@, items@.len() as int),
    ensures
        r@.len() == items@.len(),
        forall|i: int| 0 <= i < items@.len() ==> #[trigger] r@[i] == items@[i]->Some_0,
        r@ == unwrap_all(items@),
{
    let ghost items0 = items@;
    let n: usize = items.len();
    let mut stack = into_stack(items);
    let mut found: Vec<T> = Vec::new();
    let mut i: usize = 0;
    while i < n
        invariant
            items0 == items@,
            n == items0.len(),
            i <= n,
            all_present_before(items0, n as int),
            stack@.len() == n - i,
            forall|k: int| 0 <= k < n - i ==> stack@[k] == items0[n - 1 - k],
            found@.len() == i,
            forall|k: int| 0 <= k < i ==> #[trigger] found@[k] == items0[k]->Some_0,
        decreases n - i,
    {
        let item = stack.pop().unwrap();
        assert(items0[i as int] is Some);
        match item {
            Some(x) => {
                found.push(x);
            },
            None => {},
        }
        i = i + 1;
    }
    assert(found@ =~= unwrap_all(items0));
    found
}

/// Loading a checkpoint in bulk and loading it one transaction at a time
/// agree: where the full contents, the listed digests and the fetched
/// transactions and effects all describe the same transactions, both give
/// the same digests, transactions and effects, in the same order.
pub proof fn lemma_bulk_and_one_by_one_agree<Tx, Fx>(
    full_contents: Seq<(Tx, Fx)>,
    digests: Seq<ExecutionDigests>,
    txns: Seq<Option<Tx>>,
    effects: Seq<Option<Fx>>,
)
    requires
        full_contents.len() == digests.len(),
        txns.len() == digests.len(),
        effects.len() == digests.len(),
        forall|i: int| 0 <= i < digests.len() ==> #[trigger] txns[i] == Some(full_contents[i].0),
        forall|i: int| 0 <= i < digests.len() ==> #[trigger] effects[i] == Some(full_contents[i].1),
    ensures
        bulk_loaded(full_contents, digests) == loaded_one_by_one(digests, txns, effects),
{
    let b = bulk_loaded(full_contents, digests);
    let o = loaded_one_by_one(digests, txns, effects);
    assert(digests.take(digests.len() as int) =~= digests);
    assert(full_contents.take(digests.len() as int) =~= full_contents);
    assert(b.0 =~= o.0);
    assert(b.1 =~= o.1);
    assert forall|i: int| 0 <= i < digests.len() implies b.2[i] == o.2[i] by {
        assert(txns[i] == Some(full_contents[i].0));
    }
    assert forall|i: int| 0 <= i < digests.len() implies b.3[i] == o.3[i] by {
        assert(effects[i] == Some(full_contents[i].1));
    }
    assert(b.2 =~= o.2);
    assert(b.3 =~= o.3);
}

} // verus!
