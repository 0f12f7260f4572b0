//! Splitting a sequence of triples into three sequences.
use vstd::prelude::*;

verus! {

/// Calls `itertools::multiunzip` on a vector of triples. The contract claims
/// what its source shows: each output collection starts empty (`Default`) and
/// is extended with one element per input triple, in input order, so each
/// output vector is the matching column of the input.
#[verifier::external_body]
pub(crate) fn unzip3<A, B, C>(items: Vec<(A, B, C)>) -> (r: (Vec<A>, Vec<B>, Vec<C>))
    ensures
        r.0@.len() == items@.len(),
        r.1@.len() == items@.len(),
        r.2@.len() == items@.len(),
        forall|i: int| 0 <= i < items@.len() ==> r.0@[i] == items@[i].0,
        forall|i: int| 0 <= i < items@.len() ==> r.1@[i] == items@[i].1,
        forall|i: int| 0 <= i < items@.len() ==> r.2@[i] == items@[i].2,
{
    itertools::multiunzip::<(Vec<A>, Vec<B>, Vec<C>), _>(items)
}

} // verus!
