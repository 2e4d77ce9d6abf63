//! Assembling a lease's outcomes into the batch that is submitted.
//!
//! The surrounding process runs one fetch task per leased item and hands
//! the joined outcomes here; a task that produced nothing is recorded as
//! the failure placeholder, so the batch always has one result per item.

use vstd::prelude::*;
use crate::model::{is_placeholder_for, placeholder, Lease, ResultItem, Submit};

verus! {

/// One collected result per leased item: the task's own outcome where it
/// produced one, the failure placeholder for its URL where it did not.
pub open spec fn collected(
    items: Seq<String>,
    outcomes: Seq<Option<ResultItem>>,
    rs: Seq<ResultItem>,
) -> bool {
    &&& rs.len() == items.len()
    &&& forall|i: int|
        0 <= i < rs.len() ==> match #[trigger] outcomes[i] {
            Some(it) => rs[i] == it,
            None => is_placeholder_for(rs[i], items[i]@),
        }
}

/// Every supplied outcome carries the URL of the item it stands for.
pub open spec fn outcomes_match_items(
    items: Seq<String>,
    outcomes: Seq<Option<ResultItem>>,
) -> bool {
    forall|i: int|
        0 <= i < outcomes.len() ==> (#[trigger] outcomes[i] matches Some(it) ==> it.url@
            == items[i]@)
}

/// Collects one result per leased item, synthesizing a placeholder for
/// every task that could not produce an outcome.
pub fn collect_results(items: &Vec<String>, outcomes: Vec<Option<ResultItem>>) -> (r: Vec<
    ResultItem,
>)
    requires
        outcomes@.len() == items@.len(),
    ensures
        r@.len() == items@.len(),
        collected(items@, outcomes@, r@),
{
    let ghost orig = outcomes@;
    let mut rest = outcomes;
    let mut r: Vec<ResultItem> = Vec::new();
    let mut i: usize = 0;
    proof {
        assert(rest@ =~= orig.skip(0));
    }
    while i < items.len()
        invariant
            orig.len() == items@.len(),
            i <= items@.len(),
            rest@ == orig.skip(i as int),
            r@.len() == i,
            forall|k: int|
                0 <= k < i ==> match #[trigger] orig[k] {
                    Some(it) => r@[k] == it,
                    None => is_placeholder_for(r@[k], items@[k]@),
                },
        decreases items@.len() - i,
    {
        let o = rest.remove(0);
        proof {
            assert(orig.skip(i as int).remove(0) =~= orig.skip(i as int + 1));
            assert(o == orig[i as int]);
        }
        match o {
            Some(it) => r.push(it),
            None => {
                let ph = placeholder(items[i].clone());
                r.push(ph);
            },
        }
        i = i + 1;
    }
    r
}

/// Packages a lease's outcomes as the batch to submit: exactly one result
/// per leased item, carrying that item's URL, tagged with the lease's id
/// and the worker's id.
pub fn build_batch(lease: &Lease, worker_id: &String, outcomes: Vec<Option<ResultItem>>) -> (b:
    Submit)
    requires
        outcomes@.len() == lease.items@.len(),
        outcomes_match_items(lease.items@, outcomes@),
    ensures
        b.lease_id == lease.lease_id,
        b.worker_id == *worker_id,
        b.items@.len() == lease.items@.len(),
        collected(lease.items@, outcomes@, b.items@),
        forall|i: int|
            0 <= i < b.items@.len() ==> (#[trigger] b.items@[i]).url@ == lease.items@[i]@,
{
    let ghost given = outcomes@;
    let rs = collect_results(&lease.items, outcomes);
    proof {
        assert forall|i: int| 0 <= i < rs@.len() implies (#[trigger] rs@[i]).url@
            == lease.items@[i]@ by {
            assert(given[i] is Some || given[i] is None);
        }
    }
    Submit { lease_id: lease.lease_id.clone(), worker_id: worker_id.clone(), items: rs }
}

} // verus!
