//! The worker loop as a state machine.
//!
//! The loop itself lives in the surrounding process, which performs each
//! returned action (a request, a wait, a batch of fetches, a submission)
//! and hands the following event back in. Every decision the loop takes
//! stands here.

use vstd::prelude::*;
use crate::batch::{build_batch, collected, outcomes_match_items};
use crate::model::{lease_empty, lease_is_empty, Lease, ResultItem, Submit};

verus! {

/// Delay after a failed lease request, in milliseconds.
pub const LEASE_FAIL_BACKOFF_MS: u64 = 500;

/// Delay after an empty lease, in milliseconds.
pub const EMPTY_LEASE_BACKOFF_MS: u64 = 200;

/// Pause after a batch has been submitted, in milliseconds.
pub const SUBMIT_PAUSE_MS: u64 = 50;

/// Default number of items requested per lease.
pub const DEFAULT_LEASE_ITEMS: u64 = 25;

/// Where the worker stands in its cycle.
pub enum WorkerState {
    Idle,
    Leasing,
    Fetching { lease: Lease },
    Submitting,
}

/// What the outside world reported back for the last action.
pub enum WorkerEvent {
    /// The idle wait has elapsed.
    Tick,
    /// The lease request could not complete or was refused.
    LeaseFailed,
    /// The lease request decoded to a lease (possibly the empty one).
    LeaseAcquired { lease: Lease },
    /// Every fetch task of the batch was joined; one outcome per item,
    /// `None` where the task produced nothing.
    BatchDone { outcomes: Vec<Option<ResultItem>> },
    /// The submission attempt finished, successfully or not.
    SubmitFinished,
}

/// What the surrounding process must do next.
pub enum WorkerAction {
    RequestLease,
    Backoff { millis: u64 },
    RunBatch { items: Vec<String> },
    SubmitBatch { batch: Submit },
}

/// The event each state can be handed: the response to the action that
/// entering the state asked for. A finished batch carries one outcome per
/// leased item, each produced outcome tagged with its item's URL.
pub open spec fn event_fits(state: WorkerState, event: WorkerEvent) -> bool {
    match state {
        WorkerState::Idle => event is Tick,
        WorkerState::Leasing => event is LeaseFailed || event is LeaseAcquired,
        WorkerState::Fetching { lease } => event matches WorkerEvent::BatchDone { outcomes }
            && outcomes@.len() == lease.items@.len() && outcomes_match_items(
            lease.items@,
            outcomes@,
        ),
        WorkerState::Submitting => event is SubmitFinished,
    }
}

/// Copies a list of URLs.
fn clone_items(items: &Vec<String>) -> (r: Vec<String>)
    ensures
        r@ =~= items@,
{
    let mut r: Vec<String> = Vec::new();
    let mut i: usize = 0;
    while i < items.len()
        invariant
            i <= items@.len(),
            r@ =~= items@.subrange(0, i as int),
        decreases items@.len() - i,
    {
        r.push(items[i].clone());
        proof {
            assert(r@ =~= items@.subrange(0, i as int + 1));
        }
        i = i + 1;
    }
    r
}

/// One transition of the worker loop.
///
/// An idle worker asks for a lease. A failed or empty lease sends the
/// worker back to idle after a backoff, with no batch run and nothing
/// submitted. A non-empty lease starts one batch over exactly its items.
/// A finished batch is always submitted, one result per leased item and
/// carrying that item's URL, tagged with the lease's id and this worker's
/// id. A finished submission
/// returns the worker to idle after a short pause, whatever its outcome.
pub fn step(state: WorkerState, event: WorkerEvent, worker_id: &String) -> (r: (
    WorkerState,
    WorkerAction,
))
    requires
        event_fits(state, event),
    ensures
        state is Idle ==> r.0 is Leasing && r.1 is RequestLease,
        state is Leasing && event is LeaseFailed ==> r.0 is Idle && (
        r.1 matches WorkerAction::Backoff { millis } && millis == LEASE_FAIL_BACKOFF_MS),
        state is Leasing ==> (event matches WorkerEvent::LeaseAcquired { lease }
            ==> (lease_is_empty(lease) ==> r.0 is Idle && (
            r.1 matches WorkerAction::Backoff { millis } && millis == EMPTY_LEASE_BACKOFF_MS))),
        state is Leasing ==> (event matches WorkerEvent::LeaseAcquired { lease } ==> (
        !lease_is_empty(lease) ==> (r.0 matches WorkerState::Fetching { lease: l } && l == lease)
            && (r.1 matches WorkerAction::RunBatch { items } && items@ =~= lease.items@))),
        state matches WorkerState::Fetching { lease } ==> (event matches WorkerEvent::BatchDone {
            outcomes,
        } ==> r.0 is Submitting && (r.1 matches WorkerAction::SubmitBatch { batch }
            && batch.lease_id == lease.lease_id && batch.worker_id == *worker_id
            && batch.items@.len() == lease.items@.len() && collected(
            lease.items@,
            outcomes@,
            batch.items@,
        ) && (forall|i: int|
            0 <= i < batch.items@.len() ==> (#[trigger] batch.items@[i]).url@
                == lease.items@[i]@))),
        state is Submitting ==> r.0 is Idle && (r.1 matches WorkerAction::Backoff { millis }
            && millis == SUBMIT_PAUSE_MS),
        state is Leasing && event is LeaseFailed ==> !(r.1 is RunBatch) && !(r.1 is SubmitBatch),
        state is Leasing ==> (event matches WorkerEvent::LeaseAcquired { lease } ==> (
        lease_is_empty(lease) ==> !(r.1 is RunBatch) && !(r.1 is SubmitBatch))),
{
    match (state, event) {
        (WorkerState::Idle, WorkerEvent::Tick) => (WorkerState::Leasing, WorkerAction::RequestLease),
        (WorkerState::Leasing, WorkerEvent::LeaseFailed) => (
            WorkerState::Idle,
            WorkerAction::Backoff { millis: LEASE_FAIL_BACKOFF_MS },
        ),
        (WorkerState::Leasing, WorkerEvent::LeaseAcquired { lease }) => {
            if lease_empty(&lease) {
                (WorkerState::Idle, WorkerAction::Backoff { millis: EMPTY_LEASE_BACKOFF_MS })
            } else {
                let items = clone_items(&lease.items);
                (WorkerState::Fetching { lease }, WorkerAction::RunBatch { items })
            }
        },
        (WorkerState::Fetching { lease }, WorkerEvent::BatchDone { outcomes }) => {
            let batch = build_batch(&lease, worker_id, outcomes);
            (WorkerState::Submitting, WorkerAction::SubmitBatch { batch })
        },
        (WorkerState::Submitting, WorkerEvent::SubmitFinished) => (
            WorkerState::Idle,
            WorkerAction::Backoff { millis: SUBMIT_PAUSE_MS },
        ),
        _ => {
            proof {
                assert(false);
            }
            (WorkerState::Idle, WorkerAction::RequestLease)
        },
    }
}

} // verus!
