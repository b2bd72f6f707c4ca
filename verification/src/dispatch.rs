//! The worker run against the store in memory.
//!
//! A cycle is what the worker does between two looks at the queue. The
//! functions here run the worker's state machine to the end of a cycle,
//! performing each action on the store and answering each downstream call as
//! the cycle's description says, and state in one formula what the cycle has
//! done to the store.

use crate::gateway::{classify, classify_spec, settles_spec, Reply, Service};
use crate::payment::Payment;
use crate::store::{Store, StoreView};
use crate::worker::{
    action_spec, step_spec, Action, ActionView, DropReason, Event, EventView, SettleStage,
    StateView, WorkerState,
};
use vstd::prelude::*;

verus! {

/// What the world outside the store answers during one cycle.
#[derive(Clone, Copy, Debug, PartialEq, Eq, Structural)]
pub struct Cycle {
    /// What the entry under dispatch decodes to; `None` where it cannot be
    /// read as a payment.
    pub decoded: Option<Payment>,
    /// The reply of the primary service, should it be called.
    pub primary: Reply,
    /// The reply of the fallback service, should it be called.
    pub fallback: Reply,
}

/// What becomes of an entry that is dispatched.
pub enum Fate {
    /// The entry is given up for good.
    Dropped { reason: DropReason },
    /// `service` took the payment.
    Settled { service: Service, payment: Payment },
    /// Both services failed.
    Requeued,
}

/// What becomes of the entry dispatched in `cycle`.
///
/// An entry that does not decode is dropped, and so is a payment whose
/// amount is not above zero or whose timestamp has no text. Otherwise the
/// first service whose reply settles the payment takes it, the primary
/// before the fallback, and if neither does the entry is requeued.
pub open spec fn fate_spec(cycle: Cycle) -> Fate {
    match cycle.decoded {
        None => Fate::Dropped { reason: DropReason::Malformed },
        Some(payment) => if payment.amount <= 0 {
            Fate::Dropped { reason: DropReason::InvalidAmount }
        } else if !payment.timestamp.has_text() {
            Fate::Dropped { reason: DropReason::Malformed }
        } else if settles_spec(classify_spec(cycle.primary)) {
            Fate::Settled { service: Service::Default, payment }
        } else if settles_spec(classify_spec(cycle.fallback)) {
            Fate::Settled { service: Service::Fallback, payment }
        } else {
            Fate::Requeued
        },
    }
}

/// The store after the entry `raw`, already off the queue, is dispatched in
/// `cycle`.
///
/// A settled payment gets its record, under its correlation id and with the
/// entry's own text, and is counted for the service that took it. A requeued
/// entry is appended to the queue unchanged. A dropped entry leaves no
/// trace. While the store is out of reach nothing is written.
pub open spec fn process_spec(store: StoreView, raw: Seq<char>, cycle: Cycle) -> StoreView {
    if !store.available {
        store
    } else {
        match fate_spec(cycle) {
            Fate::Dropped { .. } => store,
            Fate::Settled { service, payment } => store.recorded(
                payment.correlation_id,
                raw,
            ).credited(service, payment.amount),
            Fate::Requeued => store.enqueued(raw),
        }
    }
}

/// The store after one cycle of the worker: the head of the queue is taken
/// off and dispatched. A store that is out of reach, or whose queue is
/// empty, stays as it is.
pub open spec fn cycle_spec(store: StoreView, cycle: Cycle) -> StoreView {
    if !store.available || store.queue.len() == 0 {
        store
    } else {
        process_spec(store.dequeued(), store.queue[0], cycle)
    }
}

/// The store after the worker has run one cycle for each element of
/// `script`, in order.
pub open spec fn run_spec(store: StoreView, script: Seq<Cycle>) -> StoreView
    decreases script.len(),
{
    if script.len() == 0 {
        store
    } else {
        cycle_spec(run_spec(store, script.drop_last()), script.last())
    }
}

/// The store after `action` is performed on it, and the event that reports
/// on the action.
pub open spec fn perform_spec(store: StoreView, action: ActionView, cycle: Cycle) -> (
    StoreView,
    EventView,
) {
    match action {
        ActionView::Dequeue => if !store.available {
            (store, EventView::StoreFailed)
        } else if store.queue.len() == 0 {
            (store, EventView::Popped { entry: None })
        } else {
            (store.dequeued(), EventView::Popped { entry: Some(store.queue[0]) })
        },
        ActionView::Sleep { .. } => (store, EventView::Done),
        ActionView::Decode { .. } => (store, EventView::Decoded { payment: cycle.decoded }),
        ActionView::Attempt { service, .. } => (
            store,
            EventView::Attempted {
                outcome: classify_spec(
                    match service {
                        Service::Default => cycle.primary,
                        Service::Fallback => cycle.fallback,
                    },
                ),
            },
        ),
        ActionView::WriteRecord { correlation_id, payload } => if store.available {
            (store.recorded(correlation_id, payload), EventView::Done)
        } else {
            (store, EventView::StoreFailed)
        },
        ActionView::IncrementRequests { service } => if store.available {
            (store.requests_incremented(service), EventView::Done)
        } else {
            (store, EventView::StoreFailed)
        },
        ActionView::ReadAmount { service } => if store.available {
            (store, EventView::AmountRead { total: Some(store.counters(service).total_amount) })
        } else {
            (store, EventView::StoreFailed)
        },
        ActionView::WriteAmount { service, total } => if store.available {
            (store.amount_written(service, total), EventView::Done)
        } else {
            (store, EventView::StoreFailed)
        },
        ActionView::Requeue { raw } => if store.available {
            (store.enqueued(raw), EventView::Done)
        } else {
            (store, EventView::StoreFailed)
        },
        ActionView::Discard { .. } => (store, EventView::Done),
    }
}

/// An upper bound on the actions that are left before the worker is back
/// between entries.
pub open spec fn rank(state: StateView) -> nat {
    match state {
        StateView::Polling => 0,
        StateView::Backoff { .. } => 1,
        StateView::Dropped { .. } => 1,
        StateView::Requeued { .. } => 1,
        StateView::Settled { stage: SettleStage::WriteAmount { .. }, .. } => 1,
        StateView::Settled { stage: SettleStage::ReadAmount, .. } => 2,
        StateView::Settled { stage: SettleStage::CountRequest, .. } => 3,
        StateView::Settled { stage: SettleStage::Record, .. } => 4,
        StateView::TryFallback { .. } => 5,
        StateView::TryPrimary { .. } => 6,
        StateView::Dequeued { .. } => 7,
    }
}

/// The state and the store after the action of `state` is performed and
/// reported.
pub open spec fn advance_spec(state: StateView, store: StoreView, cycle: Cycle) -> (
    StateView,
    StoreView,
) {
    let (after, event) = perform_spec(store, action_spec(state), cycle);
    (step_spec(state, event), after)
}

/// The store at the end of the cycle in which the worker stands in `state`.
pub open spec fn finish_spec(state: StateView, store: StoreView, cycle: Cycle) -> StoreView
    decreases rank(state),
{
    if state == StateView::Polling {
        store
    } else {
        let (next, after) = advance_spec(state, store, cycle);
        if rank(next) < rank(state) {
            finish_spec(next, after, cycle)
        } else {
            after
        }
    }
}

/// Every action of a worker that is not between entries brings it nearer to
/// the end of the cycle.
pub proof fn lemma_advance_descends(state: StateView, store: StoreView, cycle: Cycle)
    requires
        state != StateView::Polling,
    ensures
        rank(advance_spec(state, store, cycle).0) < rank(state),
{
}

/// Dispatching an entry through the state machine does to the store what
/// `process_spec` says.
pub proof fn lemma_finish_dequeued(store: StoreView, raw: Seq<char>, cycle: Cycle)
    ensures
        finish_spec(StateView::Dequeued { raw }, store, cycle) == process_spec(store, raw, cycle),
{
    reveal_with_fuel(finish_spec, 8);
}

/// A whole cycle through the state machine does to the store what
/// `cycle_spec` says.
pub proof fn lemma_finish_cycle(store: StoreView, cycle: Cycle)
    ensures
        ({
            let (first, after) = advance_spec(StateView::Polling, store, cycle);
            finish_spec(first, after, cycle)
        }) == cycle_spec(store, cycle),
{
    reveal_with_fuel(finish_spec, 2);
    if store.available && store.queue.len() > 0 {
        lemma_finish_dequeued(store.dequeued(), store.queue[0], cycle);
    }
}

/// Performs `action` on the store and reports what happened. The decoder
/// and the two services are played by `cycle`.
pub fn perform(store: &mut Store, action: Action, cycle: &Cycle) -> (event: Event)
    ensures
        (final(store)@, event@) == perform_spec(old(store)@, action@, *cycle),
{
    match action {
        Action::Dequeue => match store.dequeue() {
            Ok(entry) => Event::Popped { entry },
            Err(_) => Event::StoreFailed,
        },
        Action::Sleep { .. } => Event::Done,
        Action::Decode { .. } => Event::Decoded { payment: cycle.decoded },
        Action::Attempt { service, .. } => {
            let reply = match service {
                Service::Default => cycle.primary,
                Service::Fallback => cycle.fallback,
            };
            Event::Attempted { outcome: classify(reply) }
        },
        Action::WriteRecord { correlation_id, payload } => match store.record_settlement(
            correlation_id,
            payload,
        ) {
            Ok(()) => Event::Done,
            Err(_) => Event::StoreFailed,
        },
        Action::IncrementRequests { service } => match store.increment_requests(service) {
            Ok(()) => Event::Done,
            Err(_) => Event::StoreFailed,
        },
        Action::ReadAmount { service } => match store.read_amount(service) {
            Ok(total) => Event::AmountRead { total: Some(total) },
            Err(_) => Event::StoreFailed,
        },
        Action::WriteAmount { service, total } => match store.write_amount(service, total) {
            Ok(()) => Event::Done,
            Err(_) => Event::StoreFailed,
        },
        Action::Requeue { raw } => match store.enqueue(raw) {
            Ok(()) => Event::Done,
            Err(_) => Event::StoreFailed,
        },
        Action::Discard { .. } => Event::Done,
    }
}

/// Runs the worker from `state` to the end of its cycle.
fn drive(store: &mut Store, state: WorkerState, cycle: &Cycle)
    ensures
        final(store)@ == finish_spec(state@, old(store)@, *cycle),
{
    let mut worker = state;
    while !worker.is_polling()
        invariant
            finish_spec(worker@, store@, *cycle) == finish_spec(state@, old(store)@, *cycle),
        decreases rank(worker@),
    {
        proof {
            lemma_advance_descends(worker@, store@, *cycle);
        }
        let action = worker.action();
        let event = perform(store, action, cycle);
        worker = worker.step(event);
    }
}

/// Dispatches one entry that has come off the queue: decodes it, checks the
/// amount, tries the primary service and then the fallback, and records the
/// settlement or puts the entry back at the end of the queue.
pub fn process_single_payment(store: &mut Store, raw: String, cycle: &Cycle)
    ensures
        final(store)@ == process_spec(old(store)@, raw@, *cycle),
{
    proof {
        lemma_finish_dequeued(store@, raw@, *cycle);
    }
    drive(store, WorkerState::Dequeued { raw }, cycle)
}

/// Runs one cycle of the worker: takes the head of the queue, if there is
/// one, and dispatches it.
pub fn run_cycle(store: &mut Store, cycle: &Cycle)
    ensures
        final(store)@ == cycle_spec(old(store)@, *cycle),
{
    proof {
        lemma_finish_cycle(store@, *cycle);
    }
    let worker = WorkerState::new();
    let action = worker.action();
    let event = perform(store, action, cycle);
    drive(store, worker.step(event), cycle)
}

/// Runs the worker for as many cycles as `script` describes, one after the
/// other.
pub fn new_payments_worker(store: &mut Store, script: &Vec<Cycle>)
    ensures
        final(store)@ == run_spec(old(store)@, script@),
{
    let mut done: usize = 0;
    while done < script.len()
        invariant
            done <= script.len(),
            store@ == run_spec(old(store)@, script@.take(done as int)),
        decreases script.len() - done,
    {
        proof {
            let next = script@.take(done + 1);
            assert(next.drop_last() =~= script@.take(done as int));
            assert(next.last() == script@[done as int]);
        }
        run_cycle(store, &script[done]);
        done = done + 1;
    }
    proof {
        assert(script@.take(done as int) =~= script@);
    }
}

} // verus!
