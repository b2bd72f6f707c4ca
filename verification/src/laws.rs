//! What holds of every run of the worker against the store.

use crate::dispatch::{cycle_spec, fate_spec, process_spec, run_spec, Cycle, Fate};
use crate::gateway::{
    classify_spec, is_success_status, settles_spec, Outcome, Reply, Service,
    ATTEMPT_TIMEOUT_SECS, STATUS_DUPLICATE,
};
use crate::handlers::intake_status_spec;
use crate::payment::Payment;
use crate::store::{zero_counters, StoreView};
use crate::summary::STATUS_ACCEPTED;
use crate::worker::{
    action_spec, step_spec, ActionView, EventView, InFlightView, SettleStage, StateView,
};
use vstd::prelude::*;

verus! {

/// Whether both services take whatever is offered to them in `cycle`.
pub open spec fn both_accept(cycle: Cycle) -> bool {
    settles_spec(classify_spec(cycle.primary)) && settles_spec(classify_spec(cycle.fallback))
}

/// Whether both services fail in `cycle`.
pub open spec fn both_fail(cycle: Cycle) -> bool {
    !settles_spec(classify_spec(cycle.primary)) && !settles_spec(classify_spec(cycle.fallback))
}

/// A payment with an amount above zero, dispatched while both services
/// accept, is settled in that cycle: its record exists under its correlation
/// id and holds the entry as it was queued, the primary service has one more
/// request and exactly the payment's amount more, and the fallback service's
/// totals are untouched. The counters are taken to be below the end of
/// their range.
pub proof fn law_accepted_payment_is_settled(store: StoreView, cycle: Cycle, payment: Payment)
    requires
        store.available,
        store.queue.len() > 0,
        cycle.decoded == Some(payment),
        payment.amount > 0,
        payment.timestamp.has_text(),
        both_accept(cycle),
        store.default_counters.total_requests < u32::MAX,
        store.default_counters.total_amount + payment.amount <= i64::MAX,
    ensures
        ({
            let after = cycle_spec(store, cycle);
            &&& after.records.contains_key(payment.correlation_id)
            &&& after.records[payment.correlation_id] == store.queue[0]
            &&& after.default_counters.total_requests == store.default_counters.total_requests + 1
            &&& after.default_counters.total_amount == store.default_counters.total_amount
                + payment.amount
            &&& after.fallback_counters == store.fallback_counters
        }),
{
}

/// A payment with an amount above zero that the primary service refuses and
/// the fallback service accepts is settled by the fallback service alone.
pub proof fn law_fallback_takes_over(store: StoreView, cycle: Cycle, payment: Payment)
    requires
        store.available,
        store.queue.len() > 0,
        cycle.decoded == Some(payment),
        payment.amount > 0,
        payment.timestamp.has_text(),
        !settles_spec(classify_spec(cycle.primary)),
        settles_spec(classify_spec(cycle.fallback)),
        store.fallback_counters.total_requests < u32::MAX,
        store.fallback_counters.total_amount + payment.amount <= i64::MAX,
    ensures
        ({
            let after = cycle_spec(store, cycle);
            &&& after.records.contains_key(payment.correlation_id)
            &&& after.records[payment.correlation_id] == store.queue[0]
            &&& after.fallback_counters.total_requests == store.fallback_counters.total_requests
                + 1
            &&& after.fallback_counters.total_amount == store.fallback_counters.total_amount
                + payment.amount
            &&& after.default_counters == store.default_counters
        }),
{
}

/// While both services accept, every cycle takes one entry off the queue for
/// good: after as many cycles as `script` has, no more than the queue has
/// entries, the queue is what it was without its first entries, and the
/// store is still within reach.
pub proof fn lemma_accepting_run_consumes(store: StoreView, script: Seq<Cycle>)
    requires
        store.available,
        script.len() <= store.queue.len(),
        forall|i: int| 0 <= i < script.len() ==> both_accept(#[trigger] script[i]),
    ensures
        run_spec(store, script).available,
        run_spec(store, script).queue == store.queue.skip(script.len() as int),
    decreases script.len(),
{
    if script.len() == 0 {
        assert(store.queue.skip(0) =~= store.queue);
    } else {
        let earlier = script.drop_last();
        assert forall|i: int| 0 <= i < earlier.len() implies both_accept(#[trigger] earlier[i]) by {
            assert(earlier[i] == script[i]);
        }
        lemma_accepting_run_consumes(store, earlier);
        let before = run_spec(store, earlier);
        assert(both_accept(script[script.len() - 1]));
        assert(before.queue.drop_first() =~= store.queue.skip(script.len() as int));
    }
}

/// A payment with an amount above zero is settled in the end, wherever in
/// the queue its entry stands, if both services accept all the while: the
/// entry at position `k` is dispatched in cycle `k`, and after that cycle
/// its record exists and the primary service has one more request and
/// exactly the payment's amount more than before that cycle.
pub proof fn law_queued_payment_is_settled(
    store: StoreView,
    script: Seq<Cycle>,
    k: int,
    payment: Payment,
)
    requires
        store.available,
        0 <= k < store.queue.len(),
        script.len() == k + 1,
        forall|i: int| 0 <= i < script.len() ==> both_accept(#[trigger] script[i]),
        script[k].decoded == Some(payment),
        payment.amount > 0,
        payment.timestamp.has_text(),
    ensures
        ({
            let before = run_spec(store, script.drop_last());
            let after = run_spec(store, script);
            &&& after.records.contains_key(payment.correlation_id)
            &&& after.records[payment.correlation_id] == store.queue[k]
            &&& after.fallback_counters == before.fallback_counters
            &&& before.default_counters.total_requests < u32::MAX
                ==> after.default_counters.total_requests == before.default_counters.total_requests
                + 1
            &&& before.default_counters.total_amount + payment.amount <= i64::MAX
                ==> after.default_counters.total_amount == before.default_counters.total_amount
                + payment.amount
        }),
{
    let earlier = script.drop_last();
    assert forall|i: int| 0 <= i < earlier.len() implies both_accept(#[trigger] earlier[i]) by {
        assert(earlier[i] == script[i]);
    }
    lemma_accepting_run_consumes(store, earlier);
    assert(both_accept(script[k]));
}

/// The report that a payment was settled before counts as much as a fresh
/// acceptance: a worker that hears the duplicate status moves exactly as one
/// that hears a success status, and a cycle in which a service answers with
/// the one leaves the store as a cycle in which it answers with the other.
pub proof fn law_duplicate_counts_as_success(
    state: StateView,
    store: StoreView,
    cycle: Cycle,
    code: u16,
)
    requires
        is_success_status(code),
    ensures
        settles_spec(classify_spec(Reply::Status(STATUS_DUPLICATE))),
        settles_spec(classify_spec(Reply::Status(code))),
        step_spec(
            state,
            EventView::Attempted { outcome: classify_spec(Reply::Status(STATUS_DUPLICATE)) },
        ) == step_spec(state, EventView::Attempted { outcome: classify_spec(Reply::Status(code)) }),
        cycle_spec(store, Cycle { primary: Reply::Status(STATUS_DUPLICATE), ..cycle })
            == cycle_spec(store, Cycle { primary: Reply::Status(code), ..cycle }),
        cycle_spec(store, Cycle { fallback: Reply::Status(STATUS_DUPLICATE), ..cycle })
            == cycle_spec(store, Cycle { fallback: Reply::Status(code), ..cycle }),
{
}

/// The request that goes downstream carries the payment's correlation id,
/// its amount, and the time at which the payment was taken in, and the
/// fallback service is sent the very request that the primary service got.
pub proof fn law_request_carries_intake_time(raw: Seq<char>, payment: Payment, failure: Outcome)
    requires
        payment.amount > 0,
        payment.timestamp.has_text(),
        !settles_spec(failure),
    ensures
        ({
            let request = payment.request_spec(payment.timestamp.text());
            let first = step_spec(
                StateView::Dequeued { raw },
                EventView::Decoded { payment: Some(payment) },
            );
            let second = step_spec(first, EventView::Attempted { outcome: failure });
            &&& first == StateView::TryPrimary { item: InFlightView { raw, request } }
            &&& action_spec(first) == ActionView::Attempt {
                service: Service::Default,
                request,
                timeout_secs: ATTEMPT_TIMEOUT_SECS,
            }
            &&& action_spec(second) == ActionView::Attempt {
                service: Service::Fallback,
                request,
                timeout_secs: ATTEMPT_TIMEOUT_SECS,
            }
        }),
{
}

/// Where both services fail, the entry goes back to the queue, behind all
/// that was queued in the meantime and with its text unchanged, so that the
/// queue is not empty after the cycle; no record is written and no counter
/// moves.
pub proof fn law_failed_payment_is_requeued(store: StoreView, cycle: Cycle, payment: Payment)
    requires
        store.available,
        store.queue.len() > 0,
        cycle.decoded == Some(payment),
        payment.amount > 0,
        payment.timestamp.has_text(),
        both_fail(cycle),
    ensures
        ({
            let after = cycle_spec(store, cycle);
            &&& after.queue == store.queue.drop_first().push(store.queue[0])
            &&& after.queue.len() > 0
            &&& after.queue.last() == store.queue[0]
            &&& after.records == store.records
            &&& after.default_counters == store.default_counters
            &&& after.fallback_counters == store.fallback_counters
        }),
{
}

/// An entry appended to the queue stands last, and every entry that was
/// queued before it keeps its place.
pub proof fn law_enqueue_keeps_order(store: StoreView, entry: Seq<char>)
    ensures
        store.enqueued(entry).queue.len() == store.queue.len() + 1,
        store.enqueued(entry).queue.last() == entry,
        forall|i: int|
            0 <= i < store.queue.len() ==> #[trigger] store.enqueued(entry).queue[i]
                == store.queue[i],
{
}

/// Taking the head off the queue removes it: every entry behind it moves up
/// by one place, so that whoever asks next gets the next entry and never the
/// same one.
pub proof fn law_dequeue_is_destructive(store: StoreView)
    requires
        store.queue.len() > 0,
    ensures
        store.dequeued().queue.len() == store.queue.len() - 1,
        forall|i: int|
            0 <= i < store.queue.len() - 1 ==> #[trigger] store.dequeued().queue[i]
                == store.queue[i + 1],
{
}

/// Writing a settled record is an upsert: written twice, it is the same as
/// written once, and a later payload for the same correlation id replaces
/// the earlier one.
pub proof fn law_record_settlement_is_idempotent(
    store: StoreView,
    correlation_id: u128,
    payload: Seq<char>,
    later: Seq<char>,
)
    ensures
        store.recorded(correlation_id, payload).recorded(correlation_id, payload)
            == store.recorded(correlation_id, payload),
        store.recorded(correlation_id, payload).recorded(correlation_id, later)
            == store.recorded(correlation_id, later),
{
    assert(store.records.insert(correlation_id, payload).insert(correlation_id, payload)
        =~= store.records.insert(correlation_id, payload));
    assert(store.records.insert(correlation_id, payload).insert(correlation_id, later)
        =~= store.records.insert(correlation_id, later));
}

/// The running amount that the worker writes after it has read one is the
/// amount read plus the payment's amount, and so not below the amount read,
/// as long as the payment's amount is above zero. The sum is taken to lie
/// within the counter's range.
pub proof fn law_written_amount_adds_to_read_amount(
    item: InFlightView,
    service: Service,
    total: i64,
)
    requires
        item.request.amount > 0,
        total + item.request.amount <= i64::MAX,
    ensures
        step_spec(
            StateView::Settled { item, service, stage: SettleStage::ReadAmount },
            EventView::AmountRead { total: Some(total) },
        ) == (StateView::Settled {
            item,
            service,
            stage: SettleStage::WriteAmount { total: (total + item.request.amount) as i64 },
        }),
{
}

/// Whether no total of `later` lies below the same total of `earlier`.
pub open spec fn counters_not_below(later: StoreView, earlier: StoreView) -> bool {
    &&& later.default_counters.total_requests >= earlier.default_counters.total_requests
    &&& later.default_counters.total_amount >= earlier.default_counters.total_amount
    &&& later.fallback_counters.total_requests >= earlier.fallback_counters.total_requests
    &&& later.fallback_counters.total_amount >= earlier.fallback_counters.total_amount
}

/// No cycle of the worker lowers a total, and neither does the dispatch of
/// a single entry or a submission.
pub proof fn law_counters_never_fall_in_a_cycle(store: StoreView, cycle: Cycle, entry: Seq<char>)
    ensures
        counters_not_below(cycle_spec(store, cycle), store),
        counters_not_below(process_spec(store, entry, cycle), store),
        counters_not_below(store.enqueued(entry), store),
{
}

/// However long the worker runs, no total ever falls.
pub proof fn law_counters_never_fall(store: StoreView, script: Seq<Cycle>)
    ensures
        counters_not_below(run_spec(store, script), store),
    decreases script.len(),
{
    if script.len() > 0 {
        law_counters_never_fall(store, script.drop_last());
        law_counters_never_fall_in_a_cycle(
            run_spec(store, script.drop_last()),
            script.last(),
            Seq::empty(),
        );
    }
}

/// After a purge the queue is empty, no settled record is left, and the
/// totals of both services are zero.
pub proof fn law_purge_clears_everything(store: StoreView)
    ensures
        store.purged().queue.len() == 0,
        store.purged().records.dom() == Set::<u128>::empty(),
        store.purged().default_counters == zero_counters(),
        store.purged().fallback_counters == zero_counters(),
        store.purged().available == store.available,
{
    assert(store.purged().records.dom() =~= Set::<u128>::empty());
}

/// A payment whose amount is not above zero is taken in like any other: its
/// entry is appended to the queue and the submission is answered as
/// accepted. Its dispatch leaves no trace: the entry leaves the queue for
/// good, no record is written and no counter moves, whatever the services
/// would have answered.
pub proof fn law_invalid_amount_leaves_no_trace(
    store: StoreView,
    entry: Seq<char>,
    cycle: Cycle,
    payment: Payment,
)
    requires
        cycle.decoded == Some(payment),
        payment.amount <= 0,
    ensures
        store.enqueued(entry).queue.last() == entry,
        intake_status_spec(Ok(())) == STATUS_ACCEPTED,
        fate_spec(cycle) is Dropped,
        process_spec(store, entry, cycle) == store,
        ({
            let after = cycle_spec(store, cycle);
            &&& after.records == store.records
            &&& after.default_counters == store.default_counters
            &&& after.fallback_counters == store.fallback_counters
            &&& store.available && store.queue.len() > 0 ==> after.queue
                == store.queue.drop_first()
        }),
{
}

} // verus!
