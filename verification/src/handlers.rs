//! The three requests that the service answers, carried out on the store in
//! memory, and the status with which each is answered.

use crate::gateway::Service;
use crate::store::{ServiceCounters, Store, StoreUnavailable, StoreView};
use crate::summary::{
    summary_response, summary_spec, SummaryQuery, SummaryResponse, STATUS_ACCEPTED,
    STATUS_INTERNAL_SERVER_ERROR, STATUS_OK,
};
use vstd::prelude::*;

verus! {

/// The status that answers a submission, given what became of the append to
/// the queue.
pub open spec fn intake_status_spec(appended: Result<(), StoreUnavailable>) -> u16 {
    match appended {
        Ok(_) => STATUS_ACCEPTED,
        Err(_) => STATUS_INTERNAL_SERVER_ERROR,
    }
}

/// The status that answers a purge, given what became of the clearing.
pub open spec fn purge_status_spec(cleared: Result<(), StoreUnavailable>) -> u16 {
    match cleared {
        Ok(_) => STATUS_OK,
        Err(_) => STATUS_INTERNAL_SERVER_ERROR,
    }
}

/// What a store answers when asked for the totals of `service`.
pub open spec fn read_summary_spec(store: StoreView, service: Service) -> Result<
    ServiceCounters,
    StoreUnavailable,
> {
    if store.available {
        Ok(store.counters(service))
    } else {
        Err(StoreUnavailable)
    }
}

/// The status that answers a submission: accepted where the entry was
/// appended, a server error where the store was out of reach.
pub fn intake_status(appended: Result<(), StoreUnavailable>) -> (status: u16)
    ensures
        status == intake_status_spec(appended),
{
    match appended {
        Ok(_) => STATUS_ACCEPTED,
        Err(_) => STATUS_INTERNAL_SERVER_ERROR,
    }
}

/// The status that answers a purge: ok where everything was cleared, a
/// server error where the store was out of reach.
pub fn purge_status(cleared: Result<(), StoreUnavailable>) -> (status: u16)
    ensures
        status == purge_status_spec(cleared),
{
    match cleared {
        Ok(_) => STATUS_OK,
        Err(_) => STATUS_INTERNAL_SERVER_ERROR,
    }
}

/// Takes in a payment: appends its serialized form to the end of the queue
/// and answers at once, without waiting for any settlement. The amount is
/// not looked at here.
pub fn save_payment(store: &mut Store, entry: String) -> (status: u16)
    ensures
        status == (if old(store)@.available {
            STATUS_ACCEPTED
        } else {
            STATUS_INTERNAL_SERVER_ERROR
        }),
        final(store)@ == (if old(store)@.available {
            old(store)@.enqueued(entry@)
        } else {
            old(store)@
        }),
{
    let appended = store.enqueue(entry);
    intake_status(appended)
}

/// Clears the queue, the settled records and the counters of both services.
pub fn purge_payments(store: &mut Store) -> (status: u16)
    ensures
        status == (if old(store)@.available {
            STATUS_OK
        } else {
            STATUS_INTERNAL_SERVER_ERROR
        }),
        final(store)@ == (if old(store)@.available {
            old(store)@.purged()
        } else {
            old(store)@
        }),
{
    let cleared = store.purge();
    purge_status(cleared)
}

/// Answers a summary query with the totals of both services as the store
/// holds them. The range of the query must be readable, and is otherwise
/// without effect on the totals.
pub fn get_summary(store: &Store, params: &SummaryQuery) -> (response: Result<
    SummaryResponse,
    u16,
>)
    ensures
        response == summary_spec(
            params.range(),
            read_summary_spec(store@, Service::Default),
            read_summary_spec(store@, Service::Fallback),
        ),
{
    let range = params.validate();
    let default = store.read_summary(Service::Default);
    let fallback = store.read_summary(Service::Fallback);
    summary_response(range, default, fallback)
}

} // verus!
