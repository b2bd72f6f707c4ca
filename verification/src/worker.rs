//! The dispatch worker as a state machine.
//!
//! The worker never touches the store or the network itself. In each state it
//! names one action; whoever runs the worker performs that action and hands
//! back what happened as an event, and the worker moves to its next state.
//! An entry goes `Dequeued`, `TryPrimary`, then either `Settled` for the
//! primary service or `TryFallback`, and from there either `Settled` for the
//! fallback service or `Requeued`. An entry that cannot be read, or whose
//! amount is not above zero, is `Dropped` and never comes back.

use crate::gateway::{settles_spec, Outcome, Service, ATTEMPT_TIMEOUT_SECS};
use crate::instant::{chrono_to_rfc3339, rfc3339_text};
use crate::payment::{DownstreamRequest, Payment, RequestView};
use vstd::prelude::*;

verus! {

/// Milliseconds to wait before asking again after the queue was found empty.
pub const EMPTY_BACKOFF_MILLIS: u64 = 500;

/// Milliseconds to wait before asking again after the store could not be
/// reached.
pub const STORE_BACKOFF_MILLIS: u64 = 1000;

/// Why an entry was taken out of circulation.
#[derive(Clone, Copy, Debug, PartialEq, Eq, Structural)]
pub enum DropReason {
    /// The entry could not be read as a payment.
    Malformed,
    /// The payment's amount is not above zero.
    InvalidAmount,
}

/// How far the bookkeeping of a settled payment has come.
#[derive(Clone, Copy, Debug, PartialEq, Eq, Structural)]
pub enum SettleStage {
    /// The settled record is to be written.
    Record,
    /// The service's request count is to be raised by one.
    CountRequest,
    /// The service's running amount is to be read.
    ReadAmount,
    /// The service's running amount is to be set to `total`.
    WriteAmount { total: i64 },
}

/// An entry under dispatch: the text as it came off the queue, and the
/// request made from it.
#[derive(Clone, Debug, PartialEq, Eq)]
pub struct InFlight {
    pub raw: String,
    pub request: DownstreamRequest,
}

/// An entry under dispatch, with its text as sequences of characters.
pub struct InFlightView {
    pub raw: Seq<char>,
    pub request: RequestView,
}

impl View for InFlight {
    type V = InFlightView;

    open spec fn view(&self) -> InFlightView {
        InFlightView { raw: self.raw@, request: self.request@ }
    }
}

/// The state of a dispatch worker.
#[derive(Clone, Debug, PartialEq, Eq)]
pub enum WorkerState {
    /// Between entries: the queue is to be asked for its head.
    Polling,
    /// Waiting before the queue is asked again.
    Backoff { millis: u64 },
    /// An entry has come off the queue and is to be decoded.
    Dequeued { raw: String },
    /// The primary service is to be tried.
    TryPrimary { item: InFlight },
    /// The primary service failed; the fallback service is to be tried.
    TryFallback { item: InFlight },
    /// `service` took the payment; the bookkeeping is at `stage`.
    Settled { item: InFlight, service: Service, stage: SettleStage },
    /// Both services failed; the entry is to go back to the end of the queue.
    Requeued { raw: String },
    /// The entry is given up for good.
    Dropped { reason: DropReason },
}

/// A worker state, with its text as sequences of characters.
pub enum StateView {
    Polling,
    Backoff { millis: u64 },
    Dequeued { raw: Seq<char> },
    TryPrimary { item: InFlightView },
    TryFallback { item: InFlightView },
    Settled { item: InFlightView, service: Service, stage: SettleStage },
    Requeued { raw: Seq<char> },
    Dropped { reason: DropReason },
}

impl View for WorkerState {
    type V = StateView;

    open spec fn view(&self) -> StateView {
        match *self {
            WorkerState::Polling => StateView::Polling,
            WorkerState::Backoff { millis } => StateView::Backoff { millis },
            WorkerState::Dequeued { raw } => StateView::Dequeued { raw: raw@ },
            WorkerState::TryPrimary { item } => StateView::TryPrimary { item: item@ },
            WorkerState::TryFallback { item } => StateView::TryFallback { item: item@ },
            WorkerState::Settled { item, service, stage } => StateView::Settled {
                item: item@,
                service,
                stage,
            },
            WorkerState::Requeued { raw } => StateView::Requeued { raw: raw@ },
            WorkerState::Dropped { reason } => StateView::Dropped { reason },
        }
    }
}

/// What the worker asks of whoever runs it.
#[derive(Clone, Debug, PartialEq, Eq)]
pub enum Action {
    /// Remove the head of the queue and report it.
    Dequeue,
    /// Wait this long.
    Sleep { millis: u64 },
    /// Read this entry as a payment.
    Decode { raw: String },
    /// Post `request` to `service`, waiting at most `timeout_secs` seconds.
    Attempt { service: Service, request: DownstreamRequest, timeout_secs: u64 },
    /// Store `payload` as the settled record of `correlation_id`.
    WriteRecord { correlation_id: u128, payload: String },
    /// Raise the request count of `service` by one.
    IncrementRequests { service: Service },
    /// Report the running amount of `service`.
    ReadAmount { service: Service },
    /// Set the running amount of `service` to `total`.
    WriteAmount { service: Service, total: i64 },
    /// Append `raw` to the end of the queue.
    Requeue { raw: String },
    /// Nothing is left to do for the entry but to note why it was given up.
    Discard { reason: DropReason },
}

/// An action, with its text as sequences of characters.
pub enum ActionView {
    Dequeue,
    Sleep { millis: u64 },
    Decode { raw: Seq<char> },
    Attempt { service: Service, request: RequestView, timeout_secs: u64 },
    WriteRecord { correlation_id: u128, payload: Seq<char> },
    IncrementRequests { service: Service },
    ReadAmount { service: Service },
    WriteAmount { service: Service, total: i64 },
    Requeue { raw: Seq<char> },
    Discard { reason: DropReason },
}

impl View for Action {
    type V = ActionView;

    open spec fn view(&self) -> ActionView {
        match *self {
            Action::Dequeue => ActionView::Dequeue,
            Action::Sleep { millis } => ActionView::Sleep { millis },
            Action::Decode { raw } => ActionView::Decode { raw: raw@ },
            Action::Attempt { service, request, timeout_secs } => ActionView::Attempt {
                service,
                request: request@,
                timeout_secs,
            },
            Action::WriteRecord { correlation_id, payload } => ActionView::WriteRecord {
                correlation_id,
                payload: payload@,
            },
            Action::IncrementRequests { service } => ActionView::IncrementRequests { service },
            Action::ReadAmount { service } => ActionView::ReadAmount { service },
            Action::WriteAmount { service, total } => ActionView::WriteAmount { service, total },
            Action::Requeue { raw } => ActionView::Requeue { raw: raw@ },
            Action::Discard { reason } => ActionView::Discard { reason },
        }
    }
}

/// What happened when the worker's action was performed.
#[derive(Clone, Debug, PartialEq, Eq)]
pub enum Event {
    /// The queue answered: its head entry, or nothing where it was empty.
    Popped { entry: Option<String> },
    /// The store could not be reached.
    StoreFailed,
    /// The entry was read: the payment, or nothing where it could not be
    /// read as one.
    Decoded { payment: Option<Payment> },
    /// The downstream call ended with this outcome.
    Attempted { outcome: Outcome },
    /// The running amount was read; nothing where none is stored yet.
    AmountRead { total: Option<i64> },
    /// The action was carried out and has nothing to report.
    Done,
}

/// An event, with its text as sequences of characters.
pub enum EventView {
    Popped { entry: Option<Seq<char>> },
    StoreFailed,
    Decoded { payment: Option<Payment> },
    Attempted { outcome: Outcome },
    AmountRead { total: Option<i64> },
    Done,
}

impl View for Event {
    type V = EventView;

    open spec fn view(&self) -> EventView {
        match *self {
            Event::Popped { entry } => EventView::Popped {
                entry: match entry {
                    Some(raw) => Some(raw@),
                    None => None,
                },
            },
            Event::StoreFailed => EventView::StoreFailed,
            Event::Decoded { payment } => EventView::Decoded { payment },
            Event::Attempted { outcome } => EventView::Attempted { outcome },
            Event::AmountRead { total } => EventView::AmountRead { total },
            Event::Done => EventView::Done,
        }
    }
}

/// The running amount after `amount` is added to `total`. A sum outside the
/// range of the counter stays at the nearest end of the range.
pub open spec fn credited(total: i64, amount: i64) -> i64 {
    if total + amount > i64::MAX {
        i64::MAX
    } else if total + amount < i64::MIN {
        i64::MIN
    } else {
        (total + amount) as i64
    }
}

/// The state in which a decoded entry starts its dispatch. `requested_at` is
/// the text of the payment's timestamp, or nothing where it has none. A
/// payment whose amount is not above zero is dropped; so is one whose
/// timestamp cannot be written.
pub open spec fn begin_dispatch_spec(
    raw: Seq<char>,
    payment: Payment,
    requested_at: Option<Seq<char>>,
) -> StateView {
    if payment.amount <= 0 {
        StateView::Dropped { reason: DropReason::InvalidAmount }
    } else {
        match requested_at {
            Some(text) => StateView::TryPrimary {
                item: InFlightView { raw, request: payment.request_spec(text) },
            },
            None => StateView::Dropped { reason: DropReason::Malformed },
        }
    }
}

/// The state that follows `state` when `event` arrives. An event that does
/// not answer the action of `state` leaves the state as it is.
pub open spec fn step_spec(state: StateView, event: EventView) -> StateView {
    match (state, event) {
        (StateView::Polling, EventView::Popped { entry: Some(raw) }) => StateView::Dequeued { raw },
        (StateView::Polling, EventView::Popped { entry: None }) => StateView::Backoff {
            millis: EMPTY_BACKOFF_MILLIS,
        },
        (StateView::Polling, EventView::StoreFailed) => StateView::Backoff {
            millis: STORE_BACKOFF_MILLIS,
        },
        (StateView::Backoff { .. }, EventView::Done) => StateView::Polling,
        (StateView::Dequeued { raw }, EventView::Decoded { payment: None }) => StateView::Dropped {
            reason: DropReason::Malformed,
        },
        (StateView::Dequeued { raw }, EventView::Decoded { payment: Some(payment) }) => {
            begin_dispatch_spec(
                raw,
                payment,
                rfc3339_text(payment.timestamp.secs, payment.timestamp.nanos),
            )
        },
        (StateView::TryPrimary { item }, EventView::Attempted { outcome }) => if settles_spec(
            outcome,
        ) {
            StateView::Settled { item, service: Service::Default, stage: SettleStage::Record }
        } else {
            StateView::TryFallback { item }
        },
        (StateView::TryFallback { item }, EventView::Attempted { outcome }) => if settles_spec(
            outcome,
        ) {
            StateView::Settled { item, service: Service::Fallback, stage: SettleStage::Record }
        } else {
            StateView::Requeued { raw: item.raw }
        },
        (StateView::Settled { item, service, stage: SettleStage::Record }, EventView::Done) => {
            StateView::Settled { item, service, stage: SettleStage::CountRequest }
        },
        (
            StateView::Settled { item, service, stage: SettleStage::Record },
            EventView::StoreFailed,
        ) => StateView::Polling,
        (
            StateView::Settled { item, service, stage: SettleStage::CountRequest },
            EventView::Done,
        ) => StateView::Settled { item, service, stage: SettleStage::ReadAmount },
        (
            StateView::Settled { item, service, stage: SettleStage::CountRequest },
            EventView::StoreFailed,
        ) => StateView::Settled { item, service, stage: SettleStage::ReadAmount },
        (
            StateView::Settled { item, service, stage: SettleStage::ReadAmount },
            EventView::AmountRead { total: Some(total) },
        ) => StateView::Settled {
            item,
            service,
            stage: SettleStage::WriteAmount { total: credited(total, item.request.amount) },
        },
        (
            StateView::Settled { item, service, stage: SettleStage::ReadAmount },
            EventView::AmountRead { total: None },
        ) => StateView::Settled {
            item,
            service,
            stage: SettleStage::WriteAmount { total: item.request.amount },
        },
        (
            StateView::Settled { item, service, stage: SettleStage::ReadAmount },
            EventView::StoreFailed,
        ) => StateView::Settled {
            item,
            service,
            stage: SettleStage::WriteAmount { total: item.request.amount },
        },
        (
            StateView::Settled { stage: SettleStage::WriteAmount { .. }, .. },
            EventView::Done,
        ) => StateView::Polling,
        (
            StateView::Settled { stage: SettleStage::WriteAmount { .. }, .. },
            EventView::StoreFailed,
        ) => StateView::Polling,
        (StateView::Requeued { .. }, EventView::Done) => StateView::Polling,
        (StateView::Requeued { .. }, EventView::StoreFailed) => StateView::Polling,
        (StateView::Dropped { .. }, EventView::Done) => StateView::Polling,
        (state, _) => state,
    }
}

/// The action that the worker asks for in `state`.
pub open spec fn action_spec(state: StateView) -> ActionView {
    match state {
        StateView::Polling => ActionView::Dequeue,
        StateView::Backoff { millis } => ActionView::Sleep { millis },
        StateView::Dequeued { raw } => ActionView::Decode { raw },
        StateView::TryPrimary { item } => ActionView::Attempt {
            service: Service::Default,
            request: item.request,
            timeout_secs: ATTEMPT_TIMEOUT_SECS,
        },
        StateView::TryFallback { item } => ActionView::Attempt {
            service: Service::Fallback,
            request: item.request,
            timeout_secs: ATTEMPT_TIMEOUT_SECS,
        },
        StateView::Settled { item, service, stage } => match stage {
            SettleStage::Record => ActionView::WriteRecord {
                correlation_id: item.request.correlation_id,
                payload: item.raw,
            },
            SettleStage::CountRequest => ActionView::IncrementRequests { service },
            SettleStage::ReadAmount => ActionView::ReadAmount { service },
            SettleStage::WriteAmount { total } => ActionView::WriteAmount { service, total },
        },
        StateView::Requeued { raw } => ActionView::Requeue { raw },
        StateView::Dropped { reason } => ActionView::Discard { reason },
    }
}

/// Adds `amount` to the running amount `total`, staying at the end of the
/// counter's range where the sum would leave it.
pub fn credit(total: i64, amount: i64) -> (sum: i64)
    ensures
        sum == credited(total, amount),
{
    match total.checked_add(amount) {
        Some(sum) => sum,
        None => if amount > 0 {
            i64::MAX
        } else {
            i64::MIN
        },
    }
}

/// Starts the dispatch of a decoded entry. `requested_at` is the RFC 3339
/// text of the payment's timestamp, or `None` where it has none.
///
/// The entry is dropped where the amount is not above zero, and where the
/// timestamp has no text; otherwise the primary service is tried next, with
/// a request that carries the payment's id, amount and timestamp.
pub fn begin_dispatch(raw: String, payment: Payment, requested_at: Option<String>) -> (next:
    WorkerState)
    ensures
        next@ == begin_dispatch_spec(
            raw@,
            payment,
            match requested_at {
                Some(text) => Some(text@),
                None => None,
            },
        ),
{
    if !payment.is_valid() {
        WorkerState::Dropped { reason: DropReason::InvalidAmount }
    } else {
        match requested_at {
            Some(text) => WorkerState::TryPrimary {
                item: InFlight { raw, request: payment.request(text) },
            },
            None => WorkerState::Dropped { reason: DropReason::Malformed },
        }
    }
}

impl WorkerState {
    /// A worker that is about to ask the queue for its first entry.
    pub fn new() -> (state: WorkerState)
        ensures
            state@ == StateView::Polling,
    {
        WorkerState::Polling
    }

    /// Whether the worker stands between two entries.
    pub fn is_polling(&self) -> (yes: bool)
        ensures
            yes == (self@ == StateView::Polling),
    {
        match self {
            WorkerState::Polling => true,
            _ => false,
        }
    }

    /// The action that is to be performed in this state.
    pub fn action(&self) -> (action: Action)
        ensures
            action@ == action_spec(self@),
    {
        match self {
            WorkerState::Polling => Action::Dequeue,
            WorkerState::Backoff { millis } => Action::Sleep { millis: *millis },
            WorkerState::Dequeued { raw } => Action::Decode { raw: raw.clone() },
            WorkerState::TryPrimary { item } => Action::Attempt {
                service: Service::Default,
                request: item.request.duplicate(),
                timeout_secs: ATTEMPT_TIMEOUT_SECS,
            },
            WorkerState::TryFallback { item } => Action::Attempt {
                service: Service::Fallback,
                request: item.request.duplicate(),
                timeout_secs: ATTEMPT_TIMEOUT_SECS,
            },
            WorkerState::Settled { item, service, stage } => match stage {
                SettleStage::Record => Action::WriteRecord {
                    correlation_id: item.request.correlation_id,
                    payload: item.raw.clone(),
                },
                SettleStage::CountRequest => Action::IncrementRequests { service: *service },
                SettleStage::ReadAmount => Action::ReadAmount { service: *service },
                SettleStage::WriteAmount { total } => Action::WriteAmount {
                    service: *service,
                    total: *total,
                },
            },
            WorkerState::Requeued { raw } => Action::Requeue { raw: raw.clone() },
            WorkerState::Dropped { reason } => Action::Discard { reason: *reason },
        }
    }

    /// Moves the worker on by one event.
    ///
    /// The event is the report on the action of the current state. Any other
    /// event is ignored: the state comes back unchanged.
    pub fn step(self, event: Event) -> (next: WorkerState)
        ensures
            next@ == step_spec(self@, event@),
    {
        match (self, event) {
            (WorkerState::Polling, Event::Popped { entry: Some(raw) }) => WorkerState::Dequeued {
                raw,
            },
            (WorkerState::Polling, Event::Popped { entry: None }) => WorkerState::Backoff {
                millis: EMPTY_BACKOFF_MILLIS,
            },
            (WorkerState::Polling, Event::StoreFailed) => WorkerState::Backoff {
                millis: STORE_BACKOFF_MILLIS,
            },
            (WorkerState::Backoff { .. }, Event::Done) => WorkerState::Polling,
            (WorkerState::Dequeued { .. }, Event::Decoded { payment: None }) => {
                WorkerState::Dropped { reason: DropReason::Malformed }
            },
            (WorkerState::Dequeued { raw }, Event::Decoded { payment: Some(payment) }) => {
                let requested_at = chrono_to_rfc3339(
                    payment.timestamp.secs,
                    payment.timestamp.nanos,
                );
                begin_dispatch(raw, payment, requested_at)
            },
            (WorkerState::TryPrimary { item }, Event::Attempted { outcome }) => {
                if outcome.settles() {
                    WorkerState::Settled {
                        item,
                        service: Service::Default,
                        stage: SettleStage::Record,
                    }
                } else {
                    WorkerState::TryFallback { item }
                }
            },
            (WorkerState::TryFallback { item }, Event::Attempted { outcome }) => {
                if outcome.settles() {
                    WorkerState::Settled {
                        item,
                        service: Service::Fallback,
                        stage: SettleStage::Record,
                    }
                } else {
                    WorkerState::Requeued { raw: item.raw }
                }
            },
            (WorkerState::Settled { item, service, stage }, event) => settle_step(
                item,
                service,
                stage,
                event,
            ),
            (WorkerState::Requeued { .. }, Event::Done) => WorkerState::Polling,
            (WorkerState::Requeued { .. }, Event::StoreFailed) => WorkerState::Polling,
            (WorkerState::Dropped { .. }, Event::Done) => WorkerState::Polling,
            (state, _) => state,
        }
    }
}

/// Moves the bookkeeping of a settled payment on by one event.
///
/// Only a failure to write the settled record ends the bookkeeping early;
/// the counter updates are attempted one after the other whatever became of
/// the one before, and a running amount that cannot be read counts as zero.
fn settle_step(item: InFlight, service: Service, stage: SettleStage, event: Event) -> (next:
    WorkerState)
    ensures
        next@ == step_spec(StateView::Settled { item: item@, service, stage }, event@),
{
    match (stage, event) {
        (SettleStage::Record, Event::Done) => WorkerState::Settled {
            item,
            service,
            stage: SettleStage::CountRequest,
        },
        (SettleStage::Record, Event::StoreFailed) => WorkerState::Polling,
        (SettleStage::CountRequest, Event::Done) => WorkerState::Settled {
            item,
            service,
            stage: SettleStage::ReadAmount,
        },
        (SettleStage::CountRequest, Event::StoreFailed) => WorkerState::Settled {
            item,
            service,
            stage: SettleStage::ReadAmount,
        },
        (SettleStage::ReadAmount, Event::AmountRead { total: Some(total) }) => {
            let sum: i64 = credit(total, item.request.amount);
            WorkerState::Settled { item, service, stage: SettleStage::WriteAmount { total: sum } }
        },
        (SettleStage::ReadAmount, Event::AmountRead { total: None }) => {
            let sum: i64 = item.request.amount;
            WorkerState::Settled { item, service, stage: SettleStage::WriteAmount { total: sum } }
        },
        (SettleStage::ReadAmount, Event::StoreFailed) => {
            let sum: i64 = item.request.amount;
            WorkerState::Settled { item, service, stage: SettleStage::WriteAmount { total: sum } }
        },
        (SettleStage::WriteAmount { .. }, Event::Done) => WorkerState::Polling,
        (SettleStage::WriteAmount { .. }, Event::StoreFailed) => WorkerState::Polling,
        (stage, _) => WorkerState::Settled { item, service, stage },
    }
}

} // verus!
