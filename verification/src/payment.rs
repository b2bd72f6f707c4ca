//! The payment, and what is sent downstream for it.

use crate::instant::Timestamp;
use vstd::prelude::*;

verus! {

/// A payment as it was taken in. The amount is a signed count of minor
/// currency units; only an amount above zero can be settled.
#[derive(Clone, Copy, Debug, PartialEq, Eq, Structural)]
pub struct Payment {
    /// The identifier that ties the payment to its queue entry, its settled
    /// record and the downstream request.
    pub correlation_id: u128,
    /// The amount, in minor units.
    pub amount: i64,
    /// When the payment was taken in.
    pub timestamp: Timestamp,
}

/// The body of the request that a downstream service receives.
#[derive(Clone, Debug, PartialEq, Eq)]
pub struct DownstreamRequest {
    pub correlation_id: u128,
    /// The amount, in minor units.
    pub amount: i64,
    /// The time at which the payment was taken in, as RFC 3339 text.
    pub requested_at: String,
}

/// A downstream request with its text as a sequence of characters.
pub struct RequestView {
    pub correlation_id: u128,
    pub amount: i64,
    pub requested_at: Seq<char>,
}

impl View for DownstreamRequest {
    type V = RequestView;

    open spec fn view(&self) -> RequestView {
        RequestView {
            correlation_id: self.correlation_id,
            amount: self.amount,
            requested_at: self.requested_at@,
        }
    }
}

impl Payment {
    /// The payment made of a submission: it keeps the timestamp that the
    /// submission states, and where it states none, it gets the time of
    /// intake.
    pub open spec fn at_intake_spec(
        correlation_id: u128,
        amount: i64,
        stated: Option<Timestamp>,
        intake_time: Timestamp,
    ) -> Payment {
        Payment {
            correlation_id,
            amount,
            timestamp: match stated {
                Some(timestamp) => timestamp,
                None => intake_time,
            },
        }
    }

    /// Makes the payment of a submission that arrives at `intake_time`. A
    /// submission that states no timestamp of its own is stamped with the
    /// time of intake. The amount is taken as it is: whether it can be
    /// settled is decided at dispatch.
    pub fn at_intake(
        correlation_id: u128,
        amount: i64,
        stated: Option<Timestamp>,
        intake_time: Timestamp,
    ) -> (payment: Payment)
        ensures
            payment == Self::at_intake_spec(correlation_id, amount, stated, intake_time),
    {
        let timestamp = match stated {
            Some(timestamp) => timestamp,
            None => intake_time,
        };
        Payment { correlation_id, amount, timestamp }
    }

    /// Whether the payment can be settled at all: its amount is above zero.
    pub open spec fn is_valid_spec(self) -> bool {
        self.amount > 0
    }

    /// Whether the payment can be settled at all: its amount is above zero.
    pub fn is_valid(&self) -> (valid: bool)
        ensures
            valid == self.is_valid_spec(),
    {
        self.amount > 0
    }

    /// The request for this payment, given the text of its timestamp.
    pub open spec fn request_spec(self, requested_at: Seq<char>) -> RequestView {
        RequestView { correlation_id: self.correlation_id, amount: self.amount, requested_at }
    }

    /// Builds the downstream request for this payment. `requested_at` is the
    /// text of the payment's own timestamp: the request carries the time of
    /// intake, never the time of dispatch.
    pub fn request(&self, requested_at: String) -> (request: DownstreamRequest)
        ensures
            request@ == self.request_spec(requested_at@),
    {
        DownstreamRequest { correlation_id: self.correlation_id, amount: self.amount, requested_at }
    }
}

impl DownstreamRequest {
    /// A second copy of this request.
    pub fn duplicate(&self) -> (copy: DownstreamRequest)
        ensures
            copy@ == self@,
    {
        DownstreamRequest {
            correlation_id: self.correlation_id,
            amount: self.amount,
            requested_at: self.requested_at.clone(),
        }
    }
}

} // verus!
