//! The settlement gateway: the two downstream services, what one call to a
//! service can come back with, and how that is read as an outcome.
//!
//! The call itself is made by the embedding program. This module fixes where
//! the call goes, how long it may take, and what its answer means.

use vstd::prelude::*;

verus! {

/// One of the two downstream settlement services.
#[derive(Clone, Copy, Debug, PartialEq, Eq, Structural)]
pub enum Service {
    /// The primary service, tried first.
    Default,
    /// The secondary service, tried only after the primary failed.
    Fallback,
}

/// What one call to a downstream service came back with, before any
/// interpretation.
#[derive(Clone, Copy, Debug, PartialEq, Eq, Structural)]
pub enum Reply {
    /// The service answered with this HTTP status code.
    Status(u16),
    /// No answer arrived within the time allowed for the call.
    TimedOut,
    /// The connection could not be made or broke down.
    Unreachable,
}

/// The meaning of one settlement attempt.
#[derive(Clone, Copy, Debug, PartialEq, Eq, Structural)]
pub enum Outcome {
    /// The service took the payment.
    Accepted,
    /// The service had taken a payment with this correlation id before.
    AlreadyAccepted,
    /// The service answered and did not take the payment.
    Rejected,
    /// The call ran out of time.
    TimedOut,
    /// The service could not be reached.
    NetworkError,
}

/// Seconds that one call to a downstream service may take. Each call has
/// this much time for itself, whatever the calls before it used.
pub const ATTEMPT_TIMEOUT_SECS: u64 = 3;

/// The status code by which a service says that it already holds the payment.
pub const STATUS_DUPLICATE: u16 = 422;

/// Whether `code` lies in the range of successful HTTP status codes.
pub open spec fn is_success_status(code: u16) -> bool {
    200 <= code < 300
}

/// The outcome that a reply stands for.
pub open spec fn classify_spec(reply: Reply) -> Outcome {
    match reply {
        Reply::Status(code) => if is_success_status(code) {
            Outcome::Accepted
        } else if code == STATUS_DUPLICATE {
            Outcome::AlreadyAccepted
        } else {
            Outcome::Rejected
        },
        Reply::TimedOut => Outcome::TimedOut,
        Reply::Unreachable => Outcome::NetworkError,
    }
}

/// Whether an outcome settles the payment: a fresh acceptance does, and so
/// does the report that the payment had been accepted before.
pub open spec fn settles_spec(outcome: Outcome) -> bool {
    outcome == Outcome::Accepted || outcome == Outcome::AlreadyAccepted
}

/// Reads a reply as an outcome.
pub fn classify(reply: Reply) -> (outcome: Outcome)
    ensures
        outcome == classify_spec(reply),
{
    match reply {
        Reply::Status(code) => {
            if 200 <= code && code < 300 {
                Outcome::Accepted
            } else if code == STATUS_DUPLICATE {
                Outcome::AlreadyAccepted
            } else {
                Outcome::Rejected
            }
        },
        Reply::TimedOut => Outcome::TimedOut,
        Reply::Unreachable => Outcome::NetworkError,
    }
}

impl Outcome {
    /// Whether this outcome settles the payment.
    pub fn settles(&self) -> (yes: bool)
        ensures
            yes == settles_spec(*self),
    {
        match self {
            Outcome::Accepted => true,
            Outcome::AlreadyAccepted => true,
            _ => false,
        }
    }
}

impl Service {
    /// The address to which payments for this service are posted.
    pub fn endpoint(&self) -> (url: &'static str)
        ensures
            url@ == (match *self {
                Service::Default => "http://payment-processor-default:8080/payments"@,
                Service::Fallback => "http://payment-processor-fallback:8080/payments"@,
            }),
    {
        match self {
            Service::Default => "http://payment-processor-default:8080/payments",
            Service::Fallback => "http://payment-processor-fallback:8080/payments",
        }
    }

    /// The name under which this service appears in summaries and in the
    /// store's counter keys.
    pub fn name(&self) -> (name: &'static str)
        ensures
            name@ == service_name(*self),
    {
        match self {
            Service::Default => "default",
            Service::Fallback => "fallback",
        }
    }
}

/// The name of a service as text.
pub open spec fn service_name(service: Service) -> Seq<char> {
    match service {
        Service::Default => "default"@,
        Service::Fallback => "fallback"@,
    }
}

} // verus!
