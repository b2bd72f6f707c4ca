//! The summary of settled payments: the query, its validation, and the
//! response with the totals of both services.

use crate::instant::{rfc3339_instant, Timestamp};
use crate::store::{ServiceCounters, StoreUnavailable};
use vstd::prelude::*;

verus! {

/// The answer to a request that was carried out.
pub const STATUS_OK: u16 = 200;

/// The answer to a payment that was taken in for later dispatch.
pub const STATUS_ACCEPTED: u16 = 202;

/// The answer to a request whose parameters cannot be read.
pub const STATUS_BAD_REQUEST: u16 = 400;

/// The answer to a request that failed because the store was out of reach.
pub const STATUS_INTERNAL_SERVER_ERROR: u16 = 500;

/// The parameters of a summary query: the two ends of a time range, each as
/// RFC 3339 text.
#[derive(Clone, Debug, PartialEq, Eq)]
pub struct SummaryQuery {
    pub from: String,
    pub to: String,
}

/// The totals of one service as they appear in a summary.
#[derive(Clone, Copy, Debug, PartialEq, Eq, Structural)]
pub struct SummaryData {
    pub total_requests: u32,
    /// In minor units.
    pub total_amount: i64,
}

/// The summary: the totals of the primary and of the fallback service.
#[derive(Clone, Copy, Debug, PartialEq, Eq, Structural)]
pub struct SummaryResponse {
    pub default: SummaryData,
    pub fallback: SummaryData,
}

/// The time range of a summary query, once read.
#[derive(Clone, Copy, Debug, PartialEq, Eq, Structural)]
pub struct TimeRange {
    pub from: Timestamp,
    pub to: Timestamp,
}

/// What is wrong with the parameters of a request.
#[derive(Clone, Copy, Debug, PartialEq, Eq, Structural)]
pub enum ValidationError {
    /// The start of the range is not an RFC 3339 date and time.
    InvalidFrom,
    /// The end of the range is not an RFC 3339 date and time.
    InvalidTo,
}

/// The range made of two ends, each of which may have failed to parse. The
/// start is looked at first.
pub open spec fn range_spec(from: Option<Timestamp>, to: Option<Timestamp>) -> Result<
    TimeRange,
    ValidationError,
> {
    match from {
        None => Err(ValidationError::InvalidFrom),
        Some(from) => match to {
            None => Err(ValidationError::InvalidTo),
            Some(to) => Ok(TimeRange { from, to }),
        },
    }
}

/// The totals of a service as summary data.
pub open spec fn data_spec(counters: ServiceCounters) -> SummaryData {
    SummaryData { total_requests: counters.total_requests, total_amount: counters.total_amount }
}

/// The totals of a service as read from the store in two parts, each of
/// which may be absent: what is absent counts as zero.
pub open spec fn counters_spec(
    requests: Result<Option<u32>, StoreUnavailable>,
    amount: Result<Option<i64>, StoreUnavailable>,
) -> Result<ServiceCounters, StoreUnavailable> {
    match (requests, amount) {
        (Ok(requests), Ok(amount)) => Ok(
            ServiceCounters {
                total_requests: match requests {
                    Some(count) => count,
                    None => 0,
                },
                total_amount: match amount {
                    Some(total) => total,
                    None => 0,
                },
            },
        ),
        _ => Err(StoreUnavailable),
    }
}

/// The answer to a summary query. A query whose range cannot be read is a
/// bad request; a store out of reach is a server error; otherwise the answer
/// holds the totals of both services as they stand. The range does not
/// narrow the totals: they cover all settled payments.
pub open spec fn summary_spec(
    range: Result<TimeRange, ValidationError>,
    default: Result<ServiceCounters, StoreUnavailable>,
    fallback: Result<ServiceCounters, StoreUnavailable>,
) -> Result<SummaryResponse, u16> {
    match range {
        Err(_) => Err(STATUS_BAD_REQUEST),
        Ok(_) => match (default, fallback) {
            (Ok(default), Ok(fallback)) => Ok(
                SummaryResponse { default: data_spec(default), fallback: data_spec(fallback) },
            ),
            _ => Err(STATUS_INTERNAL_SERVER_ERROR),
        },
    }
}

/// Puts the two ends of a range together, or says which one is missing.
pub fn check_range(from: Option<Timestamp>, to: Option<Timestamp>) -> (range: Result<
    TimeRange,
    ValidationError,
>)
    ensures
        range == range_spec(from, to),
{
    match from {
        None => Err(ValidationError::InvalidFrom),
        Some(from) => match to {
            None => Err(ValidationError::InvalidTo),
            Some(to) => Ok(TimeRange { from, to }),
        },
    }
}

impl SummaryQuery {
    /// The range that this query asks for.
    pub open spec fn range(&self) -> Result<TimeRange, ValidationError> {
        range_spec(
            Timestamp::from_parts(rfc3339_instant(self.from@)),
            Timestamp::from_parts(rfc3339_instant(self.to@)),
        )
    }

    /// Reads both ends of the range. Succeeds exactly where both are RFC
    /// 3339 dates and times; otherwise names the first end that is not.
    pub fn validate(&self) -> (range: Result<TimeRange, ValidationError>)
        ensures
            range == self.range(),
    {
        let from = Timestamp::parse(self.from.as_str());
        let to = Timestamp::parse(self.to.as_str());
        check_range(from, to)
    }
}

/// Puts the totals of a service together from the two parts in which the
/// store holds them. A part that the store does not hold counts as zero; a
/// part that could not be read makes the whole unavailable.
pub fn counters_from_parts(
    requests: Result<Option<u32>, StoreUnavailable>,
    amount: Result<Option<i64>, StoreUnavailable>,
) -> (counters: Result<ServiceCounters, StoreUnavailable>)
    ensures
        counters == counters_spec(requests, amount),
{
    match (requests, amount) {
        (Ok(requests), Ok(amount)) => {
            let total_requests: u32 = match requests {
                Some(count) => count,
                None => 0,
            };
            let total_amount: i64 = match amount {
                Some(total) => total,
                None => 0,
            };
            Ok(ServiceCounters { total_requests, total_amount })
        },
        _ => Err(StoreUnavailable),
    }
}

/// Answers a summary query from its validated range and the totals read for
/// the two services.
pub fn summary_response(
    range: Result<TimeRange, ValidationError>,
    default: Result<ServiceCounters, StoreUnavailable>,
    fallback: Result<ServiceCounters, StoreUnavailable>,
) -> (response: Result<SummaryResponse, u16>)
    ensures
        response == summary_spec(range, default, fallback),
{
    match range {
        Err(_) => Err(STATUS_BAD_REQUEST),
        Ok(_) => match (default, fallback) {
            (Ok(default), Ok(fallback)) => Ok(
                SummaryResponse {
                    default: SummaryData {
                        total_requests: default.total_requests,
                        total_amount: default.total_amount,
                    },
                    fallback: SummaryData {
                        total_requests: fallback.total_requests,
                        total_amount: fallback.total_amount,
                    },
                },
            ),
            _ => Err(STATUS_INTERNAL_SERVER_ERROR),
        },
    }
}

} // verus!
