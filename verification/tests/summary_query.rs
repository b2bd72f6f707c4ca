use payment_dispatch::instant::Timestamp;
use payment_dispatch::store::{ServiceCounters, StoreUnavailable};
use payment_dispatch::summary::{
    check_range, counters_from_parts, summary_response, SummaryData, SummaryQuery,
    SummaryResponse, TimeRange, ValidationError, STATUS_ACCEPTED, STATUS_BAD_REQUEST,
    STATUS_INTERNAL_SERVER_ERROR, STATUS_OK,
};

fn range() -> TimeRange {
    TimeRange { from: Timestamp { secs: 0, nanos: 0 }, to: Timestamp { secs: 10, nanos: 0 } }
}

#[test]
fn statuses_have_their_http_values() {
    assert_eq!(STATUS_OK, 200);
    assert_eq!(STATUS_ACCEPTED, 202);
    assert_eq!(STATUS_BAD_REQUEST, 400);
    assert_eq!(STATUS_INTERNAL_SERVER_ERROR, 500);
}

#[test]
fn query_with_two_dates_validates_to_their_range() {
    let query = SummaryQuery {
        from: "1970-01-01T00:00:00Z".to_string(),
        to: "1970-01-01T00:00:10Z".to_string(),
    };
    assert_eq!(query.validate(), Ok(range()));
}

#[test]
fn query_names_the_first_unreadable_end() {
    let bad_from = SummaryQuery { from: "not-a-date".to_string(), to: "2024-01-01T00:00:00Z".to_string() };
    assert_eq!(bad_from.validate(), Err(ValidationError::InvalidFrom));
    let bad_to = SummaryQuery { from: "2024-01-01T00:00:00Z".to_string(), to: "tomorrow".to_string() };
    assert_eq!(bad_to.validate(), Err(ValidationError::InvalidTo));
    let both = SummaryQuery { from: "".to_string(), to: "".to_string() };
    assert_eq!(both.validate(), Err(ValidationError::InvalidFrom));
}

#[test]
fn range_may_run_backwards() {
    let query = SummaryQuery {
        from: "2024-01-02T00:00:00Z".to_string(),
        to: "2024-01-01T00:00:00Z".to_string(),
    };
    assert!(query.validate().is_ok());
}

#[test]
fn check_range_looks_at_from_first() {
    let at = Timestamp { secs: 1, nanos: 2 };
    assert_eq!(check_range(None, None), Err(ValidationError::InvalidFrom));
    assert_eq!(check_range(None, Some(at)), Err(ValidationError::InvalidFrom));
    assert_eq!(check_range(Some(at), None), Err(ValidationError::InvalidTo));
    assert_eq!(check_range(Some(at), Some(at)), Ok(TimeRange { from: at, to: at }));
}

#[test]
fn absent_parts_count_as_zero() {
    assert_eq!(
        counters_from_parts(Ok(None), Ok(None)),
        Ok(ServiceCounters { total_requests: 0, total_amount: 0 })
    );
    assert_eq!(
        counters_from_parts(Ok(Some(3)), Ok(None)),
        Ok(ServiceCounters { total_requests: 3, total_amount: 0 })
    );
    assert_eq!(
        counters_from_parts(Ok(None), Ok(Some(250))),
        Ok(ServiceCounters { total_requests: 0, total_amount: 250 })
    );
    assert_eq!(
        counters_from_parts(Ok(Some(3)), Ok(Some(250))),
        Ok(ServiceCounters { total_requests: 3, total_amount: 250 })
    );
}

#[test]
fn unreadable_part_makes_the_totals_unavailable() {
    assert_eq!(counters_from_parts(Err(StoreUnavailable), Ok(Some(1))), Err(StoreUnavailable));
    assert_eq!(counters_from_parts(Ok(Some(1)), Err(StoreUnavailable)), Err(StoreUnavailable));
    assert_eq!(counters_from_parts(Err(StoreUnavailable), Err(StoreUnavailable)), Err(StoreUnavailable));
}

#[test]
fn summary_response_bundles_both_services() {
    let default = ServiceCounters { total_requests: 2, total_amount: 150 };
    let fallback = ServiceCounters { total_requests: 1, total_amount: 50 };
    assert_eq!(
        summary_response(Ok(range()), Ok(default), Ok(fallback)),
        Ok(SummaryResponse {
            default: SummaryData { total_requests: 2, total_amount: 150 },
            fallback: SummaryData { total_requests: 1, total_amount: 50 },
        })
    );
}

#[test]
fn summary_response_puts_validation_before_the_store() {
    let totals = ServiceCounters { total_requests: 2, total_amount: 150 };
    assert_eq!(summary_response(Err(ValidationError::InvalidFrom), Ok(totals), Ok(totals)), Err(400));
    assert_eq!(
        summary_response(Err(ValidationError::InvalidTo), Err(StoreUnavailable), Err(StoreUnavailable)),
        Err(400)
    );
}

#[test]
fn summary_response_reports_an_unreachable_store() {
    let totals = ServiceCounters { total_requests: 2, total_amount: 150 };
    assert_eq!(summary_response(Ok(range()), Err(StoreUnavailable), Ok(totals)), Err(500));
    assert_eq!(summary_response(Ok(range()), Ok(totals), Err(StoreUnavailable)), Err(500));
}
