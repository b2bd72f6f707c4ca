use payment_dispatch::dispatch::{new_payments_worker, process_single_payment, run_cycle, Cycle};
use payment_dispatch::gateway::{Reply, Service};
use payment_dispatch::handlers::{get_summary, purge_payments, save_payment};
use payment_dispatch::instant::Timestamp;
use payment_dispatch::payment::Payment;
use payment_dispatch::store::{ServiceCounters, Store};
use payment_dispatch::summary::{SummaryData, SummaryQuery, SummaryResponse};

const A: u128 = 0x4a7901b8_7d26_4d9d_aa19_4dc1c7cf60b3;
const B: u128 = 0x0b0a0d0c_0f0e_4101_8203_040506070809;
const C: u128 = 0xcccccccc_cccc_4ccc_8ccc_cccccccccccc;
const D: u128 = 0xdddddddd_dddd_4ddd_8ddd_dddddddddddd;

fn payment(correlation_id: u128, amount: i64) -> Payment {
    Payment { correlation_id, amount, timestamp: Timestamp { secs: 1_704_067_200, nanos: 0 } }
}

fn entry(name: &str, amount: i64) -> String {
    format!(
        "{{\"correlationId\":\"{}\",\"amount\":{},\"timestamp\":\"2024-01-01T00:00:00Z\"}}",
        name, amount
    )
}

fn cycle(decoded: Option<Payment>, primary: u16, fallback: u16) -> Cycle {
    Cycle { decoded, primary: Reply::Status(primary), fallback: Reply::Status(fallback) }
}

fn whole_range() -> SummaryQuery {
    SummaryQuery {
        from: "2000-01-01T00:00:00Z".to_string(),
        to: "2100-01-01T00:00:00Z".to_string(),
    }
}

fn totals(total_requests: u32, total_amount: i64) -> SummaryData {
    SummaryData { total_requests, total_amount }
}

#[test]
fn primary_success_is_counted_for_default() {
    let mut store = Store::new();
    assert_eq!(save_payment(&mut store, entry("A", 100)), 202);
    run_cycle(&mut store, &cycle(Some(payment(A, 100)), 200, 200));
    assert_eq!(
        get_summary(&store, &whole_range()),
        Ok(SummaryResponse { default: totals(1, 100), fallback: totals(0, 0) })
    );
    assert_eq!(store.record(A), Some(entry("A", 100)));
    assert_eq!(store.queue_len(), 0);
}

#[test]
fn fallback_success_is_counted_for_fallback() {
    let mut store = Store::new();
    assert_eq!(save_payment(&mut store, entry("B", 50)), 202);
    run_cycle(&mut store, &cycle(Some(payment(B, 50)), 500, 200));
    assert_eq!(
        get_summary(&store, &whole_range()),
        Ok(SummaryResponse { default: totals(0, 0), fallback: totals(1, 50) })
    );
    assert_eq!(store.record(B), Some(entry("B", 50)));
}

#[test]
fn double_failure_requeues_and_counts_nothing() {
    let mut store = Store::new();
    assert_eq!(save_payment(&mut store, entry("C", 10)), 202);
    run_cycle(&mut store, &cycle(Some(payment(C, 10)), 500, 500));
    assert_eq!(
        get_summary(&store, &whole_range()),
        Ok(SummaryResponse { default: totals(0, 0), fallback: totals(0, 0) })
    );
    assert_eq!(store.record(C), None);
    assert_eq!(store.queue_len(), 1);
    assert_eq!(store.dequeue(), Ok(Some(entry("C", 10))));
}

#[test]
fn negative_amount_is_taken_in_and_never_settled() {
    let mut store = Store::new();
    assert_eq!(save_payment(&mut store, entry("D", -5)), 202);
    assert_eq!(store.queue_len(), 1);
    let script = vec![
        cycle(Some(payment(D, -5)), 200, 200),
        cycle(Some(payment(D, -5)), 200, 200),
        cycle(Some(payment(D, -5)), 200, 200),
    ];
    new_payments_worker(&mut store, &script);
    assert_eq!(store.record(D), None);
    assert_eq!(store.record_count(), 0);
    assert_eq!(store.queue_len(), 0);
    assert_eq!(
        get_summary(&store, &whole_range()),
        Ok(SummaryResponse { default: totals(0, 0), fallback: totals(0, 0) })
    );
}

#[test]
fn zero_amount_is_dropped_too() {
    let mut store = Store::new();
    save_payment(&mut store, entry("D", 0));
    run_cycle(&mut store, &cycle(Some(payment(D, 0)), 200, 200));
    assert_eq!(store.record_count(), 0);
    assert_eq!(store.queue_len(), 0);
    assert_eq!(store.read_summary(Service::Default), Ok(ServiceCounters { total_requests: 0, total_amount: 0 }));
}

#[test]
fn summary_with_unreadable_from_is_a_bad_request() {
    let store = Store::new();
    let query = SummaryQuery {
        from: "not-a-date".to_string(),
        to: "2024-01-01T00:00:00Z".to_string(),
    };
    assert_eq!(get_summary(&store, &query), Err(400));
}

#[test]
fn summary_with_unreadable_to_is_a_bad_request() {
    let store = Store::new();
    let query = SummaryQuery {
        from: "2024-01-01T00:00:00Z".to_string(),
        to: "2024-13-01T00:00:00Z".to_string(),
    };
    assert_eq!(get_summary(&store, &query), Err(400));
}

#[test]
fn purge_after_settlement_resets_the_summary() {
    let mut store = Store::new();
    save_payment(&mut store, entry("A", 100));
    run_cycle(&mut store, &cycle(Some(payment(A, 100)), 200, 200));
    assert_eq!(store.record_count(), 1);
    assert_eq!(purge_payments(&mut store), 200);
    assert_eq!(
        get_summary(&store, &whole_range()),
        Ok(SummaryResponse { default: totals(0, 0), fallback: totals(0, 0) })
    );
    assert_eq!(store.record(A), None);
    assert_eq!(store.record_count(), 0);
    assert_eq!(store.queue_len(), 0);
}

#[test]
fn purge_empties_a_filled_queue() {
    let mut store = Store::new();
    save_payment(&mut store, entry("A", 100));
    save_payment(&mut store, entry("B", 50));
    assert_eq!(purge_payments(&mut store), 200);
    assert_eq!(store.queue_len(), 0);
    assert_eq!(store.dequeue(), Ok(None));
}

#[test]
fn duplicate_status_settles_like_success() {
    let mut with_duplicate = Store::new();
    save_payment(&mut with_duplicate, entry("A", 100));
    run_cycle(&mut with_duplicate, &cycle(Some(payment(A, 100)), 422, 500));

    let mut with_success = Store::new();
    save_payment(&mut with_success, entry("A", 100));
    run_cycle(&mut with_success, &cycle(Some(payment(A, 100)), 200, 500));

    assert_eq!(with_duplicate.read_summary(Service::Default), with_success.read_summary(Service::Default));
    assert_eq!(with_duplicate.read_summary(Service::Fallback), with_success.read_summary(Service::Fallback));
    assert_eq!(with_duplicate.record(A), with_success.record(A));
    assert_eq!(with_duplicate.read_summary(Service::Default), Ok(ServiceCounters { total_requests: 1, total_amount: 100 }));
}

#[test]
fn duplicate_status_from_fallback_settles_for_fallback() {
    let mut store = Store::new();
    save_payment(&mut store, entry("B", 50));
    run_cycle(&mut store, &cycle(Some(payment(B, 50)), 503, 422));
    assert_eq!(store.read_summary(Service::Fallback), Ok(ServiceCounters { total_requests: 1, total_amount: 50 }));
    assert_eq!(store.read_summary(Service::Default), Ok(ServiceCounters { total_requests: 0, total_amount: 0 }));
}

#[test]
fn timeouts_and_network_errors_fall_through_to_requeue() {
    let mut store = Store::new();
    save_payment(&mut store, entry("C", 10));
    let lost = Cycle { decoded: Some(payment(C, 10)), primary: Reply::TimedOut, fallback: Reply::Unreachable };
    run_cycle(&mut store, &lost);
    assert_eq!(store.queue_len(), 1);
    assert_eq!(store.record_count(), 0);
}

#[test]
fn timeout_on_primary_falls_through_to_fallback() {
    let mut store = Store::new();
    save_payment(&mut store, entry("B", 50));
    let slow = Cycle { decoded: Some(payment(B, 50)), primary: Reply::TimedOut, fallback: Reply::Status(201) };
    run_cycle(&mut store, &slow);
    assert_eq!(store.read_summary(Service::Fallback), Ok(ServiceCounters { total_requests: 1, total_amount: 50 }));
}

#[test]
fn requeued_entry_goes_behind_later_entries() {
    let mut store = Store::new();
    save_payment(&mut store, entry("C", 10));
    save_payment(&mut store, entry("A", 100));
    run_cycle(&mut store, &cycle(Some(payment(C, 10)), 500, 500));
    assert_eq!(store.dequeue(), Ok(Some(entry("A", 100))));
    assert_eq!(store.dequeue(), Ok(Some(entry("C", 10))));
    assert_eq!(store.dequeue(), Ok(None));
}

#[test]
fn requeued_entry_is_retried_without_end() {
    let mut store = Store::new();
    save_payment(&mut store, entry("C", 10));
    let mut script = Vec::new();
    for _ in 0..25 {
        script.push(cycle(Some(payment(C, 10)), 500, 500));
    }
    new_payments_worker(&mut store, &script);
    assert_eq!(store.queue_len(), 1);
    assert_eq!(store.record_count(), 0);
    run_cycle(&mut store, &cycle(Some(payment(C, 10)), 500, 204));
    assert_eq!(store.queue_len(), 0);
    assert_eq!(store.record(C), Some(entry("C", 10)));
    assert_eq!(store.read_summary(Service::Fallback), Ok(ServiceCounters { total_requests: 1, total_amount: 10 }));
}

#[test]
fn undecodable_entry_is_dropped_for_good() {
    let mut store = Store::new();
    save_payment(&mut store, "{not json".to_string());
    run_cycle(&mut store, &cycle(None, 200, 200));
    assert_eq!(store.queue_len(), 0);
    assert_eq!(store.record_count(), 0);
    assert_eq!(store.read_summary(Service::Default), Ok(ServiceCounters { total_requests: 0, total_amount: 0 }));
}

#[test]
fn payment_without_a_calendar_date_is_dropped() {
    let mut store = Store::new();
    save_payment(&mut store, entry("A", 100));
    let beyond = Payment { correlation_id: A, amount: 100, timestamp: Timestamp { secs: i64::MAX, nanos: 0 } };
    run_cycle(&mut store, &cycle(Some(beyond), 200, 200));
    assert_eq!(store.queue_len(), 0);
    assert_eq!(store.record_count(), 0);
}

#[test]
fn cycle_on_an_empty_queue_changes_nothing() {
    let mut store = Store::new();
    run_cycle(&mut store, &cycle(Some(payment(A, 100)), 200, 200));
    assert_eq!(store.queue_len(), 0);
    assert_eq!(store.record_count(), 0);
    assert_eq!(store.read_summary(Service::Default), Ok(ServiceCounters { total_requests: 0, total_amount: 0 }));
}

#[test]
fn cycle_on_an_unreachable_store_changes_nothing() {
    let mut store = Store::new();
    save_payment(&mut store, entry("A", 100));
    store.set_available(false);
    run_cycle(&mut store, &cycle(Some(payment(A, 100)), 200, 200));
    store.set_available(true);
    assert_eq!(store.queue_len(), 1);
    assert_eq!(store.record_count(), 0);
}

#[test]
fn every_queued_payment_is_settled_in_order_while_services_accept() {
    let mut store = Store::new();
    save_payment(&mut store, entry("A", 100));
    save_payment(&mut store, entry("D", -5));
    save_payment(&mut store, entry("B", 50));
    let script = vec![
        cycle(Some(payment(A, 100)), 200, 200),
        cycle(Some(payment(D, -5)), 200, 200),
        cycle(Some(payment(B, 50)), 200, 200),
    ];
    new_payments_worker(&mut store, &script);
    assert_eq!(store.queue_len(), 0);
    assert_eq!(store.record(A), Some(entry("A", 100)));
    assert_eq!(store.record(B), Some(entry("B", 50)));
    assert_eq!(store.record(D), None);
    assert_eq!(store.read_summary(Service::Default), Ok(ServiceCounters { total_requests: 2, total_amount: 150 }));
    assert_eq!(store.read_summary(Service::Fallback), Ok(ServiceCounters { total_requests: 0, total_amount: 0 }));
}

#[test]
fn totals_never_fall_over_a_mixed_run() {
    let mut store = Store::new();
    let amounts = [100i64, -5, 50, 10, 0, 7];
    let replies = [(200u16, 200u16), (200, 200), (500, 200), (500, 500), (200, 200), (422, 500)];
    for (i, amount) in amounts.iter().enumerate() {
        save_payment(&mut store, entry("X", *amount));
        let before_default = store.read_summary(Service::Default).unwrap();
        let before_fallback = store.read_summary(Service::Fallback).unwrap();
        run_cycle(&mut store, &cycle(Some(payment(i as u128, *amount)), replies[i].0, replies[i].1));
        let after_default = store.read_summary(Service::Default).unwrap();
        let after_fallback = store.read_summary(Service::Fallback).unwrap();
        assert!(after_default.total_requests >= before_default.total_requests);
        assert!(after_default.total_amount >= before_default.total_amount);
        assert!(after_fallback.total_requests >= before_fallback.total_requests);
        assert!(after_fallback.total_amount >= before_fallback.total_amount);
    }
    assert_eq!(store.read_summary(Service::Default), Ok(ServiceCounters { total_requests: 2, total_amount: 107 }));
    assert_eq!(store.read_summary(Service::Fallback), Ok(ServiceCounters { total_requests: 1, total_amount: 50 }));
}

#[test]
fn dispatch_of_an_entry_already_off_the_queue() {
    let mut store = Store::new();
    process_single_payment(&mut store, entry("A", 100), &cycle(Some(payment(A, 100)), 500, 500));
    assert_eq!(store.queue_len(), 1);
    process_single_payment(&mut store, entry("B", 50), &cycle(Some(payment(B, 50)), 200, 500));
    assert_eq!(store.queue_len(), 1);
    assert_eq!(store.record(B), Some(entry("B", 50)));
    assert_eq!(store.read_summary(Service::Default), Ok(ServiceCounters { total_requests: 1, total_amount: 50 }));
}

#[test]
fn settling_the_same_id_twice_keeps_one_record() {
    let mut store = Store::new();
    save_payment(&mut store, entry("A", 100));
    save_payment(&mut store, entry("A", 100));
    run_cycle(&mut store, &cycle(Some(payment(A, 100)), 200, 200));
    run_cycle(&mut store, &cycle(Some(payment(A, 100)), 422, 200));
    assert_eq!(store.record_count(), 1);
    assert_eq!(store.read_summary(Service::Default), Ok(ServiceCounters { total_requests: 2, total_amount: 200 }));
}
