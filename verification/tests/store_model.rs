use payment_dispatch::gateway::Service;
use payment_dispatch::handlers::{intake_status, purge_payments, purge_status, save_payment};
use payment_dispatch::store::{ServiceCounters, Store, StoreUnavailable};

fn counters(total_requests: u32, total_amount: i64) -> ServiceCounters {
    ServiceCounters { total_requests, total_amount }
}

#[test]
fn new_store_is_reachable_and_empty() {
    let store = Store::new();
    assert!(store.is_available());
    assert_eq!(store.queue_len(), 0);
    assert_eq!(store.record_count(), 0);
    assert_eq!(store.read_summary(Service::Default), Ok(counters(0, 0)));
    assert_eq!(store.read_summary(Service::Fallback), Ok(counters(0, 0)));
}

#[test]
fn queue_is_first_in_first_out() {
    let mut store = Store::new();
    assert_eq!(store.enqueue("one".to_string()), Ok(()));
    assert_eq!(store.enqueue("two".to_string()), Ok(()));
    assert_eq!(store.enqueue("three".to_string()), Ok(()));
    assert_eq!(store.queue_len(), 3);
    assert_eq!(store.dequeue(), Ok(Some("one".to_string())));
    assert_eq!(store.enqueue("four".to_string()), Ok(()));
    assert_eq!(store.dequeue(), Ok(Some("two".to_string())));
    assert_eq!(store.dequeue(), Ok(Some("three".to_string())));
    assert_eq!(store.dequeue(), Ok(Some("four".to_string())));
    assert_eq!(store.dequeue(), Ok(None));
    assert_eq!(store.queue_len(), 0);
}

#[test]
fn unreachable_store_fails_every_operation_and_keeps_its_content() {
    let mut store = Store::new();
    store.enqueue("one".to_string()).unwrap();
    store.record_settlement(7, "seven".to_string()).unwrap();
    store.increment_counters(Service::Default, 10).unwrap();
    store.set_available(false);
    assert!(!store.is_available());
    assert_eq!(store.enqueue("two".to_string()), Err(StoreUnavailable));
    assert_eq!(store.dequeue(), Err(StoreUnavailable));
    assert_eq!(store.record_settlement(8, "eight".to_string()), Err(StoreUnavailable));
    assert_eq!(store.increment_requests(Service::Default), Err(StoreUnavailable));
    assert_eq!(store.read_amount(Service::Default), Err(StoreUnavailable));
    assert_eq!(store.write_amount(Service::Default, 99), Err(StoreUnavailable));
    assert_eq!(store.increment_counters(Service::Fallback, 5), Err(StoreUnavailable));
    assert_eq!(store.read_summary(Service::Default), Err(StoreUnavailable));
    assert_eq!(store.purge(), Err(StoreUnavailable));
    store.set_available(true);
    assert_eq!(store.queue_len(), 1);
    assert_eq!(store.record(7), Some("seven".to_string()));
    assert_eq!(store.record(8), None);
    assert_eq!(store.read_summary(Service::Default), Ok(counters(1, 10)));
    assert_eq!(store.read_summary(Service::Fallback), Ok(counters(0, 0)));
}

#[test]
fn record_settlement_is_an_upsert() {
    let mut store = Store::new();
    assert_eq!(store.record_settlement(7, "first".to_string()), Ok(()));
    assert_eq!(store.record_settlement(7, "second".to_string()), Ok(()));
    assert_eq!(store.record_settlement(9, "other".to_string()), Ok(()));
    assert_eq!(store.record_count(), 2);
    assert_eq!(store.record(7), Some("second".to_string()));
    assert_eq!(store.record(9), Some("other".to_string()));
    assert_eq!(store.record(8), None);
}

#[test]
fn increment_counters_touches_one_service() {
    let mut store = Store::new();
    assert_eq!(store.increment_counters(Service::Fallback, 50), Ok(()));
    assert_eq!(store.increment_counters(Service::Fallback, 25), Ok(()));
    assert_eq!(store.increment_counters(Service::Default, 100), Ok(()));
    assert_eq!(store.read_summary(Service::Fallback), Ok(counters(2, 75)));
    assert_eq!(store.read_summary(Service::Default), Ok(counters(1, 100)));
    assert_eq!(store.read_amount(Service::Fallback), Ok(75));
}

#[test]
fn the_two_steps_of_an_increment_can_be_taken_apart() {
    let mut store = Store::new();
    assert_eq!(store.increment_requests(Service::Default), Ok(()));
    assert_eq!(store.read_summary(Service::Default), Ok(counters(1, 0)));
    assert_eq!(store.write_amount(Service::Default, 40), Ok(()));
    assert_eq!(store.read_summary(Service::Default), Ok(counters(1, 40)));
    assert_eq!(store.read_summary(Service::Fallback), Ok(counters(0, 0)));
}

#[test]
fn counters_stay_at_the_end_of_their_range() {
    let mut store = Store::new();
    store.write_amount(Service::Default, i64::MAX - 1).unwrap();
    store.increment_counters(Service::Default, 10).unwrap();
    assert_eq!(store.read_summary(Service::Default), Ok(counters(1, i64::MAX)));
}

#[test]
fn purge_clears_queue_records_and_counters() {
    let mut store = Store::new();
    store.enqueue("one".to_string()).unwrap();
    store.record_settlement(7, "seven".to_string()).unwrap();
    store.increment_counters(Service::Default, 10).unwrap();
    store.increment_counters(Service::Fallback, 20).unwrap();
    assert_eq!(store.purge(), Ok(()));
    assert!(store.is_available());
    assert_eq!(store.queue_len(), 0);
    assert_eq!(store.record_count(), 0);
    assert_eq!(store.record(7), None);
    assert_eq!(store.read_summary(Service::Default), Ok(counters(0, 0)));
    assert_eq!(store.read_summary(Service::Fallback), Ok(counters(0, 0)));
}

#[test]
fn intake_answers_by_the_fate_of_the_append() {
    assert_eq!(intake_status(Ok(())), 202);
    assert_eq!(intake_status(Err(StoreUnavailable)), 500);
    let mut store = Store::new();
    assert_eq!(save_payment(&mut store, "one".to_string()), 202);
    store.set_available(false);
    assert_eq!(save_payment(&mut store, "two".to_string()), 500);
    store.set_available(true);
    assert_eq!(store.queue_len(), 1);
    assert_eq!(store.dequeue(), Ok(Some("one".to_string())));
}

#[test]
fn purge_answers_by_the_fate_of_the_clearing() {
    assert_eq!(purge_status(Ok(())), 200);
    assert_eq!(purge_status(Err(StoreUnavailable)), 500);
    let mut store = Store::new();
    store.enqueue("one".to_string()).unwrap();
    store.set_available(false);
    assert_eq!(purge_payments(&mut store), 500);
    store.set_available(true);
    assert_eq!(store.queue_len(), 1);
    assert_eq!(purge_payments(&mut store), 200);
    assert_eq!(store.queue_len(), 0);
}
