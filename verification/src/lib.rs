//! Deferred settlement of payments through a primary and a fallback service.
//!
//! Payments are taken in, queued, and handed one at a time to a dispatch
//! worker, which tries the primary service, then the fallback, and either
//! records the settlement or puts the entry back at the end of the queue.
//! This crate holds the decisions of that worker as a state machine, the
//! bookkeeping of settled payments, and a model of the store with which the
//! whole can be run without a network.

pub mod gateway;
pub mod instant;
pub mod keys;
pub mod payment;
pub mod worker;
pub mod store;
pub mod dispatch;
pub mod summary;
pub mod handlers;
pub mod laws;
