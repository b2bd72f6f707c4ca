//! The store in memory: the queue of pending entries, the settled records
//! and the counters of the two services.
//!
//! It behaves as the backing store of a deployment is expected to: entries
//! leave the queue in the order in which they came, a record is written under
//! its correlation id, and every operation fails as a whole, changing
//! nothing, while the store is out of reach.

use crate::gateway::Service;
use crate::worker::credited;
use std::collections::HashMap;
use std::collections::VecDeque;
use vstd::prelude::*;

verus! {

/// The store could not be reached. The failure is passing: the same call may
/// succeed later.
#[derive(Clone, Copy, Debug, PartialEq, Eq, Structural)]
pub struct StoreUnavailable;

/// The running totals of one service.
#[derive(Clone, Copy, Debug, PartialEq, Eq, Structural)]
pub struct ServiceCounters {
    /// How many payments the service has settled.
    pub total_requests: u32,
    /// The sum of the amounts that the service has settled, in minor units.
    pub total_amount: i64,
}

/// The store, held in memory.
pub struct Store {
    available: bool,
    queue: VecDeque<String>,
    records: HashMap<u128, String>,
    default_counters: ServiceCounters,
    fallback_counters: ServiceCounters,
}

/// What a store holds.
pub struct StoreView {
    /// Whether the store can be reached.
    pub available: bool,
    /// The entries awaiting dispatch, head first.
    pub queue: Seq<Seq<char>>,
    /// The settled records, by correlation id.
    pub records: Map<u128, Seq<char>>,
    /// The totals of the primary service.
    pub default_counters: ServiceCounters,
    /// The totals of the fallback service.
    pub fallback_counters: ServiceCounters,
}

/// The totals of a service that has settled nothing.
pub open spec fn zero_counters() -> ServiceCounters {
    ServiceCounters { total_requests: 0, total_amount: 0 }
}

/// The request count after one more settlement. A count at the end of its
/// range stays there.
pub open spec fn counted(total_requests: u32) -> u32 {
    if total_requests == u32::MAX {
        u32::MAX
    } else {
        (total_requests + 1) as u32
    }
}

impl StoreView {
    /// A reachable store that holds nothing.
    pub open spec fn empty() -> StoreView {
        StoreView {
            available: true,
            queue: Seq::empty(),
            records: Map::empty(),
            default_counters: zero_counters(),
            fallback_counters: zero_counters(),
        }
    }

    /// The totals of `service`.
    pub open spec fn counters(self, service: Service) -> ServiceCounters {
        match service {
            Service::Default => self.default_counters,
            Service::Fallback => self.fallback_counters,
        }
    }

    /// This store with the totals of `service` replaced.
    pub open spec fn with_counters(self, service: Service, counters: ServiceCounters) -> StoreView {
        match service {
            Service::Default => StoreView { default_counters: counters, ..self },
            Service::Fallback => StoreView { fallback_counters: counters, ..self },
        }
    }

    /// This store with `entry` appended to the queue.
    pub open spec fn enqueued(self, entry: Seq<char>) -> StoreView {
        StoreView { queue: self.queue.push(entry), ..self }
    }

    /// This store without the head of its queue.
    pub open spec fn dequeued(self) -> StoreView {
        StoreView { queue: self.queue.drop_first(), ..self }
    }

    /// This store with `payload` as the record of `correlation_id`.
    pub open spec fn recorded(self, correlation_id: u128, payload: Seq<char>) -> StoreView {
        StoreView { records: self.records.insert(correlation_id, payload), ..self }
    }

    /// This store with one more settlement counted for `service`.
    pub open spec fn requests_incremented(self, service: Service) -> StoreView {
        let before = self.counters(service);
        self.with_counters(
            service,
            ServiceCounters { total_requests: counted(before.total_requests), ..before },
        )
    }

    /// This store with the running amount of `service` set to `total`.
    pub open spec fn amount_written(self, service: Service, total: i64) -> StoreView {
        let before = self.counters(service);
        self.with_counters(service, ServiceCounters { total_amount: total, ..before })
    }

    /// This store after a settlement of `amount` is counted for `service`:
    /// one more request, and `amount` more in the running amount.
    pub open spec fn credited(self, service: Service, amount: i64) -> StoreView {
        let counted = self.requests_incremented(service);
        counted.amount_written(service, credited(counted.counters(service).total_amount, amount))
    }

    /// This store with everything removed and all counters at zero.
    pub open spec fn purged(self) -> StoreView {
        StoreView { available: self.available, ..Self::empty() }
    }
}

impl View for Store {
    type V = StoreView;

    closed spec fn view(&self) -> StoreView {
        StoreView {
            available: self.available,
            queue: self.queue@.map_values(|entry: String| entry@),
            records: self.records@.map_values(|payload: String| payload@),
            default_counters: self.default_counters,
            fallback_counters: self.fallback_counters,
        }
    }
}

impl Store {
    /// A reachable store that holds nothing.
    pub fn new() -> (store: Store)
        ensures
            store@ == StoreView::empty(),
    {
        let store = Store {
            available: true,
            queue: VecDeque::new(),
            records: HashMap::new(),
            default_counters: ServiceCounters { total_requests: 0, total_amount: 0 },
            fallback_counters: ServiceCounters { total_requests: 0, total_amount: 0 },
        };
        assert(store@.queue =~= Seq::empty());
        assert(store@.records =~= Map::empty());
        store
    }

    /// Puts the store within or out of reach. What it holds stays.
    pub fn set_available(&mut self, available: bool)
        ensures
            final(self)@ == (StoreView { available, ..old(self)@ }),
    {
        self.available = available;
    }

    /// Whether the store can be reached.
    pub fn is_available(&self) -> (available: bool)
        ensures
            available == self@.available,
    {
        self.available
    }

    /// How many entries await dispatch.
    pub fn queue_len(&self) -> (len: usize)
        ensures
            len == self@.queue.len(),
    {
        self.queue.len()
    }

    /// The settled record of `correlation_id`, if there is one.
    pub fn record(&self, correlation_id: u128) -> (payload: Option<String>)
        ensures
            payload.is_some() == self@.records.contains_key(correlation_id),
            payload matches Some(text) ==> text@ == self@.records[correlation_id],
    {
        broadcast use vstd::std_specs::hash::group_hash_axioms;

        match self.records.get(&correlation_id) {
            Some(text) => Some(text.clone()),
            None => None,
        }
    }

    /// How many settled records the store holds.
    pub fn record_count(&self) -> (count: usize)
        ensures
            count == self@.records.len(),
    {
        broadcast use vstd::std_specs::hash::group_hash_axioms;

        assert(self@.records.dom() =~= self.records@.dom());
        self.records.len()
    }

    /// Appends `entry` to the end of the queue. The entries already there
    /// keep their order. Fails, changing nothing, exactly where the store is
    /// out of reach.
    pub fn enqueue(&mut self, entry: String) -> (done: Result<(), StoreUnavailable>)
        ensures
            done.is_ok() == old(self)@.available,
            final(self)@ == (if old(self)@.available {
                old(self)@.enqueued(entry@)
            } else {
                old(self)@
            }),
    {
        if !self.available {
            return Err(StoreUnavailable);
        }
        self.queue.push_back(entry);
        assert(self@.queue =~= old(self)@.queue.push(entry@));
        Ok(())
    }

    /// Removes the head of the queue and returns it, or `None` where the
    /// queue is empty. Fails, changing nothing, exactly where the store is
    /// out of reach.
    pub fn dequeue(&mut self) -> (head: Result<Option<String>, StoreUnavailable>)
        ensures
            head.is_ok() == old(self)@.available,
            head matches Ok(Some(entry)) ==> old(self)@.queue.len() > 0 && entry@ == old(
                self,
            )@.queue[0] && final(self)@ == old(self)@.dequeued(),
            head matches Ok(None) ==> old(self)@.queue.len() == 0 && final(self)@ == old(self)@,
            head is Err ==> final(self)@ == old(self)@,
    {
        if !self.available {
            return Err(StoreUnavailable);
        }
        let head = self.queue.pop_front();
        proof {
            if head.is_some() {
                assert(self@.queue =~= old(self)@.queue.drop_first());
            }
        }
        Ok(head)
    }

    /// Writes `payload` as the settled record of `correlation_id`, in place
    /// of any record that was there. Fails, changing nothing, exactly where
    /// the store is out of reach.
    pub fn record_settlement(&mut self, correlation_id: u128, payload: String) -> (done: Result<
        (),
        StoreUnavailable,
    >)
        ensures
            done.is_ok() == old(self)@.available,
            final(self)@ == (if old(self)@.available {
                old(self)@.recorded(correlation_id, payload@)
            } else {
                old(self)@
            }),
    {
        broadcast use vstd::std_specs::hash::group_hash_axioms;

        if !self.available {
            return Err(StoreUnavailable);
        }
        self.records.insert(correlation_id, payload);
        assert(self@.records =~= old(self)@.records.insert(correlation_id, payload@));
        Ok(())
    }

    /// Counts one more settled payment for `service`. Fails, changing
    /// nothing, exactly where the store is out of reach.
    pub fn increment_requests(&mut self, service: Service) -> (done: Result<(), StoreUnavailable>)
        ensures
            done.is_ok() == old(self)@.available,
            final(self)@ == (if old(self)@.available {
                old(self)@.requests_incremented(service)
            } else {
                old(self)@
            }),
    {
        if !self.available {
            return Err(StoreUnavailable);
        }
        match service {
            Service::Default => {
                if self.default_counters.total_requests < u32::MAX {
                    self.default_counters.total_requests = self.default_counters.total_requests + 1;
                }
            },
            Service::Fallback => {
                if self.fallback_counters.total_requests < u32::MAX {
                    self.fallback_counters.total_requests = self.fallback_counters.total_requests
                        + 1;
                }
            },
        }
        Ok(())
    }

    /// The running amount of `service`. Fails exactly where the store is out
    /// of reach.
    pub fn read_amount(&self, service: Service) -> (total: Result<i64, StoreUnavailable>)
        ensures
            total.is_ok() == self@.available,
            total matches Ok(amount) ==> amount == self@.counters(service).total_amount,
    {
        if !self.available {
            return Err(StoreUnavailable);
        }
        match service {
            Service::Default => Ok(self.default_counters.total_amount),
            Service::Fallback => Ok(self.fallback_counters.total_amount),
        }
    }

    /// Sets the running amount of `service` to `total`. Fails, changing
    /// nothing, exactly where the store is out of reach.
    pub fn write_amount(&mut self, service: Service, total: i64) -> (done: Result<
        (),
        StoreUnavailable,
    >)
        ensures
            done.is_ok() == old(self)@.available,
            final(self)@ == (if old(self)@.available {
                old(self)@.amount_written(service, total)
            } else {
                old(self)@
            }),
    {
        if !self.available {
            return Err(StoreUnavailable);
        }
        match service {
            Service::Default => {
                self.default_counters.total_amount = total;
            },
            Service::Fallback => {
                self.fallback_counters.total_amount = total;
            },
        }
        Ok(())
    }

    /// Counts a settlement of `amount` for `service`: raises its request
    /// count by one, then reads its running amount and writes it back with
    /// `amount` added. Fails, changing nothing, exactly where the store is
    /// out of reach.
    pub fn increment_counters(&mut self, service: Service, amount: i64) -> (done: Result<
        (),
        StoreUnavailable,
    >)
        ensures
            done.is_ok() == old(self)@.available,
            final(self)@ == (if old(self)@.available {
                old(self)@.credited(service, amount)
            } else {
                old(self)@
            }),
    {
        match self.increment_requests(service) {
            Ok(()) => {},
            Err(unavailable) => {
                return Err(unavailable);
            },
        }
        match self.read_amount(service) {
            Ok(total) => self.write_amount(service, crate::worker::credit(total, amount)),
            Err(unavailable) => Err(unavailable),
        }
    }

    /// The totals of `service` as they stand. Fails exactly where the store
    /// is out of reach.
    pub fn read_summary(&self, service: Service) -> (totals: Result<
        ServiceCounters,
        StoreUnavailable,
    >)
        ensures
            totals.is_ok() == self@.available,
            totals matches Ok(counters) ==> counters == self@.counters(service),
    {
        if !self.available {
            return Err(StoreUnavailable);
        }
        match service {
            Service::Default => Ok(self.default_counters),
            Service::Fallback => Ok(self.fallback_counters),
        }
    }

    /// Empties the queue, removes every settled record and sets the counters
    /// of both services to zero. Fails, changing nothing, exactly where the
    /// store is out of reach.
    pub fn purge(&mut self) -> (done: Result<(), StoreUnavailable>)
        ensures
            done.is_ok() == old(self)@.available,
            final(self)@ == (if old(self)@.available {
                old(self)@.purged()
            } else {
                old(self)@
            }),
    {
        broadcast use vstd::std_specs::hash::group_hash_axioms;

        if !self.available {
            return Err(StoreUnavailable);
        }
        self.queue.clear();
        self.records.clear();
        self.default_counters = ServiceCounters { total_requests: 0, total_amount: 0 };
        self.fallback_counters = ServiceCounters { total_requests: 0, total_amount: 0 };
        assert(self@.queue =~= Seq::empty());
        assert(self@.records =~= Map::empty());
        Ok(())
    }
}

} // verus!
