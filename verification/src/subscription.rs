//! Lossless delivery of interpreter events to one loop.
//!
//! Deliveries carry a sequence number that starts at 1 and grows by 1.

use crate::contracts::InterpreterOutputEvent;
use vstd::prelude::*;

verus! {

/// Subscriber identity (correlation only).
#[derive(Debug, Eq, Hash)]
pub struct SubscriberId(String);

impl PartialEq for SubscriberId {
    fn eq(&self, other: &Self) -> (r: bool) {
        self.0 == other.0
    }
}

impl vstd::std_specs::cmp::PartialEqSpecImpl for SubscriberId {
    open spec fn obeys_eq_spec() -> bool {
        true
    }

    open spec fn eq_spec(&self, other: &Self) -> bool {
        self@ == other@
    }
}

impl View for SubscriberId {
    type V = Seq<char>;

    closed spec fn view(&self) -> Seq<char> {
        self.0@
    }
}

impl Clone for SubscriberId {
    fn clone(&self) -> (r: Self)
        ensures
            r@ == self@,
    {
        SubscriberId(self.0.clone())
    }
}

impl SubscriberId {
    /// Create a subscriber id.
    pub fn new(value: String) -> (r: Self)
        ensures
            r@ == value@,
    {
        SubscriberId(value)
    }

    /// Borrow the id.
    pub fn as_str(&self) -> (r: &str)
        ensures
            r@ == self@,
    {
        self.0.as_str()
    }
}

/// Gap details.
#[derive(Clone, Copy, Debug, PartialEq, Eq, Structural)]
pub struct SubscriptionGap {
    /// Expected next sequence.
    pub expected: u64,
    /// Observed sequence (if any).
    pub observed: Option<u64>,
}

/// Subscription status / gap notification.
#[derive(Clone, Copy, Debug, PartialEq, Eq, Structural)]
pub enum SubscriptionStatus {
    /// Source opened.
    Opened,
    /// Source ending cleanly.
    Closing,
    /// Delivery sequence gap detected.
    Gap(SubscriptionGap),
    /// Source lost without clean end.
    Lost,
}

/// One delivered event with explicit delivery sequence.
#[derive(Clone, Debug)]
pub struct DeliveredEvent {
    /// Monotonic delivery sequence (1-based) from the distributor.
    pub delivery_sequence: u64,
    /// Canonical interpreter event (unit or end).
    pub event: InterpreterOutputEvent,
}

/// Publisher half: it numbers what it delivers.
pub struct SubscriptionPublisher {
    next_seq: u64,
}

impl SubscriptionPublisher {
    /// The number that the next delivery gets.
    pub closed spec fn next(self) -> u64 {
        self.next_seq
    }

    /// A fresh publisher, and the bound of the queue to its subscriber.
    pub fn channel(capacity: usize) -> (r: (Self, usize))
        ensures
            r.0.next() == 1,
            r.1 == (if capacity == 0 {
                1
            } else {
                capacity
            }),
    {
        let bound: usize = if capacity == 0 {
            1
        } else {
            capacity
        };
        (SubscriptionPublisher { next_seq: 1 }, bound)
    }

    /// Numbers one event. The counter wraps after the last number.
    pub fn publish(&mut self, event: InterpreterOutputEvent) -> (r: DeliveredEvent)
        ensures
            r.delivery_sequence == old(self).next(),
            r.event == event,
            final(self).next() == (if old(self).next() == u64::MAX {
                0
            } else {
                (old(self).next() + 1) as u64
            }),
    {
        let seq: u64 = self.next_seq;
        self.next_seq = seq.wrapping_add(1);
        DeliveredEvent { delivery_sequence: seq, event }
    }

    /// The status that reports a gap. It takes no sequence number.
    pub fn signal_gap(&self, expected: u64, observed: Option<u64>) -> (r: SubscriptionStatus)
        ensures
            r == SubscriptionStatus::Gap(SubscriptionGap { expected, observed }),
    {
        SubscriptionStatus::Gap(SubscriptionGap { expected, observed })
    }

    /// The status that reports a lost source. It takes no sequence number.
    pub fn signal_lost(&self) -> (r: SubscriptionStatus)
        ensures
            r == SubscriptionStatus::Lost,
    {
        SubscriptionStatus::Lost
    }
}

} // verus!
