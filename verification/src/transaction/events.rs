//! Event queue: byte budget, ordered publication, sequential delivery.

use crate::identity::TransactionId;
use crate::transaction::finalization::EventSequencer;
use crate::transaction::types::{ChannelId, SessionId, TransactionEvent, TransactionEventPayload};
use vstd::prelude::*;

verus! {

/// Event queue rejection.
#[derive(Clone, Copy, Debug, PartialEq, Eq, Structural)]
pub enum EventQueueFull {
    /// Byte budget exceeded.
    Bytes,
    /// Receiver closed.
    Closed,
}

/// Size that an event counts for; `encoded` is the size of its JSON text,
/// where it has one.
pub fn estimate_event_bytes(encoded: Option<usize>) -> (r: usize)
    ensures
        r == (match encoded {
            Some(n) => if n < 64 {
                64
            } else {
                n
            },
            None => 256,
        }),
{
    match encoded {
        Some(n) => {
            if n < 64 {
                64
            } else {
                n
            }
        },
        None => 256,
    }
}

/// Byte budget of an event queue.
#[derive(Clone, Copy, Debug, PartialEq, Eq, Structural)]
pub struct BoundedEventSender {
    /// Bytes queued.
    pub queued_bytes: usize,
    /// Most bytes queued.
    pub max_bytes: usize,
}

/// Bytes that are reserved for an event on its way into the queue.
#[derive(Debug, PartialEq, Eq, Structural)]
pub struct ByteReservation {
    /// Bytes.
    pub bytes: usize,
    /// Whether they are given back, or belong to the queue.
    pub released: bool,
}

/// A queue with more bytes reserved.
pub open spec fn with_reserved(q: BoundedEventSender, bytes: usize) -> BoundedEventSender {
    BoundedEventSender { queued_bytes: (q.queued_bytes + bytes) as usize, ..q }
}

/// A queue that got the bytes of a reservation back, unless they are released.
pub open spec fn given_back(q: BoundedEventSender, r: ByteReservation) -> BoundedEventSender {
    if r.released {
        q
    } else {
        BoundedEventSender { queued_bytes: (q.queued_bytes - r.bytes) as usize, ..q }
    }
}

/// A queue that an event left.
pub open spec fn with_left(q: BoundedEventSender, bytes: usize) -> BoundedEventSender {
    BoundedEventSender {
        queued_bytes: if bytes < q.queued_bytes {
            (q.queued_bytes - bytes) as usize
        } else {
            0
        },
        ..q
    }
}

/// The sequence after one; after the last machine number comes 0.
pub open spec fn sequence_after(sequence: u64) -> u64 {
    if sequence == u64::MAX {
        0
    } else {
        (sequence + 1) as u64
    }
}

impl ByteReservation {
    /// Gives the bytes back, once.
    pub fn release(&mut self, queue: &mut BoundedEventSender)
        requires
            !old(self).released ==> old(queue).queued_bytes >= old(self).bytes,
        ensures
            final(self).released,
            final(self).bytes == old(self).bytes,
            *final(queue) == given_back(*old(queue), *old(self)),
    {
        if !self.released {
            queue.queued_bytes = queue.queued_bytes - self.bytes;
            self.released = true;
        }
    }
}

impl BoundedEventSender {
    /// Whether the bytes queued are within the budget.
    pub open spec fn wf(&self) -> bool {
        self.queued_bytes <= self.max_bytes && self.max_bytes >= 1
    }

    /// An empty queue; a budget of 0 counts as 1.
    pub fn new(max_bytes: usize) -> (r: Self)
        ensures
            r.wf(),
            r.queued_bytes == 0,
            r.max_bytes == (if max_bytes == 0 {
                1
            } else {
                max_bytes
            }),
    {
        BoundedEventSender {
            queued_bytes: 0,
            max_bytes: if max_bytes == 0 {
                1
            } else {
                max_bytes
            },
        }
    }

    /// Reserves bytes for an event, or refuses it.
    pub fn reserve(&mut self, bytes: usize) -> (r: Result<ByteReservation, EventQueueFull>)
        requires
            old(self).wf(),
            old(self).queued_bytes + bytes <= usize::MAX || old(self).max_bytes < usize::MAX,
        ensures
            final(self).wf(),
            old(self).queued_bytes + bytes > old(self).max_bytes ==> r == Err::<
                ByteReservation,
                EventQueueFull,
            >(EventQueueFull::Bytes) && *final(self) == *old(self),
            old(self).queued_bytes + bytes <= old(self).max_bytes ==> r == Ok::<
                ByteReservation,
                EventQueueFull,
            >(ByteReservation { bytes, released: false }) && *final(self) == with_reserved(
                *old(self),
                bytes,
            ),
    {
        if self.queued_bytes.saturating_add(bytes) > self.max_bytes {
            return Err(EventQueueFull::Bytes);
        }
        self.queued_bytes = self.queued_bytes + bytes;
        Ok(ByteReservation { bytes, released: false })
    }

    /// The queue took the event, or is closed. Taken bytes stay until the
    /// event is delivered; others are given back.
    pub fn sent(&mut self, reservation: ByteReservation, taken: bool) -> (r: Result<
        (),
        EventQueueFull,
    >)
        requires
            old(self).wf(),
            !reservation.released,
            old(self).queued_bytes >= reservation.bytes,
        ensures
            final(self).wf(),
            taken ==> r is Ok && *final(self) == *old(self),
            !taken ==> r == Err::<(), EventQueueFull>(EventQueueFull::Closed) && *final(self)
                == given_back(*old(self), reservation),
    {
        if taken {
            return Ok(());
        }
        let mut reservation = reservation;
        reservation.release(self);
        Err(EventQueueFull::Closed)
    }

    /// An event left the queue.
    pub fn left(&mut self, bytes: usize)
        requires
            old(self).wf(),
        ensures
            final(self).wf(),
            *final(self) == with_left(*old(self), bytes),
    {
        self.queued_bytes = self.queued_bytes.saturating_sub(bytes);
    }
}

/// Publisher that numbers events in the order in which the queue takes them.
pub struct OrderedEventPublisher {
    sequencer: EventSequencer,
}

impl OrderedEventPublisher {
    /// The sequence that comes next.
    pub closed spec fn upcoming(&self) -> u64 {
        self.sequencer.upcoming()
    }

    /// A publisher over a sequencer.
    pub fn new(sequencer: EventSequencer) -> (r: Self)
        ensures
            r.upcoming() == sequencer.upcoming(),
    {
        OrderedEventPublisher { sequencer }
    }

    /// The sequencer.
    pub fn sequencer(&self) -> (r: &EventSequencer)
        ensures
            r.upcoming() == self.upcoming(),
    {
        &self.sequencer
    }

    /// The event to be put into the queue. Its sequence is not allocated yet.
    pub fn publish(
        &self,
        transaction_id: TransactionId,
        channel_id: ChannelId,
        session_id: SessionId,
        payload: TransactionEventPayload,
    ) -> (r: TransactionEvent)
        ensures
            r == (TransactionEvent {
                transaction_id,
                channel_id,
                session_id,
                sequence: self.upcoming(),
                payload,
            }),
    {
        TransactionEvent {
            transaction_id,
            channel_id,
            session_id,
            sequence: self.sequencer.peek_next(),
            payload,
        }
    }

    /// The queue took the event or not; only then is its sequence allocated.
    pub fn published(&mut self, outcome: Result<(), EventQueueFull>) -> (r: Result<
        u64,
        EventQueueFull,
    >)
        ensures
            match outcome {
                Ok(()) => r == Ok::<u64, EventQueueFull>(old(self).upcoming()) && final(
                    self).upcoming() == sequence_after(old(self).upcoming()),
                Err(e) => r == Err::<u64, EventQueueFull>(e) && final(self).upcoming() == old(
                    self).upcoming(),
            },
    {
        match outcome {
            Ok(()) => Ok(self.sequencer.allocate()),
            Err(e) => Err(e),
        }
    }
}

/// How handing an event to the sink went.
#[derive(Clone, Copy, Debug, PartialEq, Eq, Structural)]
pub enum SinkRun {
    /// The call panicked.
    CallPanicked,
    /// The delivery could not be started.
    NotStarted,
    /// The delivery answered.
    Answered {
        /// Whether the sink took the event.
        ok: bool,
    },
    /// The delivery panicked.
    Panicked,
    /// Out of time.
    TimedOut,
}

/// Whether the sink took the event: only its own word for it counts.
pub fn deliver_isolated(run: SinkRun) -> (r: bool)
    ensures
        r == (run == SinkRun::Answered { ok: true }),
{
    match run {
        SinkRun::Answered { ok } => ok,
        _ => false,
    }
}

/// What the delivery task does with an item that it took out of the queue.
#[derive(Clone, Copy, Debug, PartialEq, Eq, Structural)]
pub enum ItemAction {
    /// Hand it to the sink.
    Deliver,
    /// Throw it away; a waiter is told that it failed.
    Discard,
}

/// What the delivery task does after an item.
#[derive(Clone, Copy, Debug, PartialEq, Eq, Structural)]
pub struct AfterItem {
    /// What a waiter is told, where there is one.
    pub ack_ok: bool,
    /// Whether the failure is signalled.
    pub signal_failure: bool,
}

/// Sequential delivery of the events of one transaction.
#[derive(Clone, Copy, Debug, PartialEq, Eq, Structural)]
pub struct DeliveryTask {
    /// Whether an event was not taken.
    pub failed: bool,
}

/// What a delivery task does with the next item.
pub open spec fn item_action(t: DeliveryTask) -> ItemAction {
    if t.failed {
        ItemAction::Discard
    } else {
        ItemAction::Deliver
    }
}

/// A delivery task after an item was handed to the sink.
pub open spec fn after_delivery(t: DeliveryTask, ok: bool) -> DeliveryTask {
    DeliveryTask { failed: t.failed || !ok }
}

/// A delivery task after a number of items, each of which the sink would have
/// taken or not.
pub open spec fn after_items(t: DeliveryTask, takes: Seq<bool>) -> DeliveryTask
    decreases takes.len(),
{
    if takes.len() == 0 {
        t
    } else {
        let before = after_items(t, takes.drop_last());
        match item_action(before) {
            ItemAction::Deliver => after_delivery(before, takes.last()),
            ItemAction::Discard => before,
        }
    }
}

/// Sequences of the events that the queue took, out of those that were
/// published one after another.
pub open spec fn queued_sequences(upcoming: u64, taken: Seq<bool>) -> Seq<u64>
    decreases taken.len(),
{
    if taken.len() == 0 {
        Seq::empty()
    } else if taken[0] {
        seq![upcoming] + queued_sequences(sequence_after(upcoming), taken.drop_first())
    } else {
        queued_sequences(upcoming, taken.drop_first())
    }
}

impl DeliveryTask {
    /// Nothing failed.
    pub fn new() -> (r: Self)
        ensures
            !r.failed,
    {
        DeliveryTask { failed: false }
    }

    /// An item was taken out of the queue. After a failure nothing is delivered.
    pub fn on_item(&self) -> (r: ItemAction)
        ensures
            r == item_action(*self),
    {
        if self.failed {
            ItemAction::Discard
        } else {
            ItemAction::Deliver
        }
    }

    /// An item was handed to the sink; its bytes leave the queue. The first
    /// failure is signalled.
    pub fn on_delivered(
        &mut self,
        queue: &mut BoundedEventSender,
        bytes: usize,
        ok: bool,
    ) -> (r: AfterItem)
        requires
            old(queue).wf(),
        ensures
            final(queue).wf(),
            *final(queue) == with_left(*old(queue), bytes),
            *final(self) == after_delivery(*old(self), ok),
            r == (AfterItem { ack_ok: ok, signal_failure: !ok }),
    {
        queue.left(bytes);
        if !ok {
            self.failed = true;
        }
        AfterItem { ack_ok: ok, signal_failure: !ok }
    }

    /// An item was thrown away; its bytes leave the queue.
    pub fn on_discarded(&self, queue: &mut BoundedEventSender, bytes: usize) -> (r: AfterItem)
        requires
            old(queue).wf(),
        ensures
            final(queue).wf(),
            *final(queue) == with_left(*old(queue), bytes),
            r == (AfterItem { ack_ok: false, signal_failure: false }),
    {
        queue.left(bytes);
        AfterItem { ack_ok: false, signal_failure: false }
    }
}

/// Bytes reserved for an event that never reaches the queue come back, once.
pub proof fn abandoned_send_restores_the_queue(q: BoundedEventSender, bytes: usize)
    requires
        q.wf(),
        q.queued_bytes + bytes <= q.max_bytes,
    ensures
        ({
            let held = ByteReservation { bytes, released: false };
            let back = given_back(with_reserved(q, bytes), held);
            &&& back == q
            &&& given_back(back, ByteReservation { bytes, released: true }) == q
        }),
{
}

/// The events that the queue takes are numbered one after another, whatever
/// was refused between them.
pub proof fn queued_events_are_contiguous(upcoming: u64, taken: Seq<bool>, k: int)
    requires
        upcoming + taken.len() <= u64::MAX,
        0 <= k < queued_sequences(upcoming, taken).len(),
    ensures
        queued_sequences(upcoming, taken)[k] == upcoming + k,
    decreases taken.len(),
{
    let rest = taken.drop_first();
    if taken[0] {
        if k > 0 {
            queued_events_are_contiguous(sequence_after(upcoming), rest, k - 1);
        }
    } else {
        queued_events_are_contiguous(upcoming, rest, k);
    }
}

/// Nothing is delivered after an event that the sink did not take.
pub proof fn nothing_follows_a_failure(takes: Seq<bool>, i: int)
    requires
        0 <= i < takes.len(),
        !takes[i],
    ensures
        item_action(after_items(DeliveryTask { failed: false }, takes)) == ItemAction::Discard,
    decreases takes.len(),
{
    if i < takes.len() - 1 {
        assert(takes.drop_last()[i] == takes[i]);
        nothing_follows_a_failure(takes.drop_last(), i);
    }
}

/// While the sink takes every event, every event is delivered.
pub proof fn taken_events_are_delivered(takes: Seq<bool>)
    requires
        forall|i: int| 0 <= i < takes.len() ==> #[trigger] takes[i],
    ensures
        item_action(after_items(DeliveryTask { failed: false }, takes)) == ItemAction::Deliver,
    decreases takes.len(),
{
    if takes.len() > 0 {
        let before = takes.drop_last();
        assert forall|i: int| 0 <= i < before.len() implies #[trigger] before[i] by {
            assert(before[i] == takes[i]);
        }
        taken_events_are_delivered(before);
        assert(takes[takes.len() - 1]);
    }
}

} // verus!
