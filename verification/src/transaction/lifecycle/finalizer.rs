//! The finalizer of one transaction: seal the publisher, settle the kind of
//! the end, publish the one completion.

use crate::identity::TransactionId;
use crate::text::clone_opt;
use crate::transaction::lifecycle::event_publisher::TerminalPublicationResult;
use crate::transaction::lifecycle::ledger::{HeldPorts, LedgerEntry, TransactionPhase};
use crate::transaction::lifecycle::shared::{
    bumped, lemma_row_update, RuntimeCounters, RuntimeShared,
};
use crate::transaction::lifecycle::terminal::{
    build_completion, end_event, is_end, CleanupStatus, TerminalDecision, TransactionCompletion,
};
use crate::transaction::types::{
    ChannelId, SessionId, TerminalEventDelivery, TransactionEndEvent, TransactionEndKind,
};
use vstd::prelude::*;

verus! {

/// The longest time span, in nanoseconds.
pub const MAX_SPAN_NANOS: u128 = 18_446_744_073_709_551_615_999_999_999;

/// What a finalizer works with.
#[derive(Clone, Debug)]
pub struct FinalizerPlan {
    /// Channel.
    pub channel_id: ChannelId,
    /// Session when known.
    pub session_id: Option<SessionId>,
    /// Decided kind.
    pub kind: TransactionEndKind,
    /// Whether there is a mailbox for the completion.
    pub completion: bool,
}

/// How sealing the publisher went.
#[derive(Clone, Copy, Debug, PartialEq, Eq, Structural)]
pub enum SealOutcome {
    /// There is no publisher to seal.
    NoSeal,
    /// The publisher answered.
    Replied(TerminalPublicationResult),
    /// The publisher did not answer in time, or went away.
    NoReply,
    /// The seal channel is closed.
    Closed,
    /// Another seal is in the channel.
    Full,
}

/// How the end stands after sealing.
#[derive(Clone, Copy, Debug, PartialEq, Eq, Structural)]
pub struct SealedEnd {
    /// Kind of the end.
    pub kind: TransactionEndKind,
    /// How the terminal event was delivered.
    pub delivery: TerminalEventDelivery,
    /// Last event sequence.
    pub last_sequence: u64,
}

/// How handing over the completion went.
#[derive(Clone, Copy, Debug, PartialEq, Eq, Structural)]
pub enum CompletionPublishResult {
    /// The mailbox took it.
    Published,
    /// The mailbox took it, and nobody will read it.
    ReceiverDropped,
    /// The mailbox had one before.
    InvariantFailed,
}

/// Kind of the end that a row has.
pub open spec fn row_kind(e: LedgerEntry) -> TransactionEndKind {
    match e.terminal {
        Some(t) => t.kind,
        None => TransactionEndKind::InvariantFailed,
    }
}

/// A row whose finalizer has begun: admission is closed, and the completion
/// mailbox belongs to the finalizer.
pub open spec fn finalizing_row(e: LedgerEntry) -> LedgerEntry {
    LedgerEntry {
        phase: TransactionPhase::CleanupPending,
        ports: HeldPorts {
            delivery: e.ports.delivery && e.ports.completion,
            completion: false,
            admission: false,
            seal: e.ports.seal,
        },
        ..e
    }
}

/// What a seal outcome says of the terminal event.
pub open spec fn sealed_delivery(outcome: SealOutcome) -> (TerminalEventDelivery, u64) {
    match outcome {
        SealOutcome::NoSeal => (TerminalEventDelivery::NotAttempted, 0),
        SealOutcome::Replied(r) => (r.delivery, r.last_sequence),
        SealOutcome::NoReply => (TerminalEventDelivery::DeadlineExceeded, 0),
        SealOutcome::Closed => (TerminalEventDelivery::QueueClosed, 0),
        SealOutcome::Full => (TerminalEventDelivery::DeadlineExceeded, 0),
    }
}

/// Whether a delivery failed after it was attempted.
pub open spec fn delivery_failed(d: TerminalEventDelivery) -> bool {
    d == TerminalEventDelivery::LimitExceeded || d == TerminalEventDelivery::DeadlineExceeded || d
        == TerminalEventDelivery::QueueClosed
}

/// An end that claims success cannot stand on a truncated event stream.
pub open spec fn settled_kind(
    kind: TransactionEndKind,
    delivery: TerminalEventDelivery,
) -> TransactionEndKind {
    if delivery_failed(delivery) && (kind == TransactionEndKind::Completed || kind
        == TransactionEndKind::ContinuationRequired) {
        TransactionEndKind::EventDeliveryFailed
    } else {
        kind
    }
}

/// How the end stands after sealing.
pub open spec fn sealed_end(kind: TransactionEndKind, outcome: SealOutcome) -> SealedEnd {
    let d = sealed_delivery(outcome);
    SealedEnd { kind: settled_kind(kind, d.0), delivery: d.0, last_sequence: d.1 }
}

/// Counters after the completion was handed over, or had no mailbox.
pub open spec fn counted(
    c: RuntimeCounters,
    result: Option<CompletionPublishResult>,
) -> RuntimeCounters {
    match result {
        Some(CompletionPublishResult::Published) => RuntimeCounters {
            completions_published: bumped(c.completions_published),
            ..c
        },
        Some(CompletionPublishResult::ReceiverDropped) => RuntimeCounters {
            completions_published: bumped(c.completions_published),
            completions_receiver_dropped: bumped(c.completions_receiver_dropped),
            ..c
        },
        Some(CompletionPublishResult::InvariantFailed) => RuntimeCounters {
            completions_invariant_failed: bumped(c.completions_invariant_failed),
            ..c
        },
        None => RuntimeCounters {
            completions_invariant_failed: bumped(c.completions_invariant_failed),
            ..c
        },
    }
}

/// The finalizer takes over a row; without a row there is nothing to do.
pub fn begin_finalization(shared: &mut RuntimeShared, tx: TransactionId) -> (r: Option<
    FinalizerPlan,
>)
    requires
        old(shared).wf(),
    ensures
        final(shared).wf(),
        *final(shared) == (RuntimeShared { ledger: final(shared).ledger, ..*old(shared) }),
        match r {
            None => !old(shared).ledger@.dom().contains(tx) && final(shared).ledger@ == old(
                shared).ledger@,
            Some(plan) => {
                let e = old(shared).ledger@[tx];
                &&& old(shared).ledger@.dom().contains(tx)
                &&& final(shared).ledger@ == old(shared).ledger@.insert(tx, finalizing_row(e))
                &&& plan.channel_id == e.channel_id
                &&& plan.session_id == (match e.session_key {
                    Some(k) => Some(k.session_id),
                    None => None,
                })
                &&& plan.kind == row_kind(e)
                &&& plan.completion == (e.ports.completion || e.ports.delivery)
            },
        },
{
    let ghost rows = shared.ledger@;
    let plan: FinalizerPlan;
    match shared.ledger.get_mut(&tx) {
        None => {
            return None;
        },
        Some(entry) => {
            let kind = match entry.terminal {
                Some(t) => t.kind,
                None => TransactionEndKind::InvariantFailed,
            };
            let completion: bool = entry.ports.completion || entry.ports.delivery;
            let delivery: bool = entry.ports.delivery && entry.ports.completion;
            let seal: bool = entry.ports.seal;
            let session_id: Option<SessionId> = match &entry.session_key {
                Some(k) => Some(k.session_id.clone()),
                None => None,
            };
            plan = FinalizerPlan {
                channel_id: entry.channel_id.clone(),
                session_id,
                kind,
                completion,
            };
            entry.phase = TransactionPhase::CleanupPending;
            entry.ports = HeldPorts { delivery, completion: false, admission: false, seal };
        },
    }
    proof {
        lemma_row_update(rows, shared.pool@, tx, shared.ledger@[tx]);
    }
    Some(plan)
}

/// Body of the terminal event that the seal carries; the publisher fills in
/// the count of events.
pub fn seal_body(tx: TransactionId, plan: &FinalizerPlan) -> (r: TransactionEndEvent)
    ensures
        is_end(r, tx, plan.channel_id, plan.session_id, plan.kind, 0),
{
    end_event(tx, plan.channel_id.clone(), clone_opt(&plan.session_id), plan.kind, 0)
}

/// How long the finalizer waits for the publisher's answer: the budget of the
/// seal and 100 ms.
pub fn seal_wait_budget(seal_budget_nanos: u128) -> (r: u128)
    requires
        seal_budget_nanos <= MAX_SPAN_NANOS,
    ensures
        r == (if seal_budget_nanos + 100_000_000 > MAX_SPAN_NANOS {
            MAX_SPAN_NANOS as int
        } else {
            seal_budget_nanos + 100_000_000
        }),
{
    if seal_budget_nanos > MAX_SPAN_NANOS - 100_000_000 {
        MAX_SPAN_NANOS
    } else {
        seal_budget_nanos + 100_000_000
    }
}

/// Settles the kind of the end once the seal was answered. A kind that changes
/// is written to the row, if there still is one.
pub fn settle_after_seal(
    shared: &mut RuntimeShared,
    tx: TransactionId,
    kind: TransactionEndKind,
    outcome: SealOutcome,
) -> (r: SealedEnd)
    requires
        old(shared).wf(),
    ensures
        final(shared).wf(),
        *final(shared) == (RuntimeShared { ledger: final(shared).ledger, ..*old(shared) }),
        r == sealed_end(kind, outcome),
        final(shared).ledger@ == (if r.kind != kind && old(shared).ledger@.dom().contains(tx) {
            old(shared).ledger@.insert(
                tx,
                LedgerEntry {
                    terminal: Some(TerminalDecision { kind: r.kind }),
                    ..old(shared).ledger@[tx]
                },
            )
        } else {
            old(shared).ledger@
        }),
{
    let (delivery, last_sequence): (TerminalEventDelivery, u64) = match outcome {
        SealOutcome::NoSeal => (TerminalEventDelivery::NotAttempted, 0),
        SealOutcome::Replied(res) => (res.delivery, res.last_sequence),
        SealOutcome::NoReply => (TerminalEventDelivery::DeadlineExceeded, 0),
        SealOutcome::Closed => (TerminalEventDelivery::QueueClosed, 0),
        SealOutcome::Full => (TerminalEventDelivery::DeadlineExceeded, 0),
    };
    let failed: bool = delivery == TerminalEventDelivery::LimitExceeded || delivery
        == TerminalEventDelivery::DeadlineExceeded || delivery
        == TerminalEventDelivery::QueueClosed;
    if failed && (kind == TransactionEndKind::Completed || kind
        == TransactionEndKind::ContinuationRequired) {
        let settled = TransactionEndKind::EventDeliveryFailed;
        let ghost rows = shared.ledger@;
        match shared.ledger.get_mut(&tx) {
            Some(entry) => {
                entry.terminal = Some(TerminalDecision::new(settled));
            },
            None => {},
        }
        proof {
            if rows.dom().contains(tx) {
                lemma_row_update(rows, shared.pool@, tx, shared.ledger@[tx]);
            }
        }
        SealedEnd { kind: settled, delivery, last_sequence }
    } else {
        SealedEnd { kind, delivery, last_sequence }
    }
}

/// Builds the completion, and writes the last sequence to the row, if there
/// still is one.
pub fn complete(
    shared: &mut RuntimeShared,
    tx: TransactionId,
    plan: FinalizerPlan,
    sealed: SealedEnd,
    owned_processes: u32,
    cooperative_tools: u32,
) -> (r: TransactionCompletion)
    requires
        old(shared).wf(),
    ensures
        final(shared).wf(),
        *final(shared) == (RuntimeShared { ledger: final(shared).ledger, ..*old(shared) }),
        final(shared).ledger@ == (if old(shared).ledger@.dom().contains(tx) {
            old(shared).ledger@.insert(
                tx,
                LedgerEntry { event_sequence: sealed.last_sequence, ..old(shared).ledger@[tx] },
            )
        } else {
            old(shared).ledger@
        }),
        is_end(
            r.end,
            tx,
            plan.channel_id,
            plan.session_id,
            sealed.kind,
            sealed.last_sequence,
        ),
        r.terminal_event_delivery == sealed.delivery,
        r.cleanup == (CleanupStatus::Pending {
            owned_tasks: old(shared).owned_tasks,
            owned_processes,
            cooperative_tools,
        }),
{
    let ghost rows = shared.ledger@;
    match shared.ledger.get_mut(&tx) {
        Some(entry) => {
            entry.event_sequence = sealed.last_sequence;
        },
        None => {},
    }
    proof {
        if rows.dom().contains(tx) {
            lemma_row_update(rows, shared.pool@, tx, shared.ledger@[tx]);
        }
    }
    let end = end_event(tx, plan.channel_id, plan.session_id, sealed.kind, sealed.last_sequence);
    build_completion(
        end,
        sealed.delivery,
        CleanupStatus::Pending {
            owned_tasks: shared.owned_tasks,
            owned_processes,
            cooperative_tools,
        },
    )
}

/// Counts how the completion was handed over; `None` means that it had no mailbox.
pub fn count_completion(shared: &mut RuntimeShared, result: Option<CompletionPublishResult>)
    ensures
        *final(shared) == (RuntimeShared {
            counters: counted(old(shared).counters, result),
            ..*old(shared)
        }),
{
    match result {
        Some(CompletionPublishResult::Published) => {
            shared.counters.completions_published =
            shared.counters.completions_published.wrapping_add(1);
        },
        Some(CompletionPublishResult::ReceiverDropped) => {
            shared.counters.completions_published =
            shared.counters.completions_published.wrapping_add(1);
            shared.counters.completions_receiver_dropped =
            shared.counters.completions_receiver_dropped.wrapping_add(1);
        },
        Some(CompletionPublishResult::InvariantFailed) | None => {
            shared.counters.completions_invariant_failed =
            shared.counters.completions_invariant_failed.wrapping_add(1);
        },
    }
}

/// A transaction whose events were not all delivered never ends as a success.
pub proof fn truncated_stream_is_no_success(kind: TransactionEndKind, outcome: SealOutcome)
    requires
        delivery_failed(sealed_end(kind, outcome).delivery),
    ensures
        sealed_end(kind, outcome).kind != TransactionEndKind::Completed,
        sealed_end(kind, outcome).kind != TransactionEndKind::ContinuationRequired,
{
}

/// A kind that claims no success is not changed by delivery.
pub proof fn failure_kind_is_kept(kind: TransactionEndKind, outcome: SealOutcome)
    requires
        kind != TransactionEndKind::Completed,
        kind != TransactionEndKind::ContinuationRequired,
    ensures
        sealed_end(kind, outcome).kind == kind,
{
}

/// Each completion is counted once: as published, or as having no mailbox.
pub proof fn completion_is_counted_once(
    c: RuntimeCounters,
    result: Option<CompletionPublishResult>,
)
    requires
        c.completions_published < u64::MAX,
        c.completions_invariant_failed < u64::MAX,
    ensures
        counted(c, result).completions_published + counted(c, result).completions_invariant_failed
            == c.completions_published + c.completions_invariant_failed + 1,
{
}

} // verus!
