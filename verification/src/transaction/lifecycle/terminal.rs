//! Terminal decisions, proposals and the completion.

use crate::identity::TransactionId;
use crate::transaction::types::{
    ChannelId, SessionId, TerminalEventDelivery, TransactionEndEvent, TransactionEndKind,
    TransactionUsage,
};
use vstd::prelude::*;

verus! {

/// Terminal decision selected by the supervisor.
#[derive(Clone, Copy, Debug, PartialEq, Eq, Structural)]
pub struct TerminalDecision {
    /// Selected end kind.
    pub kind: TransactionEndKind,
}

impl TerminalDecision {
    /// Construct a decision.
    pub fn new(kind: TransactionEndKind) -> (r: Self)
        ensures
            r.kind == kind,
    {
        TerminalDecision { kind }
    }
}

/// Coordinator proposal; the supervisor accepts or upgrades it.
#[derive(Clone, Copy, Debug, PartialEq, Eq, Structural)]
pub struct TerminalProposal {
    /// Proposed primary cause.
    pub kind: TransactionEndKind,
}

impl TerminalProposal {
    /// Construct a proposal.
    pub fn new(kind: TransactionEndKind) -> (r: Self)
        ensures
            r.kind == kind,
    {
        TerminalProposal { kind }
    }
}

/// What is still owned when a completion is published.
#[derive(Clone, Copy, Debug, PartialEq, Eq, Structural)]
pub enum CleanupStatus {
    /// Work may remain.
    Pending {
        /// Tasks.
        owned_tasks: u32,
        /// Processes.
        owned_processes: u32,
        /// Tools that end on their own.
        cooperative_tools: u32,
    },
}

/// The one completion of a transaction.
#[derive(Clone, Debug)]
pub struct TransactionCompletion {
    /// The end.
    pub end: TransactionEndEvent,
    /// How the terminal event was delivered.
    pub terminal_event_delivery: TerminalEventDelivery,
    /// What is still owned.
    pub cleanup: CleanupStatus,
}

/// Build a completion mailbox payload.
pub fn build_completion(
    end: TransactionEndEvent,
    terminal_event_delivery: TerminalEventDelivery,
    cleanup: CleanupStatus,
) -> (r: TransactionCompletion)
    ensures
        r == (TransactionCompletion { end, terminal_event_delivery, cleanup }),
{
    TransactionCompletion { end, terminal_event_delivery, cleanup }
}

/// Whether an end has exactly these parts and no diagnostics.
pub open spec fn is_end(
    end: TransactionEndEvent,
    transaction_id: TransactionId,
    channel_id: ChannelId,
    session_id: Option<SessionId>,
    kind: TransactionEndKind,
    emitted_events: u64,
) -> bool {
    &&& end.transaction_id == transaction_id
    &&& end.session_id == session_id
    &&& end.channel_id == channel_id
    &&& end.kind == kind
    &&& end.emitted_events == emitted_events
    &&& end.diagnostics@.len() == 0
}

/// Build a terminal event body.
pub fn end_event(
    transaction_id: TransactionId,
    channel_id: ChannelId,
    session_id: Option<SessionId>,
    kind: TransactionEndKind,
    emitted_events: u64,
) -> (r: TransactionEndEvent)
    ensures
        is_end(r, transaction_id, channel_id, session_id, kind, emitted_events),
{
    TransactionEndEvent {
        transaction_id,
        session_id,
        channel_id,
        kind,
        emitted_events,
        usage: TransactionUsage,
        diagnostics: Vec::new(),
    }
}

} // verus!
