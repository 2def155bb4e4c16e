//! Values of the transaction boundary.

use crate::assoc::Key;
use crate::contracts::{CanonicalUnitEvent, ExternalSessionId, ToolActionId};
use crate::identity::{ExchangeId, TransactionId};
use crate::json::{clone_opt_json, JsonText};
use crate::text::utf8_len;
use vstd::prelude::*;
use vstd::string::StringExecFns;

verus! {

/// Identity of a channel.
pub type ChannelId = String;

/// Identity of a session.
pub type SessionId = String;

/// Identity of a tool.
pub type ToolId = String;

/// Name of a tool as a model states it.
pub type ToolName = String;

/// Identity that a provider gave to a tool call.
pub type ProviderToolCallId = String;

/// A session on a channel.
#[derive(Debug)]
pub struct SessionKey {
    /// Channel.
    pub channel_id: ChannelId,
    /// Session.
    pub session_id: SessionId,
}

impl View for SessionKey {
    type V = (Seq<char>, Seq<char>);

    open spec fn view(&self) -> (Seq<char>, Seq<char>) {
        (self.channel_id@, self.session_id@)
    }
}

impl Key for SessionKey {
    fn same(&self, other: &Self) -> (r: bool) {
        self.channel_id == other.channel_id && self.session_id == other.session_id
    }
}

impl Clone for SessionKey {
    fn clone(&self) -> (r: Self)
        ensures
            r == *self,
    {
        SessionKey { channel_id: self.channel_id.clone(), session_id: self.session_id.clone() }
    }
}

/// Why a transaction ended.
#[derive(Clone, Copy, Debug, PartialEq, Eq, Structural)]
pub enum TransactionEndKind {
    /// The model finished.
    Completed,
    /// The model asks for more than one transaction gives.
    ContinuationRequired,
    /// Cancelled by the caller.
    Cancelled,
    /// Forced to end.
    Terminated,
    /// Out of time.
    DeadlineExceeded,
    /// A bound was hit.
    LimitExceeded,
    /// The input could not be encoded.
    EncodingFailed,
    /// The channel could not be opened.
    ChannelOpenFailed,
    /// The connector failed.
    ConnectorFailed,
    /// The interpretation failed.
    InterpretationFailed,
    /// A tool exchange failed.
    ToolExchangeFailed,
    /// Events could not be delivered.
    EventDeliveryFailed,
    /// The runtime shut down.
    RuntimeShutdown,
    /// An internal rule was broken.
    InvariantFailed,
}

/// Usage facts of a transaction; none are collected.
#[derive(Clone, Copy, Debug, PartialEq, Eq, Structural)]
pub struct TransactionUsage;

/// A diagnostic that is safe to show.
#[derive(Clone, Debug)]
pub struct SafeDiagnostic {
    /// Stable code.
    pub code: String,
    /// Message.
    pub message: Option<String>,
}

/// Diagnostic of a transaction.
#[derive(Clone, Debug)]
pub struct TransactionDiagnostic {
    /// The diagnostic.
    pub diagnostic: SafeDiagnostic,
}

/// Terminal event body.
#[derive(Clone, Debug)]
pub struct TransactionEndEvent {
    /// Transaction.
    pub transaction_id: TransactionId,
    /// Session, where known.
    pub session_id: Option<SessionId>,
    /// Channel.
    pub channel_id: ChannelId,
    /// Why it ended.
    pub kind: TransactionEndKind,
    /// Events emitted, the terminal one among them.
    pub emitted_events: u64,
    /// Usage.
    pub usage: TransactionUsage,
    /// Diagnostics.
    pub diagnostics: Vec<TransactionDiagnostic>,
}

/// Output of a tool.
#[derive(Debug)]
pub enum CanonicalToolOutput {
    /// Plain text.
    Text(String),
    /// JSON.
    Json(JsonText),
}

/// Error that a tool reports about its own domain.
#[derive(Debug)]
pub struct CanonicalToolError {
    /// Stable code.
    pub code: String,
    /// Message.
    pub message: String,
    /// Further data.
    pub data: Option<JsonText>,
}

impl CanonicalToolError {
    /// An error whose message fits into a number of bytes.
    pub fn try_new(
        code: &str,
        message: &str,
        data: Option<JsonText>,
        max_message_bytes: usize,
    ) -> (r: Option<Self>)
        ensures
            r is Some <==> utf8_len(message@) <= max_message_bytes,
            r is Some ==> r->0.code@ == code@ && r->0.message@ == message@ && r->0.data == data,
    {
        if message.len() > max_message_bytes {
            return None;
        }
        Some(
            CanonicalToolError {
                code: String::from_str(code),
                message: String::from_str(message),
                data,
            },
        )
    }
}

/// How a tool call ended for the model.
#[derive(Debug)]
pub enum CanonicalToolResultOutcome {
    /// It answered.
    Succeeded(CanonicalToolOutput),
    /// It failed in its own domain.
    DomainFailed(CanonicalToolError),
}

/// Result of a tool call.
#[derive(Debug)]
pub struct CanonicalToolResult {
    /// Transaction.
    pub transaction_id: TransactionId,
    /// Session.
    pub session_key: SessionKey,
    /// Exchange that asked.
    pub exchange_id: ExchangeId,
    /// Action.
    pub tool_action_id: ToolActionId,
    /// Tool.
    pub tool_id: ToolId,
    /// Identity that the provider gave to the call.
    pub provider_tool_call_id: ProviderToolCallId,
    /// Position among the calls of its exchange.
    pub request_ordinal: u32,
    /// Outcome.
    pub outcome: CanonicalToolResultOutcome,
}

impl Clone for CanonicalToolOutput {
    fn clone(&self) -> (r: Self)
        ensures
            r == *self,
    {
        match self {
            CanonicalToolOutput::Text(t) => CanonicalToolOutput::Text(t.clone()),
            CanonicalToolOutput::Json(t) => CanonicalToolOutput::Json(t.clone()),
        }
    }
}

impl Clone for CanonicalToolError {
    fn clone(&self) -> (r: Self)
        ensures
            r == *self,
    {
        CanonicalToolError {
            code: self.code.clone(),
            message: self.message.clone(),
            data: clone_opt_json(&self.data),
        }
    }
}

impl Clone for CanonicalToolResultOutcome {
    fn clone(&self) -> (r: Self)
        ensures
            r == *self,
    {
        match self {
            CanonicalToolResultOutcome::Succeeded(o) => CanonicalToolResultOutcome::Succeeded(
                o.clone(),
            ),
            CanonicalToolResultOutcome::DomainFailed(e) => CanonicalToolResultOutcome::DomainFailed(
                e.clone(),
            ),
        }
    }
}

impl Clone for CanonicalToolResult {
    fn clone(&self) -> (r: Self)
        ensures
            r == *self,
    {
        CanonicalToolResult {
            transaction_id: self.transaction_id,
            session_key: self.session_key.clone(),
            exchange_id: self.exchange_id,
            tool_action_id: self.tool_action_id.clone(),
            tool_id: self.tool_id.clone(),
            provider_tool_call_id: self.provider_tool_call_id.clone(),
            request_ordinal: self.request_ordinal,
            outcome: self.outcome.clone(),
        }
    }
}

/// What happens to a tool call.
#[derive(Clone, Debug)]
pub enum ToolLifecycleEvent {
    /// It was started.
    Started {
        /// Action.
        tool_action_id: ToolActionId,
        /// Tool.
        tool_id: ToolId,
        /// Name under which it was called.
        tool_name: ToolName,
        /// Identity that the provider gave to the call.
        provider_tool_call_id: ProviderToolCallId,
        /// Position among the calls of its exchange.
        request_ordinal: u32,
    },
    /// It ended with a result.
    Completed {
        /// Result.
        result: CanonicalToolResult,
    },
    /// It could not be run to its end.
    RuntimeFailed {
        /// Action.
        tool_action_id: ToolActionId,
        /// Tool.
        tool_id: ToolId,
        /// Stable code.
        code: String,
    },
}

/// What a transaction event says.
#[derive(Clone, Debug)]
pub enum TransactionEventPayload {
    /// The outside session is known.
    SessionEstablished {
        /// The session in the outside agent's terms.
        external_session_id: ExternalSessionId,
    },
    /// A unit event.
    CanonicalUnit(CanonicalUnitEvent),
    /// A tool event.
    ToolLifecycle(ToolLifecycleEvent),
    /// A diagnostic.
    Diagnostic(TransactionDiagnostic),
    /// The end, as the event stream tells it.
    EndedEvent(TransactionEndEvent),
    /// The end, as the completion callback sees it.
    Ended(TransactionEnd),
}

/// One event of a transaction.
#[derive(Clone, Debug)]
pub struct TransactionEvent {
    /// Transaction.
    pub transaction_id: TransactionId,
    /// Channel.
    pub channel_id: ChannelId,
    /// Session.
    pub session_id: SessionId,
    /// Position, from 1.
    pub sequence: u64,
    /// What it says.
    pub payload: TransactionEventPayload,
}

/// Why an event was not taken into the mailbox.
#[derive(Clone, Copy, Debug, PartialEq, Eq, Structural)]
pub enum EventEnqueueError {
    /// The mailbox is closed.
    Closed,
    /// The event alone is too large.
    EventTooLarge,
    /// No bytes left.
    ByteCapacityExceeded,
    /// No places left.
    ItemCapacityExceeded,
}

/// How the terminal event was delivered.
#[derive(Clone, Copy, Debug, PartialEq, Eq, Structural)]
pub enum TerminalEventDelivery {
    /// It was delivered.
    Published,
    /// Nobody tried.
    NotAttempted,
    /// The mailbox is closed.
    QueueClosed,
    /// Out of time.
    DeadlineExceeded,
    /// A bound was hit.
    LimitExceeded,
}

/// Whether the sink took the terminal event.
#[derive(Clone, Copy, Debug, PartialEq, Eq, Structural)]
pub enum EventDeliveryOutcome {
    /// It did.
    Accepted,
    /// It did not.
    Failed,
}

/// End of a transaction, as a completion callback sees it.
#[derive(Clone, Debug)]
pub struct TransactionEnd {
    /// Transaction.
    pub transaction_id: TransactionId,
    /// Session, where known.
    pub session_id: Option<SessionId>,
    /// Channel.
    pub channel_id: ChannelId,
    /// Why it ended.
    pub kind: TransactionEndKind,
    /// Why it would have ended, had its events been delivered.
    pub prior_terminal_cause: Option<TransactionEndKind>,
    /// Whether the sink took the terminal event.
    pub event_delivery: EventDeliveryOutcome,
    /// Events emitted.
    pub emitted_events: u64,
    /// Usage.
    pub usage: TransactionUsage,
    /// Diagnostics.
    pub diagnostics: Vec<TransactionDiagnostic>,
}

} // verus!
