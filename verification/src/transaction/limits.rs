//! Bounds of the runtime, of a channel and of a tool. Time spans are in
//! nanoseconds.

use vstd::prelude::*;

verus! {

/// Bounds of the runtime and of each transaction.
#[derive(Clone, Copy, Debug, PartialEq, Eq, Structural)]
pub struct TransactionLimits {
    /// Transactions at a time.
    pub max_active_transactions: usize,
    /// Transactions at a time on one channel.
    pub max_active_per_channel: usize,
    /// Control commands that may wait.
    pub max_actor_commands: usize,
    /// Messages of an input.
    pub max_messages: usize,
    /// Parts of a message.
    pub max_content_parts: usize,
    /// Bytes of a part.
    pub max_text_part_bytes: usize,
    /// Bytes of an input.
    pub max_input_bytes: usize,
    /// Tools of a transaction.
    pub max_tools_per_transaction: usize,
    /// Bytes of the schemas of a transaction's tools.
    pub max_tool_schema_bytes: usize,
    /// Bytes of a tool's input.
    pub max_tool_payload_bytes: usize,
    /// Bytes of a tool's output.
    pub max_tool_output_bytes: usize,
    /// Tools running at a time, in all.
    pub max_concurrent_tools: usize,
    /// Tools waiting, in all.
    pub max_queued_tools: usize,
    /// Tools running at a time, in one transaction.
    pub max_concurrent_tools_per_transaction: usize,
    /// Tools waiting, in one transaction.
    pub max_queued_tools_per_transaction: usize,
    /// Continuations of a transaction.
    pub max_continuations: u32,
    /// Bytes of a continuation's transcript.
    pub max_continuation_context_bytes: usize,
    /// Exchanges of a transaction.
    pub max_provider_exchanges: u32,
    /// Bytes sent to the provider in a transaction.
    pub max_total_provider_input_bytes: usize,
    /// Bytes received from the provider in a transaction.
    pub max_total_provider_output_bytes: usize,
    /// Events that may wait.
    pub max_event_queue: usize,
    /// Bytes of events that may wait.
    pub max_event_queue_bytes: usize,
    /// Diagnostics of a transaction.
    pub max_diagnostic_count: usize,
    /// Bytes of a diagnostic.
    pub max_diagnostic_bytes: usize,
    /// Time for a transaction.
    pub transaction_deadline: u128,
    /// Time for cleaning up.
    pub cleanup_deadline: u128,
    /// Time for the terminal event.
    pub terminal_event_delivery_deadline: u128,
    /// Time for a completion callback.
    pub callback_deadline: u128,
}

/// What is wrong with limits.
#[derive(Clone, Copy, Debug, PartialEq, Eq)]
pub enum LimitsError {
    /// A capacity is zero; which one.
    ZeroCapacity(&'static str),
    /// Two bounds contradict each other.
    Inconsistent(&'static str),
}

/// Bounds of a channel.
#[derive(Clone, Copy, Debug, PartialEq, Eq, Structural)]
pub struct ChannelLimits {
    /// Transactions at a time.
    pub max_active_transactions: usize,
    /// Sessions at a time.
    pub max_distinct_sessions: usize,
    /// Bytes of one encoded exchange.
    pub max_encoded_exchange_bytes: usize,
}

/// Bounds of a tool.
#[derive(Clone, Copy, Debug, PartialEq, Eq, Structural)]
pub struct ToolLimits {
    /// Bytes of its input.
    pub max_input_bytes: usize,
    /// Bytes of its output.
    pub max_output_bytes: usize,
    /// Calls at a time.
    pub max_concurrent: usize,
    /// Time for one call.
    pub execution_deadline: u128,
}

} // verus!
