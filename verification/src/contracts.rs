//! Values shared by the loop and its neighbours: identities, canonical units,
//! and the events that the loop emits.

use crate::identity::ToolExecutionId;
use vstd::prelude::*;

verus! {

/// Identity of a run.
pub type MonoloopRunId = String;

/// Identity of a loop.
pub type LoopId = String;

/// Identity of one interpretation of a byte stream.
pub type InterpretationId = String;

/// Identity of a connection.
pub type ConnectionId = String;

/// Session identity in the outside agent's own terms.
pub type ExternalSessionId = String;

/// Identity of a canonical unit.
pub type UnitId = String;

/// Identity of a tool action.
pub type ToolActionId = String;

/// How far the request of a tool action has come.
#[derive(Clone, Copy, Debug, PartialEq, Eq, Structural)]
pub enum ToolRequestState {
    /// Still being streamed.
    Assembling,
    /// Complete.
    Ready,
    /// Ended before it was complete.
    Incomplete,
    /// Complete but not readable.
    Malformed,
}

/// Which audience a text unit is for.
#[derive(Clone, Copy, Debug, PartialEq, Eq, Structural)]
pub enum TextChannel {
    /// The answer that the caller sees.
    PublicResponse,
    /// Anything else.
    Other,
}

/// A run of text.
#[derive(Clone, Debug)]
pub struct TextUnit {
    /// Audience.
    pub channel: TextChannel,
    /// The text.
    pub content: String,
}

/// A tool action as the model stated it.
#[derive(Clone, Debug)]
pub struct ToolUnit {
    /// Identity of the action.
    pub tool_action_id: ToolActionId,
    /// Name of the tool, once known.
    pub tool_name: Option<String>,
    /// How far the request has come.
    pub request_state: ToolRequestState,
    /// The request, once known.
    pub request_payload: Option<String>,
    /// The result, once known.
    pub result_payload: Option<String>,
}

/// A canonical unit of interpreter output.
#[derive(Clone, Debug)]
pub enum CanonicalUnit {
    /// Text.
    Text(TextUnit),
    /// Tool action.
    Tool(ToolUnit),
    /// Document structure, with its text.
    Structure(String),
    /// Diagnostic, with its text.
    Diagnostic(String),
    /// Token counts.
    Usage,
    /// Paragraph break.
    Paragraph,
    /// Turn boundary.
    Boundary,
}

/// A canonical unit at one generation, with where it came from.
#[derive(Clone, Debug)]
pub struct CanonicalUnitSnapshot {
    /// Interpretation that produced it.
    pub interpretation_id: InterpretationId,
    /// Connection that carried it.
    pub connection_id: ConnectionId,
    /// Outside session, where there is one.
    pub external_session_id: Option<ExternalSessionId>,
    /// Identity of the unit.
    pub unit_id: UnitId,
    /// Flow that it belongs to.
    pub flow_id: String,
    /// Lane that it belongs to.
    pub lane_id: String,
    /// Position in its lane.
    pub lane_ordinal: u64,
    /// Generation; it grows with each change of the unit.
    pub unit_generation: u64,
    /// The unit.
    pub unit: CanonicalUnit,
}

/// What happened to a canonical unit.
#[derive(Clone, Debug)]
pub enum CanonicalUnitEvent {
    /// It appeared.
    Created(CanonicalUnitSnapshot),
    /// It changed.
    Advanced(CanonicalUnitSnapshot),
    /// It is complete.
    Completed(CanonicalUnitSnapshot),
    /// It will never be complete.
    Incomplete(CanonicalUnitSnapshot),
}

impl CanonicalUnitEvent {
    /// The unit that the event is about.
    pub open spec fn unit_snapshot(self) -> CanonicalUnitSnapshot {
        match self {
            CanonicalUnitEvent::Created(s) => s,
            CanonicalUnitEvent::Advanced(s) => s,
            CanonicalUnitEvent::Completed(s) => s,
            CanonicalUnitEvent::Incomplete(s) => s,
        }
    }

    /// The unit that the event is about.
    pub fn snapshot(&self) -> (r: &CanonicalUnitSnapshot)
        ensures
            *r == self.unit_snapshot(),
    {
        match self {
            CanonicalUnitEvent::Created(s) => s,
            CanonicalUnitEvent::Advanced(s) => s,
            CanonicalUnitEvent::Completed(s) => s,
            CanonicalUnitEvent::Incomplete(s) => s,
        }
    }
}

/// How an interpretation ended.
#[derive(Clone, Copy, Debug, PartialEq, Eq, Structural)]
pub enum InterpretationEndKind {
    /// The stream was read to its end.
    Complete,
    /// It was cancelled.
    Cancelled,
    /// It was terminated.
    Terminated,
    /// A bound was hit.
    LimitExceeded,
    /// The stream does not follow its dialect.
    DialectFailed,
    /// The transport failed.
    TransportFailed,
    /// An internal rule was broken.
    InvariantFailed,
}

/// Output of the interpreter.
#[derive(Clone, Debug)]
pub enum InterpreterOutputEvent {
    /// A unit event.
    Unit(CanonicalUnitEvent),
    /// The interpretation ended.
    Ended(InterpretationEndKind),
}

/// Why a tool cannot be run.
#[derive(Clone, Copy, Debug, PartialEq, Eq, Structural)]
pub enum ToolUnavailableReason {
    /// No tool of that name is registered.
    NoRegisteredTool,
}

impl ToolUnavailableReason {
    /// Name of the reason.
    pub open spec fn text(self) -> Seq<char> {
        "NoRegisteredTool"@
    }

    /// Name of the reason.
    pub fn label(&self) -> (r: &'static str)
        ensures
            r@ == self.text(),
    {
        match self {
            ToolUnavailableReason::NoRegisteredTool => "NoRegisteredTool",
        }
    }
}

/// How an outbound tool result came about.
#[derive(Clone, Copy, Debug, PartialEq, Eq, Structural)]
pub enum OutboundToolOutcome {
    /// The tool ran and answered.
    Success,
    /// There is no such tool.
    ToolUnavailable,
    /// The tool exists but was not started.
    DispatchRejected,
    /// The tool failed.
    ExecutionFailed,
    /// The tool's answer was lost.
    ExecutionLost,
    /// The tool was cancelled.
    Cancelled,
}

/// A tool result to be sent back to the model.
#[derive(Clone, Debug)]
pub struct OutboundToolResult {
    /// Identity of the result.
    pub outbound_result_id: String,
    /// Owning run.
    pub monoloop_run_id: MonoloopRunId,
    /// Owning loop.
    pub loop_id: LoopId,
    /// Interpretation that asked.
    pub source_interpretation_id: InterpretationId,
    /// Connection that asked.
    pub source_connection_id: ConnectionId,
    /// Outside session that asked.
    pub external_session_id: Option<ExternalSessionId>,
    /// Action that asked.
    pub tool_action_id: ToolActionId,
    /// Generation of the request.
    pub request_generation: u64,
    /// Execution, where one was started.
    pub tool_execution_id: Option<ToolExecutionId>,
    /// Outcome.
    pub outcome: OutboundToolOutcome,
    /// Payload.
    pub payload: String,
    /// Unit that asked.
    pub source_unit_id: UnitId,
}

/// Why a loop ended.
#[derive(Clone, Copy, Debug, PartialEq, Eq, Structural)]
pub enum LoopEndKind {
    /// The subscription was read to its end.
    Drained,
    /// It was cancelled.
    Cancelled,
    /// The subscription lost events.
    SubscriptionLost,
    /// The output could not be written.
    OutputFailed,
    /// An internal rule was broken.
    InvariantFailed,
}

/// Final account of a loop.
#[derive(Clone, Debug)]
pub struct LoopEnd {
    /// Owning run.
    pub monoloop_run_id: MonoloopRunId,
    /// The loop.
    pub loop_id: LoopId,
    /// Why it ended.
    pub kind: LoopEndKind,
    /// Events received.
    pub delivery_events_received: u64,
    /// Events recognised as repeats.
    pub duplicate_events: u64,
    /// Tool requests answered as unavailable.
    pub tools_unavailable: u64,
    /// Outbound results counted.
    pub outbound_results_emitted: u64,
    /// Diagnostics.
    pub safe_diagnostics: Vec<String>,
}

/// Output of the loop.
#[derive(Clone, Debug)]
pub enum LoopOutputEvent {
    /// A complete tool request was accepted for dispatch.
    ToolDispatchRequested {
        /// Action.
        tool_action_id: ToolActionId,
        /// Generation of the request.
        request_generation: u64,
    },
    /// The tool is not available.
    ToolUnavailable {
        /// Action.
        tool_action_id: ToolActionId,
        /// Why.
        reason: ToolUnavailableReason,
    },
    /// A result for the model.
    OutboundToolResult(OutboundToolResult),
    /// The loop ended.
    LoopEnded(LoopEnd),
}

/// What a loop admits. An empty list admits everything on its axis.
#[derive(Clone, Debug)]
pub struct LoopScope {
    /// Admit every event of the run.
    pub accept_all_in_run: bool,
    /// Admitted interpretations.
    pub accepted_interpretation_ids: Vec<InterpretationId>,
    /// Admitted connections.
    pub accepted_connection_ids: Vec<ConnectionId>,
    /// Admitted outside sessions.
    pub accepted_external_session_ids: Vec<ExternalSessionId>,
}

/// Bounds of a loop.
#[derive(Clone, Copy, Debug, PartialEq, Eq, Structural)]
pub struct LoopLimits {
    /// Output events that may wait.
    pub max_output_queue: usize,
    /// Tool actions tracked.
    pub max_tool_actions: usize,
    /// Unit generations remembered.
    pub max_dedup_entries: usize,
}

} // verus!
