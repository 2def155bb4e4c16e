//! Tool execution requests, and the runtime that starts nothing.

use crate::contracts::OutboundToolOutcome;
use crate::identity::ToolExecutionId;
use vstd::prelude::*;
use vstd::string::StringExecFns;

verus! {

/// Start request for a tool execution.
#[derive(Clone, Debug)]
pub struct StartToolExecution {
    /// Execution id allocated by the loop.
    pub execution_id: ToolExecutionId,
    /// Tool action id from the canonical unit.
    pub tool_action_id: String,
    /// Tool name.
    pub tool_name: String,
    /// Complete payload.
    pub request_payload: String,
    /// Request generation that triggered dispatch.
    pub request_generation: u64,
}

/// Runtime error.
#[derive(Clone, Debug)]
pub struct ToolRuntimeError(pub String);

impl ToolRuntimeError {
    /// The error as text.
    pub fn message(&self) -> (r: String)
        ensures
            r@ == "tool runtime: "@ + self.0@,
    {
        crate::text::join("tool runtime: ", self.0.as_str())
    }
}

/// How an execution ended, in the terms of an outbound result.
#[derive(Clone, Debug)]
pub struct ToolRuntimeTerminal {
    /// Outcome for the outbound result.
    pub outcome: OutboundToolOutcome,
    /// Bounded payload.
    pub payload: String,
}

/// A running execution: what identifies it, and whether its completion can be awaited.
pub struct ToolExecutionHandle {
    /// Execution id.
    pub execution_id: ToolExecutionId,
    /// Whether the runtime will report a terminal.
    pub reports_completion: bool,
}

/// Runtime that starts nothing; it goes with the empty registry.
#[derive(Clone, Copy, Debug, PartialEq, Eq, Structural)]
pub struct NoToolRuntime;

impl NoToolRuntime {
    /// Create.
    pub fn new() -> (r: Self)
        ensures
            r == NoToolRuntime,
    {
        NoToolRuntime
    }

    /// Refuses to start anything.
    pub fn start(&self, request: &StartToolExecution) -> (r: Result<
        ToolExecutionHandle,
        ToolRuntimeError,
    >)
        ensures
            r is Err,
            r->Err_0.0@
                == "NoToolRuntime.start must never be called with EmptyToolRegistry"@,
    {
        Err(
            ToolRuntimeError(
                String::from_str("NoToolRuntime.start must never be called with EmptyToolRegistry"),
            ),
        )
    }
}

} // verus!
