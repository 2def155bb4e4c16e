//! Tool lookup by name, and the registry in which no tool exists.

use crate::contracts::{ToolActionId, ToolUnavailableReason};
use vstd::prelude::*;

verus! {

/// Request to resolve a complete tool by name.
#[derive(Clone, Debug)]
pub struct ResolveToolRequest {
    /// Tool action id.
    pub tool_action_id: ToolActionId,
    /// Complete tool name.
    pub tool_name: String,
    /// Complete request payload JSON.
    pub request_payload: String,
}

/// Opaque available tool reference.
#[derive(Clone, Debug)]
pub struct ToolDescriptorRef {
    /// Stable descriptor name.
    pub name: String,
}

/// Registry resolution result.
#[derive(Clone, Debug)]
pub enum ToolResolution {
    /// Tool is available.
    Available(ToolDescriptorRef),
    /// Tool unavailable.
    Unavailable(ToolUnavailableReason),
}

/// Registry error.
#[derive(Clone, Debug)]
pub struct ToolRegistryError(pub String);

impl ToolRegistryError {
    /// The error as text.
    pub fn message(&self) -> (r: String)
        ensures
            r@ == "tool registry: "@ + self.0@,
    {
        crate::text::join("tool registry: ", self.0.as_str())
    }
}

/// A registry in which every request is unavailable.
#[derive(Clone, Copy, Debug, PartialEq, Eq, Structural)]
pub struct EmptyToolRegistry;

impl EmptyToolRegistry {
    /// Create empty registry.
    pub fn new() -> (r: Self)
        ensures
            r == EmptyToolRegistry,
    {
        EmptyToolRegistry
    }

    /// Resolve a complete tool request: no tool is ever found.
    pub fn resolve(&self, request: &ResolveToolRequest) -> (r: Result<
        ToolResolution,
        ToolRegistryError,
    >)
        ensures
            r == Ok::<ToolResolution, ToolRegistryError>(
                ToolResolution::Unavailable(ToolUnavailableReason::NoRegisteredTool),
            ),
    {
        Ok(ToolResolution::Unavailable(ToolUnavailableReason::NoRegisteredTool))
    }
}

} // verus!
