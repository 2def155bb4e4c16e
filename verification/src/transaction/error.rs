//! Startup errors.

use crate::text::join;
use vstd::prelude::*;
use vstd::string::StringExecFns;

verus! {

/// Failure starting the transaction runtime.
#[derive(Clone, Debug)]
pub enum StartupError {
    /// Runtime / transaction limits invalid.
    InvalidConfig(&'static str),
    /// Channel registry validation failed.
    ChannelRegistry(&'static str),
    /// Channel capability matrix violation, in words.
    ChannelCapability(String),
    /// Host tool registry validation failed.
    ToolRegistry(&'static str),
    /// Connector instance construction failed, in words.
    ConnectorBuild(String),
    /// Connector instance session adapter mismatch with channel kind.
    SessionAdapterMismatch(&'static str),
    /// MCP loopback listener failed to bind.
    McpBindFailed,
    /// Executor unavailable.
    ExecutorUnavailable,
    /// Internal invariant during startup.
    InvariantFailed(&'static str),
}

impl StartupError {
    /// The error as text.
    pub open spec fn text(self) -> Seq<char> {
        match self {
            StartupError::InvalidConfig(s) => "invalid runtime configuration: "@ + s@,
            StartupError::ChannelRegistry(s) => "channel registry invalid: "@ + s@,
            StartupError::ChannelCapability(s) => "channel capability invalid: "@ + s@,
            StartupError::ToolRegistry(s) => "host tool registry invalid: "@ + s@,
            StartupError::ConnectorBuild(s) => "connector build failed: "@ + s@,
            StartupError::SessionAdapterMismatch(s) => "connector session adapter mismatch: "@ + s@,
            StartupError::McpBindFailed => "MCP listener bind failed"@,
            StartupError::ExecutorUnavailable => "executor unavailable"@,
            StartupError::InvariantFailed(s) => "startup invariant failed: "@ + s@,
        }
    }

    /// The error as text.
    pub fn message(&self) -> (r: String)
        ensures
            r@ == self.text(),
    {
        match self {
            StartupError::InvalidConfig(s) => join("invalid runtime configuration: ", s),
            StartupError::ChannelRegistry(s) => join("channel registry invalid: ", s),
            StartupError::ChannelCapability(s) => join("channel capability invalid: ", s.as_str()),
            StartupError::ToolRegistry(s) => join("host tool registry invalid: ", s),
            StartupError::ConnectorBuild(s) => join("connector build failed: ", s.as_str()),
            StartupError::SessionAdapterMismatch(s) => join(
                "connector session adapter mismatch: ",
                s,
            ),
            StartupError::McpBindFailed => String::from_str("MCP listener bind failed"),
            StartupError::ExecutorUnavailable => String::from_str("executor unavailable"),
            StartupError::InvariantFailed(s) => join("startup invariant failed: ", s),
        }
    }
}

} // verus!
