//! Runtime bootstrap inputs.

use crate::transaction::channel_registry::ChannelRegistry;
use crate::transaction::error::StartupError;
use crate::transaction::host_tools::HostToolRegistry;
use crate::transaction::limits::{LimitsError, TransactionLimits};
use vstd::prelude::*;

verus! {

/// Time to wait for a graceful drain when nothing else is said: 30 s.
pub const DEFAULT_SHUTDOWN_DEADLINE_NANOS: u128 = 30_000_000_000;

/// Gate that defers the transition to stopped. Once released it stays so.
#[derive(Clone, Copy, Debug, PartialEq, Eq, Structural)]
pub struct StoppedGate {
    /// Whether it was released.
    pub released: bool,
}

impl StoppedGate {
    /// New unreleased gate.
    pub fn new() -> (r: Self)
        ensures
            !r.released,
    {
        StoppedGate { released: false }
    }

    /// Allow the supervisor to stop.
    pub fn release(&mut self)
        ensures
            final(self).released,
    {
        self.released = true;
    }

    /// Whether a waiter may go on.
    pub fn is_released(&self) -> (r: bool)
        ensures
            r == self.released,
    {
        self.released
    }
}

/// Runtime-wide configuration validated at startup.
#[derive(Clone, Copy, Debug, PartialEq, Eq, Structural)]
pub struct RuntimeConfig {
    /// Transaction / event / callback bounds.
    pub transaction_limits: TransactionLimits,
    /// When true, bind a loopback MCP listener.
    pub enable_mcp_listener: bool,
    /// Maximum time to wait for graceful drain during shutdown when not specified.
    pub default_shutdown_deadline: u128,
    /// Whether a gate defers the transition to stopped.
    pub block_stopped: Option<StoppedGate>,
}

/// What is wrong with a configuration, if anything; `limits` says what is
/// wrong with its limits.
pub open spec fn config_fault(
    config: RuntimeConfig,
    limits: Result<(), LimitsError>,
) -> Option<StartupError> {
    match limits {
        Err(LimitsError::ZeroCapacity(f)) => Some(StartupError::InvalidConfig(f)),
        Err(LimitsError::Inconsistent(_)) => Some(
            StartupError::InvalidConfig("inconsistent transaction limits"),
        ),
        Ok(()) => if config.default_shutdown_deadline == 0 {
            Some(StartupError::InvalidConfig("default_shutdown_deadline"))
        } else {
            None
        },
    }
}

impl RuntimeConfig {
    /// The default configuration for given limits: no listener, 30 s, no gate.
    pub fn with_limits(transaction_limits: TransactionLimits) -> (r: Self)
        ensures
            r == (RuntimeConfig {
                transaction_limits,
                enable_mcp_listener: false,
                default_shutdown_deadline: DEFAULT_SHUTDOWN_DEADLINE_NANOS,
                block_stopped: None,
            }),
    {
        RuntimeConfig {
            transaction_limits,
            enable_mcp_listener: false,
            default_shutdown_deadline: DEFAULT_SHUTDOWN_DEADLINE_NANOS,
            block_stopped: None,
        }
    }

    /// Validate non-zero and consistent bounds; `limits` is what the limits
    /// themselves were found to be.
    pub fn validate(&self, limits: Result<(), LimitsError>) -> (r: Result<(), StartupError>)
        ensures
            match config_fault(*self, limits) {
                Some(e) => r == Err::<(), StartupError>(e),
                None => r is Ok,
            },
    {
        match limits {
            Err(LimitsError::ZeroCapacity(f)) => {
                return Err(StartupError::InvalidConfig(f));
            },
            Err(LimitsError::Inconsistent(_)) => {
                return Err(StartupError::InvalidConfig("inconsistent transaction limits"));
            },
            Ok(()) => {},
        }
        if self.default_shutdown_deadline == 0 {
            return Err(StartupError::InvalidConfig("default_shutdown_deadline"));
        }
        Ok(())
    }
}

/// Inputs of a start.
pub struct RuntimeBootstrap {
    /// Limits and feature flags.
    pub config: RuntimeConfig,
    /// Channel bindings.
    pub channels: ChannelRegistry,
    /// Host tools (empty allowed).
    pub tools: HostToolRegistry,
}

} // verus!
