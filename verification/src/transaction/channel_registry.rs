//! Channels and their static bindings.

use crate::transaction::error::StartupError;
use crate::transaction::limits::ChannelLimits;
use crate::transaction::types::ChannelId;
use vstd::prelude::*;

verus! {

/// What is behind a channel.
#[derive(Clone, Copy, Debug, PartialEq, Eq, Structural)]
pub enum ChannelKind {
    /// A model that is called directly.
    DirectLlm,
    /// An agent with sessions of its own.
    ExternalAgent,
}

/// How tools reach the model.
#[derive(Clone, Copy, Debug, PartialEq, Eq, Structural)]
pub enum ToolExecutionMode {
    /// The model states tool calls in its output.
    ModelToolCalls,
    /// The agent calls tools through the gateway.
    McpGateway,
}

/// When a gateway can be configured on a session.
#[derive(Clone, Copy, Debug, PartialEq, Eq, Structural)]
pub enum McpConfigurationCapability {
    /// Never.
    Unsupported,
    /// When the session is created.
    CreationOnly,
    /// At any time.
    Refreshable,
}

/// Whether an agent can reach the gateway.
#[derive(Clone, Copy, Debug, PartialEq, Eq, Structural)]
pub enum McpReachability {
    /// It cannot.
    Unreachable,
    /// Over the loopback interface.
    SameLoopbackNamespace,
}

/// Who goes on after tool calls.
#[derive(Clone, Copy, Debug, PartialEq, Eq, Structural)]
pub enum ContinuationPolicy {
    /// The caller.
    CallerControlled,
    /// The transaction itself.
    InlineToolContinuation,
}

/// The policies that a channel supports.
#[derive(Clone, Copy, Debug, PartialEq, Eq, Structural)]
pub struct ContinuationPolicies {
    /// Whether the caller may go on.
    pub caller_controlled: bool,
    /// Whether the transaction may go on.
    pub inline_tool_continuation: bool,
}

impl ContinuationPolicies {
    /// Whether a policy is among them.
    pub open spec fn has(self, policy: ContinuationPolicy) -> bool {
        match policy {
            ContinuationPolicy::CallerControlled => self.caller_controlled,
            ContinuationPolicy::InlineToolContinuation => self.inline_tool_continuation,
        }
    }

    /// Whether a policy is among them.
    pub fn contains(self, policy: ContinuationPolicy) -> (r: bool)
        ensures
            r == self.has(policy),
    {
        match policy {
            ContinuationPolicy::CallerControlled => self.caller_controlled,
            ContinuationPolicy::InlineToolContinuation => self.inline_tool_continuation,
        }
    }
}

/// Declared capabilities of a channel.
#[derive(Clone, Copy, Debug, PartialEq, Eq, Structural)]
pub struct ChannelCapabilities {
    /// When a gateway can be configured.
    pub mcp_configuration: McpConfigurationCapability,
    /// Whether the gateway can be reached.
    pub mcp_reachability: McpReachability,
    /// Who may go on after tool calls.
    pub continuation_policies: ContinuationPolicies,
}

/// One channel's static binding.
#[derive(Debug)]
pub struct ChannelBinding {
    /// Channel identity.
    pub id: ChannelId,
    /// What is behind the channel.
    pub kind: ChannelKind,
    /// Tool execution mode.
    pub tool_mode: ToolExecutionMode,
    /// Declared capabilities.
    pub capabilities: ChannelCapabilities,
    /// Limits.
    pub limits: ChannelLimits,
}

/// Data-only view of a binding, for validation.
#[derive(Clone, Copy, Debug, PartialEq, Eq, Structural)]
pub struct ChannelDescriptor {
    /// What is behind the channel.
    pub kind: ChannelKind,
    /// Tool execution mode.
    pub tool_mode: ToolExecutionMode,
    /// Declared capabilities.
    pub capabilities: ChannelCapabilities,
    /// Limits.
    pub limits: ChannelLimits,
}

impl ChannelBinding {
    /// View as a data-only descriptor for capability validation.
    pub fn descriptor(&self) -> (r: ChannelDescriptor)
        ensures
            r == (ChannelDescriptor {
                kind: self.kind,
                tool_mode: self.tool_mode,
                capabilities: self.capabilities,
                limits: self.limits,
            }),
    {
        ChannelDescriptor {
            kind: self.kind,
            tool_mode: self.tool_mode,
            capabilities: self.capabilities,
            limits: self.limits,
        }
    }
}

impl Clone for ChannelBinding {
    fn clone(&self) -> (r: Self)
        ensures
            r == *self,
    {
        ChannelBinding {
            id: self.id.clone(),
            kind: self.kind,
            tool_mode: self.tool_mode,
            capabilities: self.capabilities,
            limits: self.limits,
        }
    }
}

/// Whether the `i`-th binding repeats an earlier identity.
pub open spec fn repeats_id(bindings: Seq<ChannelBinding>, i: int) -> bool {
    exists|j: int| 0 <= j < i && (#[trigger] bindings[j]).id@ == bindings[i].id@
}

/// What is wrong with the `i`-th binding, if anything: its capabilities, as
/// `faults` says, or else its identity.
pub open spec fn binding_fault(
    bindings: Seq<ChannelBinding>,
    faults: Seq<Option<String>>,
    i: int,
) -> Option<StartupError> {
    if faults[i] is Some {
        Some(StartupError::ChannelCapability(faults[i]->0))
    } else if repeats_id(bindings, i) {
        Some(StartupError::ChannelRegistry("duplicate ChannelId"))
    } else {
        None
    }
}

/// Immutable registry of channel bindings.
#[derive(Clone, Debug)]
pub struct ChannelRegistry {
    channels: Vec<ChannelBinding>,
}

impl View for ChannelRegistry {
    type V = Seq<ChannelBinding>;

    closed spec fn view(&self) -> Seq<ChannelBinding> {
        self.channels@
    }
}

impl ChannelRegistry {
    /// Build from bindings; `faults` says of each what is wrong with its
    /// capabilities, if anything. The first fault is the error.
    pub fn build(bindings: Vec<ChannelBinding>, faults: &Vec<Option<String>>) -> (r: Result<
        Self,
        StartupError,
    >)
        requires
            bindings.len() == faults.len(),
        ensures
            bindings@.len() == 0 ==> r == Err::<Self, StartupError>(
                StartupError::ChannelRegistry("at least one Channel is required"),
            ),
            bindings@.len() > 0 ==> match r {
                Err(e) => exists|i: int|
                    0 <= i < bindings@.len() && #[trigger] binding_fault(bindings@, faults@, i)
                        == Some(e) && forall|j: int|
                        0 <= j < i ==> #[trigger] binding_fault(bindings@, faults@, j) is None,
                Ok(registry) => registry@ == bindings@ && forall|i: int|
                    0 <= i < bindings@.len() ==> #[trigger] binding_fault(bindings@, faults@, i)
                        is None,
            },
    {
        if bindings.len() == 0 {
            return Err(StartupError::ChannelRegistry("at least one Channel is required"));
        }
        let mut i: usize = 0;
        while i < bindings.len()
            invariant
                i <= bindings.len(),
                bindings.len() == faults.len(),
                forall|j: int| 0 <= j < i ==> #[trigger] binding_fault(bindings@, faults@, j) is None,
            decreases bindings.len() - i,
        {
            match &faults[i] {
                Some(e) => {
                    let e: String = e.clone();
                    assert(binding_fault(bindings@, faults@, i as int) == Some(
                        StartupError::ChannelCapability(e),
                    ));
                    return Err(StartupError::ChannelCapability(e));
                },
                None => {},
            }
            let mut j: usize = 0;
            while j < i
                invariant
                    j <= i,
                    i < bindings.len(),
                    bindings.len() == faults.len(),
                    faults@[i as int] is None,
                    forall|k: int| 0 <= k < j ==> (#[trigger] bindings@[k]).id@ != bindings@[i as int].id@,
                    forall|k: int|
                        0 <= k < i ==> #[trigger] binding_fault(bindings@, faults@, k) is None,
                decreases i - j,
            {
                if bindings[j].id == bindings[i].id {
                    assert(repeats_id(bindings@, i as int));
                    assert(binding_fault(bindings@, faults@, i as int) == Some(
                        StartupError::ChannelRegistry("duplicate ChannelId"),
                    ));
                    return Err(StartupError::ChannelRegistry("duplicate ChannelId"));
                }
                j = j + 1;
            }
            assert(binding_fault(bindings@, faults@, i as int) is None);
            i = i + 1;
        }
        Ok(ChannelRegistry { channels: bindings })
    }

    /// Lookup by id; the first match.
    pub fn get(&self, id: &ChannelId) -> (r: Option<&ChannelBinding>)
        ensures
            match r {
                Some(b) => exists|i: int|
                    0 <= i < self@.len() && *b == #[trigger] self@[i] && b.id@ == id@ && forall|
                        j: int,
                    |
                        0 <= j < i ==> (#[trigger] self@[j]).id@ != id@,
                None => forall|i: int| 0 <= i < self@.len() ==> (#[trigger] self@[i]).id@ != id@,
            },
    {
        let mut i: usize = 0;
        while i < self.channels.len()
            invariant
                i <= self.channels.len(),
                forall|j: int| 0 <= j < i ==> (#[trigger] self@[j]).id@ != id@,
            decreases self.channels.len() - i,
        {
            if self.channels[i].id == *id {
                assert(self.channels@[i as int] == self@[i as int]);
                return Some(&self.channels[i]);
            }
            i = i + 1;
        }
        None
    }

    /// All bindings.
    pub fn iter(&self) -> (r: &Vec<ChannelBinding>)
        ensures
            r@ == self@,
    {
        &self.channels
    }

    /// Number of channels.
    pub fn len(&self) -> (r: usize)
        ensures
            r == self@.len(),
    {
        self.channels.len()
    }

    /// Whether empty.
    pub fn is_empty(&self) -> (r: bool)
        ensures
            r == (self@.len() == 0),
    {
        self.channels.len() == 0
    }
}

/// Bindings without faults have different identities.
pub proof fn built_identities_differ(
    bindings: Seq<ChannelBinding>,
    faults: Seq<Option<String>>,
    a: int,
    b: int,
)
    requires
        forall|i: int|
            0 <= i < bindings.len() ==> #[trigger] binding_fault(bindings, faults, i) is None,
        0 <= a < b < bindings.len(),
    ensures
        bindings[a].id@ != bindings[b].id@,
{
    assert(binding_fault(bindings, faults, b) is None);
    assert(!repeats_id(bindings, b));
}

} // verus!
