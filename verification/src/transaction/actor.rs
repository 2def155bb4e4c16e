//! The actor of one transaction: session, exchanges, tools, continuations, and
//! the terminal kind that they come to.
//!
//! [`ActorRun::step`] is the machine; the driver performs the action that a
//! step returns and reports what happened. [`ActorRun::settle`] picks the
//! terminal kind when the work races against delivery and deadline.

use crate::messages::sat_sum;
use crate::transaction::active_registry::{ClaimSessionError, ControlMessage};
use crate::transaction::channel_registry::{
    ContinuationPolicy, McpConfigurationCapability, McpReachability, ToolExecutionMode,
};
use crate::transaction::exchange::{failure_kind, map_exchange_failure, ExchangeFailure};
use crate::transaction::lifecycle::coordinator::left_of;
use crate::transaction::types::TransactionEndKind;
use vstd::prelude::*;

verus! {

/// What an actor starts from.
#[derive(Clone, Copy, Debug, PartialEq, Eq, Structural)]
pub struct ActorSetting {
    /// Bytes of the schemas of its tools.
    pub schema_bytes: usize,
    /// Most of them.
    pub max_tool_schema_bytes: usize,
    /// Whether the connector keeps sessions.
    pub has_adapter: bool,
    /// How tools reach the model.
    pub tool_mode: ToolExecutionMode,
    /// Whether there are tools.
    pub has_tools: bool,
    /// When a gateway can be configured.
    pub mcp_configuration: McpConfigurationCapability,
    /// Whether the gateway can be reached.
    pub mcp_reachability: McpReachability,
    /// Whether there is a gateway.
    pub has_gateway: bool,
    /// Whether the session was known at admission.
    pub session_known: bool,
    /// Whether the session is the agent's to tell.
    pub provisional_external: bool,
    /// Whether the request named the session.
    pub existing_session: bool,
    /// Who goes on after tool calls.
    pub policy: ContinuationPolicy,
    /// Most continuations.
    pub max_continuations: usize,
    /// Most exchanges; 0 counts as 1.
    pub max_provider_exchanges: usize,
    /// Most bytes sent to the provider.
    pub max_input_bytes: usize,
    /// Most bytes received from the provider.
    pub max_output_bytes: usize,
    /// Most bytes of the transcript.
    pub max_context_bytes: usize,
    /// Most bytes of one encoded exchange.
    pub max_encoded_bytes: usize,
}

/// What an exchange came to.
#[derive(Clone, Copy, Debug, PartialEq, Eq, Structural)]
pub struct ActorExchange {
    /// Bytes sent.
    pub request_bytes: usize,
    /// Bytes of its units.
    pub unit_bytes: usize,
    /// Why it failed after it was opened, if it did.
    pub failure: Option<ExchangeFailure>,
    /// Number of complete tool requests.
    pub ready: usize,
    /// Whether it told an outside session.
    pub told_session: bool,
}

/// How a tool call went.
#[derive(Clone, Copy, Debug, PartialEq, Eq, Structural)]
pub enum ToolOutcomeKind {
    /// It has a result.
    Canonical,
    /// It was not accepted.
    Rejected,
    /// It could not be run to its end.
    RuntimeFailed,
}

/// How a child task ended.
#[derive(Clone, Copy, Debug, PartialEq, Eq, Structural)]
pub enum ChildEnd {
    /// Well.
    Fine,
    /// With a terminal kind.
    Failed(TransactionEndKind),
    /// Without an answer.
    Lost,
}

/// What the actor waits for.
#[derive(Clone, Copy, Debug, PartialEq, Eq, Structural)]
pub enum ActorPhase {
    /// The start gate.
    AwaitingStart,
    /// The gateway route.
    InstallingRoute,
    /// The attachment to begin.
    BeginningAttach {
        /// Whether the route is part of it.
        with_route: bool,
    },
    /// The attachment.
    Attaching,
    /// The loaded session to be claimed.
    ClaimingLoaded,
    /// The loaded session to be announced.
    AnnouncingLoaded,
    /// The route's refresh to begin.
    BeginningRefresh,
    /// The route's refresh.
    Refreshing,
    /// The route to be activated.
    Activating,
    /// A generated session to be claimed.
    ClaimingGenerated,
    /// A generated session to be announced.
    AnnouncingGenerated,
    /// The task that hands units on.
    SpawningFanOut,
    /// The task that claims the session.
    SpawningClaim,
    /// The first exchange.
    Exchanging,
    /// The claim, after the exchange failed.
    JoiningClaimAfterFailure(ExchangeFailure),
    /// The claim.
    JoiningClaim(ActorExchange),
    /// The task that hands units on.
    JoiningFanOut(ActorExchange),
    /// A tool call: how many there are, and which one it is.
    Dispatching(usize, usize),
    /// Its events to be published.
    EmittingOutcome(usize, usize, ToolOutcomeKind),
    /// Its rejection to be published.
    EmittingRejection(usize, usize),
    /// The transcript to be appended to.
    Appending,
    /// The continuation to be encoded.
    Encoding,
    /// The task that hands units on, for a continuation.
    SpawningContinuationFanOut,
    /// A further exchange.
    Continuing,
    /// The task that hands units on, for a continuation.
    JoiningContinuationFanOut(ActorExchange),
    /// Nothing.
    Done,
}

/// What the driver reports.
#[derive(Clone, Copy, Debug, PartialEq, Eq, Structural)]
pub enum ActorInput {
    /// The start gate opened, or was dropped.
    Gate(bool),
    /// Whether the route was installed.
    RouteInstalled(bool),
    /// Whether the attachment began.
    AttachBegun(bool),
    /// A control message, or the end of them.
    Control(Option<ControlMessage>),
    /// The attachment succeeded.
    Attached {
        /// Whether the session is created by the first exchange.
        create_mode: bool,
        /// Whether the session is the one that was expected, if any was.
        expected: bool,
    },
    /// The attachment failed.
    AttachFailed,
    /// The session was claimed.
    Claimed,
    /// It was not.
    NotClaimed(ClaimSessionError),
    /// Whether the event was published.
    Emitted(bool),
    /// The generated session cannot be told as an outside one.
    NotNameable,
    /// Whether the refresh began.
    RefreshBegun(bool),
    /// Whether the refresh succeeded.
    Refreshed(bool),
    /// Whether the route was activated.
    Activated(bool),
    /// Whether the task was spawned.
    Spawned(bool),
    /// The exchange came to an end.
    Exchanged(ActorExchange),
    /// The exchange failed.
    ExchangeFailed(ExchangeFailure),
    /// A child task ended.
    Joined(ChildEnd),
    /// Tools are being cancelled.
    ToolsCancelled,
    /// A tool call ended.
    ToolDone(ToolOutcomeKind),
    /// The round was appended, with the size of the transcript; `None` means
    /// that it was refused.
    Appended(Option<usize>),
    /// The continuation was encoded, with its size; `None` means that it failed.
    Encoded(Option<usize>),
}

/// What is to be stopped when the work ends.
#[derive(Clone, Copy, Debug, PartialEq, Eq, Structural)]
pub struct Cleanup {
    /// The request to the session adapter that is under way.
    pub request: bool,
    /// The exchange that is under way.
    pub exchange: bool,
    /// The task that hands units on.
    pub fan_out: bool,
    /// The task that claims the session.
    pub claim: bool,
    /// The tool call that is under way.
    pub tools: bool,
}

/// Nothing is to be stopped.
pub open spec fn nothing() -> Cleanup {
    Cleanup { request: false, exchange: false, fan_out: false, claim: false, tools: false }
}

/// What the driver has to do.
#[derive(Clone, Copy, Debug, PartialEq, Eq, Structural)]
pub enum ActorAction {
    /// Give back the callback place and the transaction's place, and leave the
    /// registry; nothing was done.
    Abandon,
    /// End at once: the event stream is not usable.
    RejectStart(TransactionEndKind),
    /// Install the gateway route.
    InstallRoute,
    /// Begin the attachment.
    BeginAttach {
        /// Whether the route is part of it.
        with_route: bool,
        /// Whether it asks for the session that is known.
        requested: bool,
    },
    /// Wait for the attachment.
    AwaitAttach,
    /// Claim the session.
    Claim,
    /// Generate a session, and claim it.
    ClaimGenerated,
    /// Announce the session.
    Announce,
    /// Begin to refresh the route.
    BeginRefresh,
    /// Wait for the refresh.
    AwaitRefresh,
    /// Activate the route.
    Activate,
    /// Spawn the task that hands units on.
    SpawnFanOut,
    /// Spawn the task that claims the session.
    SpawnClaim,
    /// Run an exchange within what is left.
    RunExchange {
        /// Bytes that may be sent.
        remaining_input: usize,
        /// Bytes that may be received.
        remaining_output: usize,
    },
    /// Join the claim; stop handing units on where that is said.
    JoinClaim {
        /// Whether the task that hands units on is stopped first.
        abort_fan_out: bool,
    },
    /// Join the task that hands units on.
    JoinFanOut,
    /// Run the tool call at a position.
    DispatchTool(usize),
    /// Publish the events of a tool call.
    EmitOutcome,
    /// Publish the rejection of a tool call.
    EmitRejection,
    /// Append the round to the transcript.
    Append,
    /// Encode the continuation.
    Encode,
    /// The work is over.
    Finish {
        /// What it came to.
        kind: TransactionEndKind,
        /// What is to be stopped.
        cleanup: Cleanup,
    },
    /// Nothing.
    Ignore,
}

/// State of an actor.
#[derive(Clone, Copy, Debug, PartialEq, Eq, Structural)]
pub struct ActorState {
    /// What it waits for.
    pub phase: ActorPhase,
    /// Whether a gateway route is installed.
    pub route: bool,
    /// Whether the session is known.
    pub session_known: bool,
    /// Whether the first exchange creates the session.
    pub create_mode: bool,
    /// Whether the attachment is complete.
    pub attached: bool,
    /// Exchanges done.
    pub exchanges_done: usize,
    /// Continuations done.
    pub continuations_done: usize,
    /// Bytes sent.
    pub input_bytes: usize,
    /// Bytes received.
    pub output_bytes: usize,
}

/// State of an actor that waits for its start.
pub open spec fn initial(c: ActorSetting) -> ActorState {
    ActorState {
        phase: ActorPhase::AwaitingStart,
        route: false,
        session_known: c.session_known,
        create_mode: false,
        attached: false,
        exchanges_done: 0,
        continuations_done: 0,
        input_bytes: 0,
        output_bytes: 0,
    }
}

/// Kind of a control message; the end of messages counts as a cancellation.
pub open spec fn control_kind(c: Option<ControlMessage>) -> TransactionEndKind {
    match c {
        Some(ControlMessage::ForceTerminate) => TransactionEndKind::Terminated,
        _ => TransactionEndKind::Cancelled,
    }
}

/// Kind of a refused claim.
pub open spec fn claim_kind(e: ClaimSessionError) -> TransactionEndKind {
    match e {
        ClaimSessionError::CapacityExceeded => TransactionEndKind::LimitExceeded,
        _ => TransactionEndKind::InvariantFailed,
    }
}

/// The end of the work.
pub open spec fn ended(s: ActorState, kind: TransactionEndKind, cleanup: Cleanup) -> (
    ActorState,
    ActorAction,
) {
    (ActorState { phase: ActorPhase::Done, ..s }, ActorAction::Finish { kind, cleanup })
}

/// The end of the work, with nothing to be stopped.
pub open spec fn over(s: ActorState, kind: TransactionEndKind) -> (ActorState, ActorAction) {
    ended(s, kind, nothing())
}

/// Another phase and an action.
pub open spec fn moved(s: ActorState, phase: ActorPhase, a: ActorAction) -> (
    ActorState,
    ActorAction,
) {
    (ActorState { phase, ..s }, a)
}

/// Whether tools go through the gateway.
pub open spec fn uses_gateway(c: ActorSetting) -> bool {
    c.tool_mode == ToolExecutionMode::McpGateway && c.has_tools && c.mcp_reachability
        == McpReachability::SameLoopbackNamespace
}

/// The attachment begins.
pub open spec fn attach_begins(s: ActorState, c: ActorSetting, with_route: bool) -> (
    ActorState,
    ActorAction,
) {
    moved(
        s,
        ActorPhase::BeginningAttach { with_route },
        ActorAction::BeginAttach {
            with_route,
            requested: !c.provisional_external && s.session_known,
        },
    )
}

/// The start gate opened.
pub open spec fn gate_opened(s: ActorState, c: ActorSetting) -> (ActorState, ActorAction) {
    if c.schema_bytes > c.max_tool_schema_bytes {
        (
            ActorState { phase: ActorPhase::Done, ..s },
            ActorAction::RejectStart(TransactionEndKind::LimitExceeded),
        )
    } else if c.has_adapter {
        if uses_gateway(c) {
            if c.mcp_configuration == McpConfigurationCapability::CreationOnly
                && c.existing_session {
                over(s, TransactionEndKind::InvariantFailed)
            } else if !c.existing_session || c.mcp_configuration
                == McpConfigurationCapability::Refreshable {
                if !c.has_gateway {
                    over(s, TransactionEndKind::InvariantFailed)
                } else {
                    moved(s, ActorPhase::InstallingRoute, ActorAction::InstallRoute)
                }
            } else {
                attach_begins(s, c, false)
            }
        } else {
            attach_begins(s, c, false)
        }
    } else if c.provisional_external {
        moved(s, ActorPhase::ClaimingGenerated, ActorAction::ClaimGenerated)
    } else {
        moved(s, ActorPhase::SpawningFanOut, ActorAction::SpawnFanOut)
    }
}

/// The session is attached and known where it can be; on to the exchange.
pub open spec fn session_ready(s: ActorState, c: ActorSetting) -> (ActorState, ActorAction) {
    moved(
        ActorState { attached: c.has_adapter, ..s },
        ActorPhase::SpawningFanOut,
        ActorAction::SpawnFanOut,
    )
}

/// The loaded session was announced.
pub open spec fn loaded(s: ActorState, c: ActorSetting) -> (ActorState, ActorAction) {
    if !s.route {
        session_ready(s, c)
    } else if c.mcp_configuration == McpConfigurationCapability::Refreshable {
        moved(s, ActorPhase::BeginningRefresh, ActorAction::BeginRefresh)
    } else {
        moved(s, ActorPhase::Activating, ActorAction::Activate)
    }
}

/// An exchange begins, within what is left.
pub open spec fn exchange_begins(s: ActorState, c: ActorSetting, phase: ActorPhase) -> (
    ActorState,
    ActorAction,
) {
    moved(
        s,
        phase,
        ActorAction::RunExchange {
            remaining_input: left_of(c.max_input_bytes, s.input_bytes),
            remaining_output: left_of(c.max_output_bytes, s.output_bytes),
        },
    )
}

/// The units of the first exchange are counted.
pub open spec fn counted(s: ActorState, c: ActorSetting, r: ActorExchange) -> (
    ActorState,
    ActorAction,
) {
    let t = ActorState { output_bytes: sat_sum(s.output_bytes, r.unit_bytes), ..s };
    if t.output_bytes > c.max_output_bytes {
        over(t, TransactionEndKind::LimitExceeded)
    } else {
        moved(t, ActorPhase::JoiningFanOut(r), ActorAction::JoinFanOut)
    }
}

/// What follows an exchange.
pub open spec fn decided(s: ActorState, c: ActorSetting, r: ActorExchange) -> (
    ActorState,
    ActorAction,
) {
    if r.failure is Some {
        over(s, failure_kind(r.failure->0))
    } else if c.tool_mode != ToolExecutionMode::ModelToolCalls || r.ready == 0 {
        over(s, TransactionEndKind::Completed)
    } else if !s.session_known {
        over(s, TransactionEndKind::InvariantFailed)
    } else {
        moved(s, ActorPhase::Dispatching(r.ready, 0), ActorAction::DispatchTool(0))
    }
}

/// Bound on exchanges.
pub open spec fn exchange_bound(c: ActorSetting) -> usize {
    if c.max_provider_exchanges == 0 {
        1
    } else {
        c.max_provider_exchanges
    }
}

/// What follows a tool call: the next one, or the decision on a continuation.
pub open spec fn tool_over(s: ActorState, c: ActorSetting, ready: usize, at: usize) -> (
    ActorState,
    ActorAction,
) {
    if at + 1 < ready {
        let i = (at + 1) as usize;
        moved(s, ActorPhase::Dispatching(ready, i), ActorAction::DispatchTool(i))
    } else {
        match c.policy {
            ContinuationPolicy::CallerControlled => over(
                s,
                TransactionEndKind::ContinuationRequired,
            ),
            ContinuationPolicy::InlineToolContinuation => if s.continuations_done
                >= c.max_continuations || s.exchanges_done >= exchange_bound(c) {
                over(s, TransactionEndKind::LimitExceeded)
            } else {
                moved(s, ActorPhase::Appending, ActorAction::Append)
            },
        }
    }
}

/// A continuation is counted, and what follows it is decided.
pub open spec fn continued(s: ActorState, c: ActorSetting, r: ActorExchange) -> (
    ActorState,
    ActorAction,
) {
    let t = ActorState {
        input_bytes: sat_sum(s.input_bytes, r.request_bytes),
        output_bytes: sat_sum(s.output_bytes, r.unit_bytes),
        ..s
    };
    if t.output_bytes > c.max_output_bytes {
        over(t, TransactionEndKind::LimitExceeded)
    } else {
        decided(
            ActorState {
                exchanges_done: sat_sum(s.exchanges_done, 1),
                continuations_done: sat_sum(s.continuations_done, 1),
                ..t
            },
            c,
            r,
        )
    }
}

/// Kind that a child task failed with.
pub open spec fn child_kind(e: ChildEnd) -> TransactionEndKind {
    match e {
        ChildEnd::Failed(k) => k,
        _ => TransactionEndKind::InvariantFailed,
    }
}

/// Steps while the session is being established.
pub open spec fn next_session(s: ActorState, c: ActorSetting, input: ActorInput) -> (
    ActorState,
    ActorAction,
) {
    match (s.phase, input) {
        (ActorPhase::AwaitingStart, ActorInput::Gate(open)) => if open {
            gate_opened(s, c)
        } else {
            (ActorState { phase: ActorPhase::Done, ..s }, ActorAction::Abandon)
        },
        (ActorPhase::InstallingRoute, ActorInput::RouteInstalled(ok)) => if ok {
            attach_begins(
                ActorState { route: true, ..s },
                c,
                !c.existing_session && c.mcp_configuration
                    == McpConfigurationCapability::CreationOnly,
            )
        } else {
            over(s, TransactionEndKind::InvariantFailed)
        },
        (ActorPhase::BeginningAttach { with_route: _ }, ActorInput::AttachBegun(ok)) => if ok {
            moved(s, ActorPhase::Attaching, ActorAction::AwaitAttach)
        } else {
            over(s, TransactionEndKind::ChannelOpenFailed)
        },
        (ActorPhase::Attaching, ActorInput::Control(m)) => ended(
            s,
            control_kind(m),
            Cleanup { request: true, ..nothing() },
        ),
        (ActorPhase::Attaching, ActorInput::AttachFailed) => over(
            s,
            TransactionEndKind::ChannelOpenFailed,
        ),
        (ActorPhase::Attaching, ActorInput::Attached { create_mode, expected }) => if create_mode {
            session_ready(ActorState { create_mode: true, ..s }, c)
        } else if s.session_known {
            if expected {
                moved(s, ActorPhase::AnnouncingLoaded, ActorAction::Announce)
            } else {
                over(s, TransactionEndKind::InvariantFailed)
            }
        } else {
            moved(s, ActorPhase::ClaimingLoaded, ActorAction::Claim)
        },
        (ActorPhase::ClaimingLoaded, ActorInput::Claimed) => moved(
            ActorState { session_known: true, ..s },
            ActorPhase::AnnouncingLoaded,
            ActorAction::Announce,
        ),
        (ActorPhase::ClaimingLoaded, ActorInput::NotClaimed(e)) => over(s, claim_kind(e)),
        (ActorPhase::AnnouncingLoaded, ActorInput::Emitted(ok)) => if ok {
            loaded(s, c)
        } else {
            over(s, TransactionEndKind::EventDeliveryFailed)
        },
        (ActorPhase::BeginningRefresh, ActorInput::RefreshBegun(ok)) => if ok {
            moved(s, ActorPhase::Refreshing, ActorAction::AwaitRefresh)
        } else {
            moved(s, ActorPhase::Activating, ActorAction::Activate)
        },
        (ActorPhase::Refreshing, ActorInput::Control(m)) => ended(
            s,
            control_kind(m),
            Cleanup { request: true, ..nothing() },
        ),
        (ActorPhase::Refreshing, ActorInput::Refreshed(ok)) => if ok {
            moved(s, ActorPhase::Activating, ActorAction::Activate)
        } else {
            over(s, TransactionEndKind::InvariantFailed)
        },
        (ActorPhase::Activating, ActorInput::Activated(ok)) => if ok {
            session_ready(s, c)
        } else {
            over(s, TransactionEndKind::InvariantFailed)
        },
        (ActorPhase::ClaimingGenerated, ActorInput::Claimed) => moved(
            ActorState { session_known: true, ..s },
            ActorPhase::AnnouncingGenerated,
            ActorAction::Announce,
        ),
        (ActorPhase::ClaimingGenerated, ActorInput::NotClaimed(e)) => over(s, claim_kind(e)),
        (ActorPhase::AnnouncingGenerated, ActorInput::NotNameable) => over(
            s,
            TransactionEndKind::InvariantFailed,
        ),
        (ActorPhase::AnnouncingGenerated, ActorInput::Emitted(ok)) => if ok {
            session_ready(s, c)
        } else {
            over(s, TransactionEndKind::EventDeliveryFailed)
        },
        _ => (s, ActorAction::Ignore),
    }
}

/// Steps of the first exchange.
pub open spec fn next_exchange(s: ActorState, c: ActorSetting, input: ActorInput) -> (
    ActorState,
    ActorAction,
) {
    match (s.phase, input) {
        (ActorPhase::SpawningFanOut, ActorInput::Spawned(ok)) => if !ok {
            over(s, TransactionEndKind::InvariantFailed)
        } else if s.create_mode {
            moved(s, ActorPhase::SpawningClaim, ActorAction::SpawnClaim)
        } else {
            exchange_begins(s, c, ActorPhase::Exchanging)
        },
        (ActorPhase::SpawningClaim, ActorInput::Spawned(ok)) => if ok {
            exchange_begins(s, c, ActorPhase::Exchanging)
        } else {
            ended(
                s,
                TransactionEndKind::InvariantFailed,
                Cleanup { fan_out: true, ..nothing() },
            )
        },
        (ActorPhase::Exchanging, ActorInput::Control(m)) => ended(
            s,
            control_kind(m),
            Cleanup { exchange: true, fan_out: true, claim: s.create_mode, ..nothing() },
        ),
        (ActorPhase::Exchanging, ActorInput::ExchangeFailed(f)) => if s.create_mode {
            moved(
                s,
                ActorPhase::JoiningClaimAfterFailure(f),
                ActorAction::JoinClaim { abort_fan_out: true },
            )
        } else {
            ended(s, failure_kind(f), Cleanup { fan_out: true, ..nothing() })
        },
        (ActorPhase::JoiningClaimAfterFailure(f), ActorInput::Joined(e)) => if e
            == ChildEnd::Fine {
            over(s, failure_kind(f))
        } else {
            over(s, child_kind(e))
        },
        (ActorPhase::Exchanging, ActorInput::Exchanged(r)) => {
            let t = ActorState {
                exchanges_done: sat_sum(s.exchanges_done, 1),
                input_bytes: sat_sum(s.input_bytes, r.request_bytes),
                ..s
            };
            if s.create_mode {
                moved(
                    t,
                    ActorPhase::JoiningClaim(r),
                    ActorAction::JoinClaim { abort_fan_out: false },
                )
            } else {
                counted(t, c, r)
            }
        },
        (ActorPhase::JoiningClaim(r), ActorInput::Joined(e)) => if e != ChildEnd::Fine {
            over(s, child_kind(e))
        } else if !r.told_session {
            over(s, TransactionEndKind::InvariantFailed)
        } else {
            counted(ActorState { session_known: true, ..s }, c, r)
        },
        (ActorPhase::JoiningFanOut(r), ActorInput::Joined(e)) => if e == ChildEnd::Fine {
            decided(s, c, r)
        } else {
            over(s, child_kind(e))
        },
        _ => (s, ActorAction::Ignore),
    }
}

/// Steps of tool calls and of continuations.
pub open spec fn next_tools(s: ActorState, c: ActorSetting, input: ActorInput) -> (
    ActorState,
    ActorAction,
) {
    match (s.phase, input) {
        (ActorPhase::Dispatching(_, _), ActorInput::ToolsCancelled) => over(
            s,
            TransactionEndKind::Cancelled,
        ),
        (ActorPhase::Dispatching(_, _), ActorInput::Control(m)) => ended(
            s,
            control_kind(m),
            Cleanup { tools: true, ..nothing() },
        ),
        (ActorPhase::Dispatching(ready, at), ActorInput::ToolDone(o)) => moved(
            s,
            ActorPhase::EmittingOutcome(ready, at, o),
            ActorAction::EmitOutcome,
        ),
        (ActorPhase::EmittingOutcome(ready, at, o), ActorInput::Emitted(ok)) => if !ok {
            over(s, TransactionEndKind::EventDeliveryFailed)
        } else {
            match o {
                ToolOutcomeKind::Canonical => tool_over(s, c, ready, at),
                ToolOutcomeKind::Rejected => moved(
                    s,
                    ActorPhase::EmittingRejection(ready, at),
                    ActorAction::EmitRejection,
                ),
                ToolOutcomeKind::RuntimeFailed => over(s, TransactionEndKind::ToolExchangeFailed),
            }
        },
        (ActorPhase::EmittingRejection(ready, at), ActorInput::Emitted(ok)) => if ok {
            tool_over(s, c, ready, at)
        } else {
            over(s, TransactionEndKind::EventDeliveryFailed)
        },
        (ActorPhase::Appending, ActorInput::Appended(size)) => match size {
            None => over(s, TransactionEndKind::EncodingFailed),
            Some(n) => if n > c.max_context_bytes {
                over(s, TransactionEndKind::LimitExceeded)
            } else {
                moved(s, ActorPhase::Encoding, ActorAction::Encode)
            },
        },
        (ActorPhase::Encoding, ActorInput::Encoded(size)) => match size {
            None => over(s, TransactionEndKind::EncodingFailed),
            Some(n) => if n > c.max_context_bytes || n > c.max_encoded_bytes {
                over(s, TransactionEndKind::LimitExceeded)
            } else {
                moved(s, ActorPhase::SpawningContinuationFanOut, ActorAction::SpawnFanOut)
            },
        },
        (ActorPhase::SpawningContinuationFanOut, ActorInput::Spawned(ok)) => if ok {
            exchange_begins(s, c, ActorPhase::Continuing)
        } else {
            over(s, TransactionEndKind::InvariantFailed)
        },
        (ActorPhase::Continuing, ActorInput::Control(m)) => ended(
            s,
            control_kind(m),
            Cleanup { exchange: true, fan_out: true, ..nothing() },
        ),
        (ActorPhase::Continuing, ActorInput::ExchangeFailed(f)) => over(s, failure_kind(f)),
        (ActorPhase::Continuing, ActorInput::Exchanged(r)) => moved(
            s,
            ActorPhase::JoiningContinuationFanOut(r),
            ActorAction::JoinFanOut,
        ),
        (ActorPhase::JoiningContinuationFanOut(r), ActorInput::Joined(e)) => if e
            == ChildEnd::Fine {
            continued(s, c, r)
        } else {
            over(s, child_kind(e))
        },
        _ => (s, ActorAction::Ignore),
    }
}

/// Which part of the machine a phase belongs to.
pub enum ActorStage {
    /// The session is being established.
    Session,
    /// The first exchange.
    Exchange,
    /// Tool calls and continuations.
    Tools,
}

/// Which part of the machine a phase belongs to.
pub open spec fn stage_of(p: ActorPhase) -> ActorStage {
    match p {
        ActorPhase::SpawningFanOut
        | ActorPhase::SpawningClaim
        | ActorPhase::Exchanging
        | ActorPhase::JoiningClaimAfterFailure(_)
        | ActorPhase::JoiningClaim(_)
        | ActorPhase::JoiningFanOut(_) => ActorStage::Exchange,
        ActorPhase::Dispatching(_, _)
        | ActorPhase::EmittingOutcome(_, _, _)
        | ActorPhase::EmittingRejection(_, _)
        | ActorPhase::Appending
        | ActorPhase::Encoding
        | ActorPhase::SpawningContinuationFanOut
        | ActorPhase::Continuing
        | ActorPhase::JoiningContinuationFanOut(_) => ActorStage::Tools,
        _ => ActorStage::Session,
    }
}

/// The whole machine: next state and action for each report.
pub open spec fn next(s: ActorState, c: ActorSetting, input: ActorInput) -> (
    ActorState,
    ActorAction,
) {
    match stage_of(s.phase) {
        ActorStage::Session => next_session(s, c, input),
        ActorStage::Exchange => next_exchange(s, c, input),
        ActorStage::Tools => next_tools(s, c, input),
    }
}

/// What ends the race between the work, the delivery of events and the deadline.
#[derive(Clone, Copy, Debug, PartialEq, Eq, Structural)]
pub enum RaceEnd {
    /// Delivery failed, or stopped telling.
    Delivery {
        /// Whether it failed.
        failed: bool,
    },
    /// Out of time.
    Deadline,
    /// The work is over.
    Work(TransactionEndKind),
}

/// What is to be done once the race is over.
#[derive(Clone, Copy, Debug, PartialEq, Eq, Structural)]
pub struct Settlement {
    /// Terminal kind.
    pub kind: TransactionEndKind,
    /// Whether tools are cancelled and the work is joined within the time for
    /// cleaning up.
    pub cancel_work: bool,
    /// Whether the route is taken back.
    pub revoke: bool,
    /// Whether the agent is told that the route is gone.
    pub refresh: bool,
}

/// What the race comes to.
pub open spec fn settlement(s: ActorState, c: ActorSetting, race: RaceEnd) -> Settlement {
    Settlement {
        kind: match race {
            RaceEnd::Delivery { failed } => if failed {
                TransactionEndKind::EventDeliveryFailed
            } else {
                TransactionEndKind::Completed
            },
            RaceEnd::Deadline => TransactionEndKind::DeadlineExceeded,
            RaceEnd::Work(k) => k,
        },
        cancel_work: !(race is Work),
        revoke: s.route && c.has_gateway,
        refresh: s.route && c.has_gateway && s.attached && c.has_adapter,
    }
}

/// Actor of one transaction.
#[derive(Clone, Copy, Debug, PartialEq, Eq, Structural)]
pub struct ActorRun {
    /// What it started from.
    pub setting: ActorSetting,
    /// State.
    pub state: ActorState,
}

fn of_control(c: Option<ControlMessage>) -> (r: TransactionEndKind)
    ensures
        r == control_kind(c),
{
    match c {
        Some(ControlMessage::ForceTerminate) => TransactionEndKind::Terminated,
        _ => TransactionEndKind::Cancelled,
    }
}

/// Terminal kind of a refused claim.
pub fn of_claim(e: ClaimSessionError) -> (r: TransactionEndKind)
    ensures
        r == claim_kind(e),
{
    match e {
        ClaimSessionError::CapacityExceeded => TransactionEndKind::LimitExceeded,
        _ => TransactionEndKind::InvariantFailed,
    }
}

fn of_child(e: ChildEnd) -> (r: TransactionEndKind)
    ensures
        r == child_kind(e),
{
    match e {
        ChildEnd::Failed(k) => k,
        _ => TransactionEndKind::InvariantFailed,
    }
}

impl ActorRun {
    /// An actor that waits for its start.
    pub fn new(setting: ActorSetting) -> (r: Self)
        ensures
            r.setting == setting,
            r.state == initial(setting),
    {
        ActorRun {
            setting,
            state: ActorState {
                phase: ActorPhase::AwaitingStart,
                route: false,
                session_known: setting.session_known,
                create_mode: false,
                attached: false,
                exchanges_done: 0,
                continuations_done: 0,
                input_bytes: 0,
                output_bytes: 0,
            },
        }
    }

    fn finish_with(&mut self, kind: TransactionEndKind, cleanup: Cleanup) -> (r: ActorAction)
        ensures
            final(self).setting == old(self).setting,
            (final(self).state, r) == ended(old(self).state, kind, cleanup),
    {
        self.state.phase = ActorPhase::Done;
        ActorAction::Finish { kind, cleanup }
    }

    fn finish(&mut self, kind: TransactionEndKind) -> (r: ActorAction)
        ensures
            final(self).setting == old(self).setting,
            (final(self).state, r) == over(old(self).state, kind),
    {
        self.finish_with(
            kind,
            Cleanup { request: false, exchange: false, fan_out: false, claim: false, tools: false },
        )
    }

    fn begin_attach(&mut self, with_route: bool) -> (r: ActorAction)
        ensures
            final(self).setting == old(self).setting,
            (final(self).state, r) == attach_begins(
                old(self).state,
                old(self).setting,
                with_route,
            ),
    {
        self.state.phase = ActorPhase::BeginningAttach { with_route };
        ActorAction::BeginAttach {
            with_route,
            requested: !self.setting.provisional_external && self.state.session_known,
        }
    }

    fn begin(&mut self) -> (r: ActorAction)
        ensures
            final(self).setting == old(self).setting,
            (final(self).state, r) == gate_opened(old(self).state, old(self).setting),
    {
        let c = self.setting;
        if c.schema_bytes > c.max_tool_schema_bytes {
            self.state.phase = ActorPhase::Done;
            return ActorAction::RejectStart(TransactionEndKind::LimitExceeded);
        }
        if c.has_adapter {
            let gateway: bool = c.tool_mode == ToolExecutionMode::McpGateway && c.has_tools
                && c.mcp_reachability == McpReachability::SameLoopbackNamespace;
            if gateway {
                if c.mcp_configuration == McpConfigurationCapability::CreationOnly
                    && c.existing_session {
                    return self.finish(TransactionEndKind::InvariantFailed);
                }
                if !c.existing_session || c.mcp_configuration
                    == McpConfigurationCapability::Refreshable {
                    if !c.has_gateway {
                        return self.finish(TransactionEndKind::InvariantFailed);
                    }
                    self.state.phase = ActorPhase::InstallingRoute;
                    return ActorAction::InstallRoute;
                }
            }
            return self.begin_attach(false);
        }
        if c.provisional_external {
            self.state.phase = ActorPhase::ClaimingGenerated;
            return ActorAction::ClaimGenerated;
        }
        self.state.phase = ActorPhase::SpawningFanOut;
        ActorAction::SpawnFanOut
    }

    fn spawn_fan_out(&mut self) -> (r: ActorAction)
        ensures
            final(self).setting == old(self).setting,
            (final(self).state, r) == session_ready(old(self).state, old(self).setting),
    {
        self.state.attached = self.setting.has_adapter;
        self.state.phase = ActorPhase::SpawningFanOut;
        ActorAction::SpawnFanOut
    }

    fn on_loaded(&mut self) -> (r: ActorAction)
        ensures
            final(self).setting == old(self).setting,
            (final(self).state, r) == loaded(old(self).state, old(self).setting),
    {
        if !self.state.route {
            return self.spawn_fan_out();
        }
        if self.setting.mcp_configuration == McpConfigurationCapability::Refreshable {
            self.state.phase = ActorPhase::BeginningRefresh;
            return ActorAction::BeginRefresh;
        }
        self.state.phase = ActorPhase::Activating;
        ActorAction::Activate
    }

    fn begin_exchange(&mut self, phase: ActorPhase) -> (r: ActorAction)
        ensures
            final(self).setting == old(self).setting,
            (final(self).state, r) == exchange_begins(old(self).state, old(self).setting, phase),
    {
        self.state.phase = phase;
        ActorAction::RunExchange {
            remaining_input: self.setting.max_input_bytes.saturating_sub(self.state.input_bytes),
            remaining_output: self.setting.max_output_bytes.saturating_sub(self.state.output_bytes),
        }
    }

    fn count(&mut self, r: ActorExchange) -> (a: ActorAction)
        ensures
            final(self).setting == old(self).setting,
            (final(self).state, a) == counted(old(self).state, old(self).setting, r),
    {
        self.state.output_bytes = self.state.output_bytes.saturating_add(r.unit_bytes);
        if self.state.output_bytes > self.setting.max_output_bytes {
            return self.finish(TransactionEndKind::LimitExceeded);
        }
        self.state.phase = ActorPhase::JoiningFanOut(r);
        ActorAction::JoinFanOut
    }

    fn decide(&mut self, r: ActorExchange) -> (a: ActorAction)
        ensures
            final(self).setting == old(self).setting,
            (final(self).state, a) == decided(old(self).state, old(self).setting, r),
    {
        match r.failure {
            Some(f) => {
                return self.finish(map_exchange_failure(f));
            },
            None => {},
        }
        if self.setting.tool_mode != ToolExecutionMode::ModelToolCalls || r.ready == 0 {
            return self.finish(TransactionEndKind::Completed);
        }
        if !self.state.session_known {
            return self.finish(TransactionEndKind::InvariantFailed);
        }
        self.state.phase = ActorPhase::Dispatching(r.ready, 0);
        ActorAction::DispatchTool(0)
    }

    fn after_tool(&mut self, ready: usize, at: usize) -> (r: ActorAction)
        ensures
            final(self).setting == old(self).setting,
            (final(self).state, r) == tool_over(old(self).state, old(self).setting, ready, at),
    {
        if at < ready && at + 1 < ready {
            let i: usize = at + 1;
            self.state.phase = ActorPhase::Dispatching(ready, i);
            return ActorAction::DispatchTool(i);
        }
        match self.setting.policy {
            ContinuationPolicy::CallerControlled => self.finish(
                TransactionEndKind::ContinuationRequired,
            ),
            ContinuationPolicy::InlineToolContinuation => {
                let bound: usize = if self.setting.max_provider_exchanges == 0 {
                    1
                } else {
                    self.setting.max_provider_exchanges
                };
                if self.state.continuations_done >= self.setting.max_continuations
                    || self.state.exchanges_done >= bound {
                    self.finish(TransactionEndKind::LimitExceeded)
                } else {
                    self.state.phase = ActorPhase::Appending;
                    ActorAction::Append
                }
            },
        }
    }

    fn on_continued(&mut self, r: ActorExchange) -> (a: ActorAction)
        ensures
            final(self).setting == old(self).setting,
            (final(self).state, a) == continued(old(self).state, old(self).setting, r),
    {
        self.state.input_bytes = self.state.input_bytes.saturating_add(r.request_bytes);
        self.state.output_bytes = self.state.output_bytes.saturating_add(r.unit_bytes);
        if self.state.output_bytes > self.setting.max_output_bytes {
            return self.finish(TransactionEndKind::LimitExceeded);
        }
        self.state.exchanges_done = self.state.exchanges_done.saturating_add(1);
        self.state.continuations_done = self.state.continuations_done.saturating_add(1);
        self.decide(r)
    }

    fn step_session(&mut self, input: ActorInput) -> (r: ActorAction)
        ensures
            final(self).setting == old(self).setting,
            (final(self).state, r) == next_session(old(self).state, old(self).setting, input),
    {
        match (self.state.phase, input) {
            (ActorPhase::AwaitingStart, ActorInput::Gate(open)) => {
                if open {
                    self.begin()
                } else {
                    self.state.phase = ActorPhase::Done;
                    ActorAction::Abandon
                }
            },
            (ActorPhase::InstallingRoute, ActorInput::RouteInstalled(ok)) => {
                if !ok {
                    return self.finish(TransactionEndKind::InvariantFailed);
                }
                self.state.route = true;
                self.begin_attach(
                    !self.setting.existing_session && self.setting.mcp_configuration
                        == McpConfigurationCapability::CreationOnly,
                )
            },
            (ActorPhase::BeginningAttach { with_route: _ }, ActorInput::AttachBegun(ok)) => {
                if !ok {
                    return self.finish(TransactionEndKind::ChannelOpenFailed);
                }
                self.state.phase = ActorPhase::Attaching;
                ActorAction::AwaitAttach
            },
            (ActorPhase::Attaching, ActorInput::Control(m)) => self.finish_with(
                of_control(m),
                Cleanup { request: true, exchange: false, fan_out: false, claim: false, tools: false },
            ),
            (ActorPhase::Attaching, ActorInput::AttachFailed) => self.finish(
                TransactionEndKind::ChannelOpenFailed,
            ),
            (ActorPhase::Attaching, ActorInput::Attached { create_mode, expected }) => {
                if create_mode {
                    self.state.create_mode = true;
                    return self.spawn_fan_out();
                }
                if !self.state.session_known {
                    self.state.phase = ActorPhase::ClaimingLoaded;
                    return ActorAction::Claim;
                }
                if !expected {
                    return self.finish(TransactionEndKind::InvariantFailed);
                }
                self.state.phase = ActorPhase::AnnouncingLoaded;
                ActorAction::Announce
            },
            (ActorPhase::ClaimingLoaded, ActorInput::Claimed) => {
                self.state.session_known = true;
                self.state.phase = ActorPhase::AnnouncingLoaded;
                ActorAction::Announce
            },
            (ActorPhase::ClaimingLoaded, ActorInput::NotClaimed(e)) => self.finish(of_claim(e)),
            (ActorPhase::AnnouncingLoaded, ActorInput::Emitted(ok)) => {
                if ok {
                    self.on_loaded()
                } else {
                    self.finish(TransactionEndKind::EventDeliveryFailed)
                }
            },
            (ActorPhase::BeginningRefresh, ActorInput::RefreshBegun(ok)) => {
                if ok {
                    self.state.phase = ActorPhase::Refreshing;
                    ActorAction::AwaitRefresh
                } else {
                    self.state.phase = ActorPhase::Activating;
                    ActorAction::Activate
                }
            },
            (ActorPhase::Refreshing, ActorInput::Control(m)) => self.finish_with(
                of_control(m),
                Cleanup { request: true, exchange: false, fan_out: false, claim: false, tools: false },
            ),
            (ActorPhase::Refreshing, ActorInput::Refreshed(ok)) => {
                if ok {
                    self.state.phase = ActorPhase::Activating;
                    ActorAction::Activate
                } else {
                    self.finish(TransactionEndKind::InvariantFailed)
                }
            },
            (ActorPhase::Activating, ActorInput::Activated(ok)) => {
                if ok {
                    self.spawn_fan_out()
                } else {
                    self.finish(TransactionEndKind::InvariantFailed)
                }
            },
            (ActorPhase::ClaimingGenerated, ActorInput::Claimed) => {
                self.state.session_known = true;
                self.state.phase = ActorPhase::AnnouncingGenerated;
                ActorAction::Announce
            },
            (ActorPhase::ClaimingGenerated, ActorInput::NotClaimed(e)) => self.finish(of_claim(e)),
            (ActorPhase::AnnouncingGenerated, ActorInput::NotNameable) => self.finish(
                TransactionEndKind::InvariantFailed,
            ),
            (ActorPhase::AnnouncingGenerated, ActorInput::Emitted(ok)) => {
                if ok {
                    self.spawn_fan_out()
                } else {
                    self.finish(TransactionEndKind::EventDeliveryFailed)
                }
            },
            _ => ActorAction::Ignore,
        }
    }

    fn step_exchange(&mut self, input: ActorInput) -> (r: ActorAction)
        ensures
            final(self).setting == old(self).setting,
            (final(self).state, r) == next_exchange(old(self).state, old(self).setting, input),
    {
        match (self.state.phase, input) {
            (ActorPhase::SpawningFanOut, ActorInput::Spawned(ok)) => {
                if !ok {
                    self.finish(TransactionEndKind::InvariantFailed)
                } else if self.state.create_mode {
                    self.state.phase = ActorPhase::SpawningClaim;
                    ActorAction::SpawnClaim
                } else {
                    self.begin_exchange(ActorPhase::Exchanging)
                }
            },
            (ActorPhase::SpawningClaim, ActorInput::Spawned(ok)) => {
                if ok {
                    self.begin_exchange(ActorPhase::Exchanging)
                } else {
                    self.finish_with(
                        TransactionEndKind::InvariantFailed,
                        Cleanup { request: false, exchange: false, fan_out: true, claim: false, tools: false },
                    )
                }
            },
            (ActorPhase::Exchanging, ActorInput::Control(m)) => {
                let claim: bool = self.state.create_mode;
                self.finish_with(
                    of_control(m),
                    Cleanup { request: false, exchange: true, fan_out: true, claim, tools: false },
                )
            },
            (ActorPhase::Exchanging, ActorInput::ExchangeFailed(f)) => {
                if self.state.create_mode {
                    self.state.phase = ActorPhase::JoiningClaimAfterFailure(f);
                    ActorAction::JoinClaim { abort_fan_out: true }
                } else {
                    self.finish_with(
                        map_exchange_failure(f),
                        Cleanup { request: false, exchange: false, fan_out: true, claim: false, tools: false },
                    )
                }
            },
            (ActorPhase::JoiningClaimAfterFailure(f), ActorInput::Joined(e)) => match e {
                ChildEnd::Fine => self.finish(map_exchange_failure(f)),
                _ => self.finish(of_child(e)),
            },
            (ActorPhase::Exchanging, ActorInput::Exchanged(r)) => {
                self.state.exchanges_done = self.state.exchanges_done.saturating_add(1);
                self.state.input_bytes = self.state.input_bytes.saturating_add(r.request_bytes);
                if self.state.create_mode {
                    self.state.phase = ActorPhase::JoiningClaim(r);
                    ActorAction::JoinClaim { abort_fan_out: false }
                } else {
                    self.count(r)
                }
            },
            (ActorPhase::JoiningClaim(r), ActorInput::Joined(e)) => match e {
                ChildEnd::Fine => {
                    if !r.told_session {
                        self.finish(TransactionEndKind::InvariantFailed)
                    } else {
                        self.state.session_known = true;
                        self.count(r)
                    }
                },
                _ => self.finish(of_child(e)),
            },
            (ActorPhase::JoiningFanOut(r), ActorInput::Joined(e)) => match e {
                ChildEnd::Fine => self.decide(r),
                _ => self.finish(of_child(e)),
            },
            _ => ActorAction::Ignore,
        }
    }

    fn step_tools(&mut self, input: ActorInput) -> (r: ActorAction)
        ensures
            final(self).setting == old(self).setting,
            (final(self).state, r) == next_tools(old(self).state, old(self).setting, input),
    {
        match (self.state.phase, input) {
            (ActorPhase::Dispatching(_, _), ActorInput::ToolsCancelled) => self.finish(
                TransactionEndKind::Cancelled,
            ),
            (ActorPhase::Dispatching(_, _), ActorInput::Control(m)) => self.finish_with(
                of_control(m),
                Cleanup { request: false, exchange: false, fan_out: false, claim: false, tools: true },
            ),
            (ActorPhase::Dispatching(ready, at), ActorInput::ToolDone(o)) => {
                self.state.phase = ActorPhase::EmittingOutcome(ready, at, o);
                ActorAction::EmitOutcome
            },
            (ActorPhase::EmittingOutcome(ready, at, o), ActorInput::Emitted(ok)) => {
                if !ok {
                    return self.finish(TransactionEndKind::EventDeliveryFailed);
                }
                match o {
                    ToolOutcomeKind::Canonical => self.after_tool(ready, at),
                    ToolOutcomeKind::Rejected => {
                        self.state.phase = ActorPhase::EmittingRejection(ready, at);
                        ActorAction::EmitRejection
                    },
                    ToolOutcomeKind::RuntimeFailed => self.finish(
                        TransactionEndKind::ToolExchangeFailed,
                    ),
                }
            },
            (ActorPhase::EmittingRejection(ready, at), ActorInput::Emitted(ok)) => {
                if ok {
                    self.after_tool(ready, at)
                } else {
                    self.finish(TransactionEndKind::EventDeliveryFailed)
                }
            },
            (ActorPhase::Appending, ActorInput::Appended(size)) => match size {
                None => self.finish(TransactionEndKind::EncodingFailed),
                Some(n) => {
                    if n > self.setting.max_context_bytes {
                        self.finish(TransactionEndKind::LimitExceeded)
                    } else {
                        self.state.phase = ActorPhase::Encoding;
                        ActorAction::Encode
                    }
                },
            },
            (ActorPhase::Encoding, ActorInput::Encoded(size)) => match size {
                None => self.finish(TransactionEndKind::EncodingFailed),
                Some(n) => {
                    if n > self.setting.max_context_bytes || n > self.setting.max_encoded_bytes {
                        self.finish(TransactionEndKind::LimitExceeded)
                    } else {
                        self.state.phase = ActorPhase::SpawningContinuationFanOut;
                        ActorAction::SpawnFanOut
                    }
                },
            },
            (ActorPhase::SpawningContinuationFanOut, ActorInput::Spawned(ok)) => {
                if ok {
                    self.begin_exchange(ActorPhase::Continuing)
                } else {
                    self.finish(TransactionEndKind::InvariantFailed)
                }
            },
            (ActorPhase::Continuing, ActorInput::Control(m)) => self.finish_with(
                of_control(m),
                Cleanup { request: false, exchange: true, fan_out: true, claim: false, tools: false },
            ),
            (ActorPhase::Continuing, ActorInput::ExchangeFailed(f)) => self.finish(
                map_exchange_failure(f),
            ),
            (ActorPhase::Continuing, ActorInput::Exchanged(r)) => {
                self.state.phase = ActorPhase::JoiningContinuationFanOut(r);
                ActorAction::JoinFanOut
            },
            (ActorPhase::JoiningContinuationFanOut(r), ActorInput::Joined(e)) => match e {
                ChildEnd::Fine => self.on_continued(r),
                _ => self.finish(of_child(e)),
            },
            _ => ActorAction::Ignore,
        }
    }

    /// One step of the machine.
    pub fn step(&mut self, input: ActorInput) -> (r: ActorAction)
        ensures
            final(self).setting == old(self).setting,
            (final(self).state, r) == next(old(self).state, old(self).setting, input),
    {
        match self.state.phase {
            ActorPhase::SpawningFanOut
            | ActorPhase::SpawningClaim
            | ActorPhase::Exchanging
            | ActorPhase::JoiningClaimAfterFailure(_)
            | ActorPhase::JoiningClaim(_)
            | ActorPhase::JoiningFanOut(_) => self.step_exchange(input),
            ActorPhase::Dispatching(_, _)
            | ActorPhase::EmittingOutcome(_, _, _)
            | ActorPhase::EmittingRejection(_, _)
            | ActorPhase::Appending
            | ActorPhase::Encoding
            | ActorPhase::SpawningContinuationFanOut
            | ActorPhase::Continuing
            | ActorPhase::JoiningContinuationFanOut(_) => self.step_tools(input),
            _ => self.step_session(input),
        }
    }

    /// Picks the terminal kind once the race is over, and gives the route up.
    pub fn settle(&mut self, race: RaceEnd) -> (r: Settlement)
        ensures
            final(self).setting == old(self).setting,
            final(self).state == (ActorState { route: false, ..old(self).state }),
            r == settlement(old(self).state, old(self).setting, race),
    {
        let revoke: bool = self.state.route && self.setting.has_gateway;
        let refresh: bool = revoke && self.state.attached && self.setting.has_adapter;
        self.state.route = false;
        match race {
            RaceEnd::Delivery { failed } => Settlement {
                kind: if failed {
                    TransactionEndKind::EventDeliveryFailed
                } else {
                    TransactionEndKind::Completed
                },
                cancel_work: true,
                revoke,
                refresh,
            },
            RaceEnd::Deadline => Settlement {
                kind: TransactionEndKind::DeadlineExceeded,
                cancel_work: true,
                revoke,
                refresh,
            },
            RaceEnd::Work(kind) => Settlement { kind, cancel_work: false, revoke, refresh },
        }
    }
}

/// What every reachable state has: exchanges and continuations are within
/// bounds, and a session is known wherever tools run.
pub open spec fn within_bounds(s: ActorState, c: ActorSetting) -> bool {
    &&& s.exchanges_done <= exchange_bound(c)
    &&& s.continuations_done <= c.max_continuations
    &&& stage_of(s.phase) is Session && !is_done(s) ==> s.exchanges_done == 0
    &&& !is_done(s) ==> s.output_bytes <= c.max_output_bytes
    &&& (s.phase is SpawningFanOut || s.phase is SpawningClaim || s.phase is Exchanging)
        ==> s.exchanges_done == 0
    &&& (s.phase is Appending || s.phase is Encoding || s.phase is SpawningContinuationFanOut
        || s.phase is Continuing || s.phase is JoiningContinuationFanOut) ==> s.exchanges_done
        < exchange_bound(c) && s.continuations_done < c.max_continuations
    &&& stage_of(s.phase) is Tools ==> s.session_known && c.tool_mode
        == ToolExecutionMode::ModelToolCalls
    &&& s.route ==> c.has_gateway
    &&& s.phase == ActorPhase::InstallingRoute ==> c.has_gateway
}

/// Bounds hold at the start.
pub proof fn bounds_start(c: ActorSetting)
    ensures
        within_bounds(initial(c), c),
{
}

/// Whether nothing more is to be done.
pub open spec fn is_done(s: ActorState) -> bool {
    s.phase == ActorPhase::Done
}

/// Every step keeps the bounds: no more continuations than allowed, no more
/// exchanges than allowed, no tool call without a known session, or unless the
/// model states tool calls.
pub proof fn bounds_are_kept(s: ActorState, c: ActorSetting, input: ActorInput)
    requires
        within_bounds(s, c),
    ensures
        within_bounds(next(s, c, input).0, c),
{
}

/// An exchange gets no more bytes than the transaction has left.
pub proof fn exchange_stays_in_budget(s: ActorState, c: ActorSetting, input: ActorInput)
    ensures
        next(s, c, input).1 matches ActorAction::RunExchange { remaining_input, remaining_output }
            ==> (remaining_input == 0 || s.input_bytes + remaining_input <= c.max_input_bytes) && (
        remaining_output == 0 || s.output_bytes + remaining_output <= c.max_output_bytes),
{
}

/// The work ends once: a state that is done answers nothing further.
pub proof fn work_ends_once(s: ActorState, c: ActorSetting, input: ActorInput)
    ensures
        is_done(s) ==> next(s, c, input) == (s, ActorAction::Ignore),
        next(s, c, input).1 is Finish ==> is_done(next(s, c, input).0),
{
}

/// A control message ends whatever waits for the outside, with what it asks for.
pub proof fn control_is_obeyed(s: ActorState, c: ActorSetting, m: Option<ControlMessage>)
    requires
        s.phase == ActorPhase::Attaching || s.phase == ActorPhase::Refreshing || s.phase
            == ActorPhase::Exchanging || s.phase == ActorPhase::Continuing
            || s.phase is Dispatching,
    ensures
        next(s, c, ActorInput::Control(m)).1 matches ActorAction::Finish { kind, cleanup } && kind
            == control_kind(m) && cleanup.exchange == (s.phase == ActorPhase::Exchanging || s.phase
            == ActorPhase::Continuing),
{
}

/// A route that was installed is taken back when the race is over, whatever
/// ended it.
pub proof fn route_is_taken_back(s: ActorState, c: ActorSetting, race: RaceEnd)
    requires
        within_bounds(s, c),
    ensures
        settlement(s, c, race).revoke == s.route,
{
}

} // verus!
