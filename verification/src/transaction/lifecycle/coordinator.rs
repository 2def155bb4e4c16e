//! The coordinator of one transaction: session, exchange, tools, continuation,
//! and the terminal that it proposes.
//!
//! [`Coordinator::step`] is the machine; the driver performs the action that a
//! step returns and reports what happened. A terminal is only proposed: the
//! supervisor decides.

use crate::identity::TransactionId;
use crate::messages::{estimate_messages_bytes, sat_sum, transcript_bytes, CanonicalMessage};
use crate::transaction::channel_registry::{
    ChannelKind, ContinuationPolicy, McpConfigurationCapability, ToolExecutionMode,
};
use crate::transaction::lifecycle::exchange::PromptProceedError;
use crate::transaction::lifecycle::ledger::{LedgerEntry, LedgerInsertError};
use crate::transaction::lifecycle::loop_dispatch::{Interruptible, LoopDispatchError};
use crate::transaction::lifecycle::shared::{lemma_row_update, RuntimeShared};
use crate::transaction::lifecycle::terminal::TerminalProposal;
use crate::transaction::types::TransactionEndKind;
use vstd::prelude::*;

verus! {

/// Least number of bytes of units that an exchange may retain.
pub const MIN_RETAINED_BYTES: usize = 65536;

/// What a coordinator starts from.
#[derive(Clone, Copy, Debug, PartialEq, Eq, Structural)]
pub struct CoordinatorSetting {
    /// Whether the channel is known.
    pub channel_known: bool,
    /// Whether the configuration could be merged.
    pub config_ok: bool,
    /// What is behind the channel.
    pub kind: ChannelKind,
    /// Whether the connector keeps sessions.
    pub has_sessions: bool,
    /// How tools reach the model.
    pub tool_mode: ToolExecutionMode,
    /// When a gateway can be configured.
    pub mcp_configuration: McpConfigurationCapability,
    /// Whether tools were selected.
    pub has_tools: bool,
    /// Whether there is a gateway.
    pub has_gateway: bool,
    /// Who goes on after tool calls.
    pub policy: ContinuationPolicy,
    /// Most exchanges.
    pub max_provider_exchanges: usize,
    /// Most continuations.
    pub max_continuations: usize,
    /// Most bytes of the transcript.
    pub max_context_bytes: usize,
    /// Most bytes sent to the provider.
    pub max_input_bytes: usize,
    /// Most bytes received from the provider.
    pub max_output_bytes: usize,
}

/// What an exchange came to.
#[derive(Clone, Copy, Debug, PartialEq, Eq, Structural)]
pub struct ExchangeReport {
    /// Proposed kind.
    pub terminal: TransactionEndKind,
    /// Bytes sent.
    pub input_bytes: usize,
    /// Bytes received.
    pub output_bytes: usize,
    /// Whether an outside session was told that has not been announced.
    pub unannounced_session: bool,
    /// Number of units.
    pub units: usize,
    /// Whether a complete tool request is among them.
    pub has_ready: bool,
}

/// What the coordinator waits for.
#[derive(Clone, Copy, Debug, PartialEq, Eq, Structural)]
pub enum CoordinatorPhase {
    /// Its start.
    Idle,
    /// The gateway route.
    InstallingRoute,
    /// The attachment to begin.
    BeginningAttach,
    /// The attachment.
    Attaching,
    /// The first exchange.
    Exchanging,
    /// The session to be announced.
    Announcing(ExchangeReport),
    /// A unit of the first exchange to be published.
    Publishing(ExchangeReport, usize),
    /// The tools of the first exchange.
    Looping(TransactionEndKind),
    /// A round to be appended to the transcript.
    Appending,
    /// The transcript to be checked.
    CheckingContext,
    /// A further exchange.
    Continuing,
    /// A unit of a further exchange to be published.
    ContinuationPublishing(ExchangeReport, usize),
    /// The tools of a further exchange.
    ContinuationLooping,
    /// Nothing.
    Done,
}

/// What the driver reports.
#[derive(Clone, Copy, Debug, PartialEq, Eq, Structural)]
pub enum CoordinatorInput {
    /// Begin.
    Start,
    /// Whether the gateway route was installed.
    RouteInstalled(bool),
    /// Whether the attachment began.
    AttachBegun(bool),
    /// The transaction was cancelled.
    Cancelled,
    /// Whether the attachment succeeded.
    Attached(bool),
    /// An exchange ended.
    ExchangeEnded(ExchangeReport),
    /// How announcing or publishing went.
    Sent(Interruptible),
    /// The tools were run; with results or without.
    ToolsRun(bool),
    /// Running the tools failed.
    ToolsFailed(LoopDispatchError),
    /// The round was appended; with the size of the transcript. `None` means
    /// that it was refused.
    Appended(Option<usize>),
    /// Whether the transcript can be a context.
    ContextChecked(bool),
}

/// What the driver has to do.
#[derive(Clone, Copy, Debug, PartialEq, Eq, Structural)]
pub enum CoordinatorAction {
    /// Install the gateway route.
    InstallRoute,
    /// Begin the attachment; with the route in it or without.
    BeginAttach {
        /// Whether the route is part of it.
        with_route: bool,
    },
    /// Wait for the attachment.
    AwaitAttach,
    /// Run the first exchange; behind the prompt gate or not.
    RunExchange {
        /// Whether the prompt gate stands before it.
        gated: bool,
    },
    /// Announce the outside session.
    AnnounceSession,
    /// Publish the unit at a position.
    PublishUnit(usize),
    /// Run the tools over the units.
    RunTools,
    /// Append a round to the transcript.
    AppendRound,
    /// Check the transcript.
    CheckContext,
    /// Run a further exchange within what is left.
    RunContinuation {
        /// Bytes that may be sent.
        remaining_input: usize,
        /// Bytes that may be received.
        remaining_output: usize,
    },
    /// Take the route back where there is one, and propose a terminal.
    Propose {
        /// The terminal.
        kind: TransactionEndKind,
        /// Whether a route is to be taken back.
        revoke: bool,
    },
    /// Nothing.
    Ignore,
}

/// State of a coordinator.
#[derive(Clone, Copy, Debug, PartialEq, Eq, Structural)]
pub struct CoordinatorState {
    /// What it waits for.
    pub phase: CoordinatorPhase,
    /// Whether a gateway route is installed.
    pub route: bool,
    /// Rounds begun.
    pub round: usize,
    /// Exchanges that succeeded.
    pub exchanges_used: usize,
    /// Bytes sent.
    pub input_used: usize,
    /// Bytes received.
    pub output_used: usize,
}

/// What is left of a budget.
pub open spec fn left_of(max: usize, used: usize) -> usize {
    if used > max {
        0
    } else {
        (max - used) as usize
    }
}

/// A proposal.
pub open spec fn proposed(s: CoordinatorState, kind: TransactionEndKind) -> (
    CoordinatorState,
    CoordinatorAction,
) {
    (
        CoordinatorState { phase: CoordinatorPhase::Done, route: false, ..s },
        CoordinatorAction::Propose { kind, revoke: s.route },
    )
}

/// Another phase and an action.
pub open spec fn moved(s: CoordinatorState, phase: CoordinatorPhase, a: CoordinatorAction) -> (
    CoordinatorState,
    CoordinatorAction,
) {
    (CoordinatorState { phase, ..s }, a)
}

/// Whether a route is installed before the attachment.
pub open spec fn installs_route(c: CoordinatorSetting) -> bool {
    c.tool_mode == ToolExecutionMode::McpGateway && c.has_tools && c.mcp_configuration
        == McpConfigurationCapability::CreationOnly
}

/// The start.
pub open spec fn started(s: CoordinatorState, c: CoordinatorSetting) -> (
    CoordinatorState,
    CoordinatorAction,
) {
    if !c.channel_known || !c.config_ok {
        proposed(s, TransactionEndKind::InvariantFailed)
    } else if c.max_provider_exchanges == 0 {
        proposed(s, TransactionEndKind::LimitExceeded)
    } else {
        match c.kind {
            ChannelKind::DirectLlm => moved(
                s,
                CoordinatorPhase::Exchanging,
                CoordinatorAction::RunExchange { gated: false },
            ),
            ChannelKind::ExternalAgent => if !c.has_sessions {
                proposed(s, TransactionEndKind::InvariantFailed)
            } else if !installs_route(c) {
                moved(
                    s,
                    CoordinatorPhase::BeginningAttach,
                    CoordinatorAction::BeginAttach { with_route: false },
                )
            } else if !c.has_gateway {
                proposed(s, TransactionEndKind::InvariantFailed)
            } else {
                moved(s, CoordinatorPhase::InstallingRoute, CoordinatorAction::InstallRoute)
            },
        }
    }
}

/// Exchange and byte counts after the first exchange: a failed one counts nothing.
pub open spec fn usage_after(r: ExchangeReport) -> (usize, usize, usize) {
    if r.terminal == TransactionEndKind::Completed {
        (1, r.input_bytes, r.output_bytes)
    } else {
        (0, 0, 0)
    }
}

/// After the units of the first exchange: tools are run where the exchange
/// succeeded and asks for them, but never behind a gateway's back.
pub open spec fn after_units(
    s: CoordinatorState,
    c: CoordinatorSetting,
    r: ExchangeReport,
    terminal: TransactionEndKind,
) -> (CoordinatorState, CoordinatorAction) {
    if c.tool_mode == ToolExecutionMode::McpGateway {
        proposed(s, terminal)
    } else if (terminal == TransactionEndKind::Completed || terminal
        == TransactionEndKind::ContinuationRequired) && r.has_ready {
        moved(s, CoordinatorPhase::Looping(terminal), CoordinatorAction::RunTools)
    } else {
        proposed(s, terminal)
    }
}

/// Publishing the unit at a position of the first exchange, or what follows.
pub open spec fn publish_from(
    s: CoordinatorState,
    c: CoordinatorSetting,
    r: ExchangeReport,
    i: usize,
) -> (CoordinatorState, CoordinatorAction) {
    if i < r.units {
        moved(s, CoordinatorPhase::Publishing(r, i), CoordinatorAction::PublishUnit(i))
    } else {
        after_units(s, c, r, r.terminal)
    }
}

/// Publishing the unit at a position of a further exchange, or what follows.
pub open spec fn continuation_publish_from(s: CoordinatorState, r: ExchangeReport, i: usize) -> (
    CoordinatorState,
    CoordinatorAction,
) {
    if i < r.units {
        moved(
            s,
            CoordinatorPhase::ContinuationPublishing(r, i),
            CoordinatorAction::PublishUnit(i),
        )
    } else if !r.has_ready {
        proposed(s, TransactionEndKind::Completed)
    } else {
        moved(s, CoordinatorPhase::ContinuationLooping, CoordinatorAction::RunTools)
    }
}

/// A further round, within the bounds on rounds and exchanges.
pub open spec fn next_round(s: CoordinatorState, c: CoordinatorSetting) -> (
    CoordinatorState,
    CoordinatorAction,
) {
    if s.round >= c.max_continuations || s.exchanges_used >= c.max_provider_exchanges {
        proposed(s, TransactionEndKind::LimitExceeded)
    } else {
        (
            CoordinatorState {
                phase: CoordinatorPhase::Appending,
                round: (s.round + 1) as usize,
                ..s
            },
            CoordinatorAction::AppendRound,
        )
    }
}

/// Kind of a failed tool run.
pub open spec fn tools_failure(e: LoopDispatchError) -> TransactionEndKind {
    match e {
        LoopDispatchError::Cancelled => TransactionEndKind::Cancelled,
        LoopDispatchError::PublishFailed => TransactionEndKind::EventDeliveryFailed,
        LoopDispatchError::StartFailed | LoopDispatchError::LoopFailed => TransactionEndKind::InvariantFailed,
    }
}

/// After the tools of the first exchange.
pub open spec fn after_tools(
    s: CoordinatorState,
    c: CoordinatorSetting,
    terminal: TransactionEndKind,
    has_results: bool,
) -> (CoordinatorState, CoordinatorAction) {
    if terminal != TransactionEndKind::Completed {
        proposed(s, terminal)
    } else {
        match c.policy {
            ContinuationPolicy::CallerControlled => proposed(
                s,
                TransactionEndKind::ContinuationRequired,
            ),
            ContinuationPolicy::InlineToolContinuation => if !has_results {
                proposed(s, TransactionEndKind::InvariantFailed)
            } else {
                next_round(s, c)
            },
        }
    }
}

/// One position further.
pub open spec fn further(i: usize) -> usize {
    if i == usize::MAX {
        i
    } else {
        (i + 1) as usize
    }
}

/// Steps up to the tools of the first exchange.
pub open spec fn next_first(s: CoordinatorState, c: CoordinatorSetting, input: CoordinatorInput) -> (
    CoordinatorState,
    CoordinatorAction,
) {
    match (s.phase, input) {
        (CoordinatorPhase::Idle, CoordinatorInput::Start) => started(s, c),
        (CoordinatorPhase::InstallingRoute, CoordinatorInput::RouteInstalled(ok)) => if ok {
            (
                CoordinatorState { phase: CoordinatorPhase::BeginningAttach, route: true, ..s },
                CoordinatorAction::BeginAttach { with_route: true },
            )
        } else {
            proposed(s, TransactionEndKind::InvariantFailed)
        },
        (CoordinatorPhase::BeginningAttach, CoordinatorInput::AttachBegun(ok)) => if ok {
            moved(s, CoordinatorPhase::Attaching, CoordinatorAction::AwaitAttach)
        } else {
            proposed(s, TransactionEndKind::InvariantFailed)
        },
        (CoordinatorPhase::Attaching, CoordinatorInput::Cancelled) => proposed(
            s,
            TransactionEndKind::Cancelled,
        ),
        (CoordinatorPhase::Attaching, CoordinatorInput::Attached(ok)) => if ok {
            moved(
                s,
                CoordinatorPhase::Exchanging,
                CoordinatorAction::RunExchange { gated: true },
            )
        } else {
            proposed(s, TransactionEndKind::InvariantFailed)
        },
        (CoordinatorPhase::Exchanging, CoordinatorInput::ExchangeEnded(r)) => {
            let u = usage_after(r);
            let used = CoordinatorState {
                exchanges_used: u.0,
                input_used: u.1,
                output_used: u.2,
                ..s
            };
            if r.unannounced_session {
                moved(used, CoordinatorPhase::Announcing(r), CoordinatorAction::AnnounceSession)
            } else {
                publish_from(used, c, r, 0)
            }
        },
        (CoordinatorPhase::Announcing(r), CoordinatorInput::Sent(sent)) => match sent {
            Interruptible::Done => publish_from(s, c, r, 0),
            Interruptible::Failed => proposed(s, TransactionEndKind::EventDeliveryFailed),
            Interruptible::Cancelled => proposed(s, TransactionEndKind::Cancelled),
        },
        (CoordinatorPhase::Publishing(r, i), CoordinatorInput::Sent(sent)) => match sent {
            Interruptible::Done => publish_from(s, c, r, further(i)),
            Interruptible::Failed => proposed(s, TransactionEndKind::EventDeliveryFailed),
            Interruptible::Cancelled => proposed(s, TransactionEndKind::Cancelled),
        },
        (CoordinatorPhase::Looping(terminal), CoordinatorInput::ToolsRun(results)) => after_tools(
            s,
            c,
            terminal,
            results,
        ),
        (CoordinatorPhase::Looping(_), CoordinatorInput::ToolsFailed(e)) => proposed(
            s,
            tools_failure(e),
        ),
        _ => (s, CoordinatorAction::Ignore),
    }
}

/// Steps of continuations.
pub open spec fn next_continuation(
    s: CoordinatorState,
    c: CoordinatorSetting,
    input: CoordinatorInput,
) -> (CoordinatorState, CoordinatorAction) {
    match (s.phase, input) {
        (CoordinatorPhase::Appending, CoordinatorInput::Appended(size)) => match size {
            None => proposed(s, TransactionEndKind::EncodingFailed),
            Some(n) => if n > c.max_context_bytes {
                proposed(s, TransactionEndKind::LimitExceeded)
            } else {
                moved(s, CoordinatorPhase::CheckingContext, CoordinatorAction::CheckContext)
            },
        },
        (CoordinatorPhase::CheckingContext, CoordinatorInput::ContextChecked(ok)) => {
            let remaining_input = left_of(c.max_input_bytes, s.input_used);
            let remaining_output = left_of(c.max_output_bytes, s.output_used);
            if !ok {
                proposed(s, TransactionEndKind::EncodingFailed)
            } else if remaining_input == 0 || remaining_output == 0 {
                proposed(s, TransactionEndKind::LimitExceeded)
            } else {
                moved(
                    s,
                    CoordinatorPhase::Continuing,
                    CoordinatorAction::RunContinuation { remaining_input, remaining_output },
                )
            }
        },
        (CoordinatorPhase::Continuing, CoordinatorInput::ExchangeEnded(r)) => if r.terminal
            != TransactionEndKind::Completed {
            proposed(s, r.terminal)
        } else {
            continuation_publish_from(
                CoordinatorState {
                    exchanges_used: sat_sum(s.exchanges_used, 1),
                    input_used: sat_sum(s.input_used, r.input_bytes),
                    output_used: sat_sum(s.output_used, r.output_bytes),
                    ..s
                },
                r,
                0,
            )
        },
        (CoordinatorPhase::ContinuationPublishing(r, i), CoordinatorInput::Sent(sent)) => match sent {
            Interruptible::Done => continuation_publish_from(s, r, further(i)),
            Interruptible::Failed => proposed(s, TransactionEndKind::EventDeliveryFailed),
            Interruptible::Cancelled => proposed(s, TransactionEndKind::Cancelled),
        },
        (CoordinatorPhase::ContinuationLooping, CoordinatorInput::ToolsRun(results)) => if results {
            next_round(s, c)
        } else {
            proposed(s, TransactionEndKind::InvariantFailed)
        },
        (CoordinatorPhase::ContinuationLooping, CoordinatorInput::ToolsFailed(e)) => proposed(
            s,
            tools_failure(e),
        ),
        _ => (s, CoordinatorAction::Ignore),
    }
}

/// Whether a phase belongs to a continuation.
pub open spec fn continues(p: CoordinatorPhase) -> bool {
    match p {
        CoordinatorPhase::Appending
        | CoordinatorPhase::CheckingContext
        | CoordinatorPhase::Continuing
        | CoordinatorPhase::ContinuationPublishing(_, _)
        | CoordinatorPhase::ContinuationLooping => true,
        _ => false,
    }
}

/// The whole machine: next state and action for each report.
pub open spec fn next(s: CoordinatorState, c: CoordinatorSetting, input: CoordinatorInput) -> (
    CoordinatorState,
    CoordinatorAction,
) {
    if continues(s.phase) {
        next_continuation(s, c, input)
    } else {
        next_first(s, c, input)
    }
}

/// State of a coordinator that has not begun.
pub open spec fn initial() -> CoordinatorState {
    CoordinatorState {
        phase: CoordinatorPhase::Idle,
        route: false,
        round: 0,
        exchanges_used: 0,
        input_used: 0,
        output_used: 0,
    }
}

/// Coordinator of one transaction.
#[derive(Clone, Copy, Debug, PartialEq, Eq, Structural)]
pub struct Coordinator {
    /// What it started from.
    pub setting: CoordinatorSetting,
    /// State.
    pub state: CoordinatorState,
}

impl Coordinator {
    /// A coordinator that has not begun.
    pub fn new(setting: CoordinatorSetting) -> (r: Self)
        ensures
            r.setting == setting,
            r.state == initial(),
    {
        Coordinator {
            setting,
            state: CoordinatorState {
                phase: CoordinatorPhase::Idle,
                route: false,
                round: 0,
                exchanges_used: 0,
                input_used: 0,
                output_used: 0,
            },
        }
    }

    fn propose(&mut self, kind: TransactionEndKind) -> (r: CoordinatorAction)
        ensures
            final(self).setting == old(self).setting,
            (final(self).state, r) == proposed(old(self).state, kind),
    {
        let revoke: bool = self.state.route;
        self.state.route = false;
        self.state.phase = CoordinatorPhase::Done;
        CoordinatorAction::Propose { kind, revoke }
    }

    fn begin(&mut self) -> (r: CoordinatorAction)
        ensures
            final(self).setting == old(self).setting,
            (final(self).state, r) == started(old(self).state, old(self).setting),
    {
        let c = self.setting;
        if !c.channel_known || !c.config_ok {
            return self.propose(TransactionEndKind::InvariantFailed);
        }
        if c.max_provider_exchanges == 0 {
            return self.propose(TransactionEndKind::LimitExceeded);
        }
        match c.kind {
            ChannelKind::DirectLlm => {
                self.state.phase = CoordinatorPhase::Exchanging;
                CoordinatorAction::RunExchange { gated: false }
            },
            ChannelKind::ExternalAgent => {
                if !c.has_sessions {
                    return self.propose(TransactionEndKind::InvariantFailed);
                }
                let installs: bool = c.tool_mode == ToolExecutionMode::McpGateway && c.has_tools
                    && c.mcp_configuration == McpConfigurationCapability::CreationOnly;
                if !installs {
                    self.state.phase = CoordinatorPhase::BeginningAttach;
                    CoordinatorAction::BeginAttach { with_route: false }
                } else if !c.has_gateway {
                    self.propose(TransactionEndKind::InvariantFailed)
                } else {
                    self.state.phase = CoordinatorPhase::InstallingRoute;
                    CoordinatorAction::InstallRoute
                }
            },
        }
    }

    fn publish(&mut self, r: ExchangeReport, i: usize) -> (a: CoordinatorAction)
        ensures
            final(self).setting == old(self).setting,
            (final(self).state, a) == publish_from(old(self).state, old(self).setting, r, i),
    {
        if i < r.units {
            self.state.phase = CoordinatorPhase::Publishing(r, i);
            return CoordinatorAction::PublishUnit(i);
        }
        if self.setting.tool_mode == ToolExecutionMode::McpGateway {
            return self.propose(r.terminal);
        }
        if (r.terminal == TransactionEndKind::Completed || r.terminal
            == TransactionEndKind::ContinuationRequired) && r.has_ready {
            self.state.phase = CoordinatorPhase::Looping(r.terminal);
            return CoordinatorAction::RunTools;
        }
        self.propose(r.terminal)
    }

    fn continuation_publish(&mut self, r: ExchangeReport, i: usize) -> (a: CoordinatorAction)
        ensures
            final(self).setting == old(self).setting,
            (final(self).state, a) == continuation_publish_from(old(self).state, r, i),
    {
        if i < r.units {
            self.state.phase = CoordinatorPhase::ContinuationPublishing(r, i);
            CoordinatorAction::PublishUnit(i)
        } else if !r.has_ready {
            self.propose(TransactionEndKind::Completed)
        } else {
            self.state.phase = CoordinatorPhase::ContinuationLooping;
            CoordinatorAction::RunTools
        }
    }

    fn begin_round(&mut self) -> (r: CoordinatorAction)
        ensures
            final(self).setting == old(self).setting,
            (final(self).state, r) == next_round(old(self).state, old(self).setting),
    {
        if self.state.round >= self.setting.max_continuations || self.state.exchanges_used
            >= self.setting.max_provider_exchanges {
            return self.propose(TransactionEndKind::LimitExceeded);
        }
        self.state.round = self.state.round + 1;
        self.state.phase = CoordinatorPhase::Appending;
        CoordinatorAction::AppendRound
    }

    fn tools_failed(&mut self, e: LoopDispatchError) -> (r: CoordinatorAction)
        ensures
            final(self).setting == old(self).setting,
            (final(self).state, r) == proposed(old(self).state, tools_failure(e)),
    {
        let kind = match e {
            LoopDispatchError::Cancelled => TransactionEndKind::Cancelled,
            LoopDispatchError::PublishFailed => TransactionEndKind::EventDeliveryFailed,
            LoopDispatchError::StartFailed
            | LoopDispatchError::LoopFailed => TransactionEndKind::InvariantFailed,
        };
        self.propose(kind)
    }

    /// One step of the machine.
    pub fn step(&mut self, input: CoordinatorInput) -> (r: CoordinatorAction)
        ensures
            final(self).setting == old(self).setting,
            (final(self).state, r) == next(old(self).state, old(self).setting, input),
    {
        match self.state.phase {
            CoordinatorPhase::Appending
            | CoordinatorPhase::CheckingContext
            | CoordinatorPhase::Continuing
            | CoordinatorPhase::ContinuationPublishing(_, _)
            | CoordinatorPhase::ContinuationLooping => self.step_continuation(input),
            _ => self.step_first(input),
        }
    }

    fn step_first(&mut self, input: CoordinatorInput) -> (r: CoordinatorAction)
        ensures
            final(self).setting == old(self).setting,
            (final(self).state, r) == next_first(old(self).state, old(self).setting, input),
    {
        match (self.state.phase, input) {
            (CoordinatorPhase::Idle, CoordinatorInput::Start) => self.begin(),
            (CoordinatorPhase::InstallingRoute, CoordinatorInput::RouteInstalled(ok)) => {
                if ok {
                    self.state.route = true;
                    self.state.phase = CoordinatorPhase::BeginningAttach;
                    CoordinatorAction::BeginAttach { with_route: true }
                } else {
                    self.propose(TransactionEndKind::InvariantFailed)
                }
            },
            (CoordinatorPhase::BeginningAttach, CoordinatorInput::AttachBegun(ok)) => {
                if ok {
                    self.state.phase = CoordinatorPhase::Attaching;
                    CoordinatorAction::AwaitAttach
                } else {
                    self.propose(TransactionEndKind::InvariantFailed)
                }
            },
            (CoordinatorPhase::Attaching, CoordinatorInput::Cancelled) => self.propose(
                TransactionEndKind::Cancelled,
            ),
            (CoordinatorPhase::Attaching, CoordinatorInput::Attached(ok)) => {
                if ok {
                    self.state.phase = CoordinatorPhase::Exchanging;
                    CoordinatorAction::RunExchange { gated: true }
                } else {
                    self.propose(TransactionEndKind::InvariantFailed)
                }
            },
            (CoordinatorPhase::Exchanging, CoordinatorInput::ExchangeEnded(r)) => {
                let (exchanges, input_bytes, output_bytes): (usize, usize, usize) =
                    provider_usage_after_exchange(r);
                self.state.exchanges_used = exchanges;
                self.state.input_used = input_bytes;
                self.state.output_used = output_bytes;
                if r.unannounced_session {
                    self.state.phase = CoordinatorPhase::Announcing(r);
                    CoordinatorAction::AnnounceSession
                } else {
                    self.publish(r, 0)
                }
            },
            (CoordinatorPhase::Announcing(r), CoordinatorInput::Sent(sent)) => match sent {
                Interruptible::Done => self.publish(r, 0),
                Interruptible::Failed => self.propose(TransactionEndKind::EventDeliveryFailed),
                Interruptible::Cancelled => self.propose(TransactionEndKind::Cancelled),
            },
            (CoordinatorPhase::Publishing(r, i), CoordinatorInput::Sent(sent)) => match sent {
                Interruptible::Done => self.publish(r, i.saturating_add(1)),
                Interruptible::Failed => self.propose(TransactionEndKind::EventDeliveryFailed),
                Interruptible::Cancelled => self.propose(TransactionEndKind::Cancelled),
            },
            (CoordinatorPhase::Looping(terminal), CoordinatorInput::ToolsRun(results)) => {
                if terminal != TransactionEndKind::Completed {
                    return self.propose(terminal);
                }
                match self.setting.policy {
                    ContinuationPolicy::CallerControlled => self.propose(
                        TransactionEndKind::ContinuationRequired,
                    ),
                    ContinuationPolicy::InlineToolContinuation => {
                        if !results {
                            self.propose(TransactionEndKind::InvariantFailed)
                        } else {
                            self.begin_round()
                        }
                    },
                }
            },
            (CoordinatorPhase::Looping(_), CoordinatorInput::ToolsFailed(e)) => self.tools_failed(e),
            _ => CoordinatorAction::Ignore,
        }
    }

    fn step_continuation(&mut self, input: CoordinatorInput) -> (r: CoordinatorAction)
        ensures
            final(self).setting == old(self).setting,
            (final(self).state, r) == next_continuation(old(self).state, old(self).setting, input),
    {
        match (self.state.phase, input) {
            (CoordinatorPhase::Appending, CoordinatorInput::Appended(size)) => match size {
                None => self.propose(TransactionEndKind::EncodingFailed),
                Some(n) => {
                    if n > self.setting.max_context_bytes {
                        self.propose(TransactionEndKind::LimitExceeded)
                    } else {
                        self.state.phase = CoordinatorPhase::CheckingContext;
                        CoordinatorAction::CheckContext
                    }
                },
            },
            (CoordinatorPhase::CheckingContext, CoordinatorInput::ContextChecked(ok)) => {
                if !ok {
                    return self.propose(TransactionEndKind::EncodingFailed);
                }
                let remaining_input: usize = self.setting.max_input_bytes.saturating_sub(
                    self.state.input_used,
                );
                let remaining_output: usize = self.setting.max_output_bytes.saturating_sub(
                    self.state.output_used,
                );
                if remaining_input == 0 || remaining_output == 0 {
                    return self.propose(TransactionEndKind::LimitExceeded);
                }
                self.state.phase = CoordinatorPhase::Continuing;
                CoordinatorAction::RunContinuation { remaining_input, remaining_output }
            },
            (CoordinatorPhase::Continuing, CoordinatorInput::ExchangeEnded(r)) => {
                if r.terminal != TransactionEndKind::Completed {
                    return self.propose(r.terminal);
                }
                self.state.exchanges_used = self.state.exchanges_used.saturating_add(1);
                self.state.input_used = self.state.input_used.saturating_add(r.input_bytes);
                self.state.output_used = self.state.output_used.saturating_add(r.output_bytes);
                self.continuation_publish(r, 0)
            },
            (
                CoordinatorPhase::ContinuationPublishing(r, i),
                CoordinatorInput::Sent(sent),
            ) => match sent {
                Interruptible::Done => self.continuation_publish(r, i.saturating_add(1)),
                Interruptible::Failed => self.propose(TransactionEndKind::EventDeliveryFailed),
                Interruptible::Cancelled => self.propose(TransactionEndKind::Cancelled),
            },
            (CoordinatorPhase::ContinuationLooping, CoordinatorInput::ToolsRun(results)) => {
                if results {
                    self.begin_round()
                } else {
                    self.propose(TransactionEndKind::InvariantFailed)
                }
            },
            (CoordinatorPhase::ContinuationLooping, CoordinatorInput::ToolsFailed(e)) =>
                self.tools_failed(e),
            _ => CoordinatorAction::Ignore,
        }
    }
}

/// Exchange and byte counts after the first exchange.
pub fn provider_usage_after_exchange(r: ExchangeReport) -> (u: (usize, usize, usize))
    ensures
        u == usage_after(r),
{
    if r.terminal == TransactionEndKind::Completed {
        (1, r.input_bytes, r.output_bytes)
    } else {
        (0, 0, 0)
    }
}

/// Bytes of units that an exchange may retain.
pub fn max_retained_bytes(max_encoded_bytes: usize) -> (r: usize)
    ensures
        r == (if max_encoded_bytes > MIN_RETAINED_BYTES {
            max_encoded_bytes
        } else {
            MIN_RETAINED_BYTES
        }),
{
    if max_encoded_bytes > MIN_RETAINED_BYTES {
        max_encoded_bytes
    } else {
        MIN_RETAINED_BYTES
    }
}

/// Size of the transcript.
pub fn estimate_continuation_messages_bytes(messages: &Vec<CanonicalMessage>) -> (r: usize)
    ensures
        r == transcript_bytes(messages@),
{
    estimate_messages_bytes(messages)
}

/// Leaves a proposal on the row, so that it is not lost with the worker.
pub fn park_proposal(shared: &mut RuntimeShared, tx: TransactionId, proposal: TerminalProposal)
    requires
        old(shared).wf(),
    ensures
        final(shared).wf(),
        *final(shared) == (RuntimeShared { ledger: final(shared).ledger, ..*old(shared) }),
        final(shared).ledger@ == (if old(shared).ledger@.dom().contains(tx) {
            old(shared).ledger@.insert(
                tx,
                LedgerEntry {
                    pending_worker_proposal: Some(proposal),
                    ..old(shared).ledger@[tx]
                },
            )
        } else {
            old(shared).ledger@
        }),
{
    let ghost rows = shared.ledger@;
    match shared.ledger.get_mut(&tx) {
        Some(e) => {
            e.pending_worker_proposal = Some(proposal);
        },
        None => {},
    }
    proof {
        if rows.dom().contains(tx) {
            lemma_row_update(rows, shared.pool@, tx, shared.ledger@[tx]);
        }
    }
}

/// What the barrier before the prompt waits for.
#[derive(Clone, Copy, Debug, PartialEq, Eq, Structural)]
pub enum GatePhase {
    /// The session that the connector opened.
    AwaitingSession,
    /// The session to be bound to the transaction.
    Binding,
    /// The session to be announced.
    Announcing,
    /// The route to be activated.
    Activating,
    /// Nothing.
    Done,
}

/// What the driver of the barrier reports.
#[derive(Clone, Copy, Debug, PartialEq, Eq, Structural)]
pub enum GateInput {
    /// The connector opened.
    Opened {
        /// Whether it told a session.
        told: bool,
        /// Whether the transaction was cancelled.
        cancelled: bool,
        /// Whether what it told can be a session's identity.
        valid: bool,
    },
    /// The session was bound to the transaction.
    Bound,
    /// It was not.
    NotBound(LedgerInsertError),
    /// Whether the session was announced.
    Announced(bool),
    /// Whether the route was activated.
    Activated(bool),
}

/// What the driver of the barrier has to do.
#[derive(Clone, Copy, Debug, PartialEq, Eq, Structural)]
pub enum GateAction {
    /// Bind the session to the transaction.
    Bind,
    /// Announce the session.
    Announce,
    /// Rebind the dispatcher to the session, and activate the route.
    Activate,
    /// Rebind the dispatcher to the session where there is one, and open.
    Open,
    /// Stay shut.
    Shut {
        /// Why.
        error: PromptProceedError,
        /// Whether the session counts as known.
        session_known: bool,
    },
    /// Nothing.
    Ignore,
}

/// The barrier stays shut.
pub open spec fn shut(error: PromptProceedError, session_known: bool) -> (GatePhase, GateAction) {
    (GatePhase::Done, GateAction::Shut { error, session_known })
}

/// The machine of the barrier: the prompt may go only once the session is bound
/// and announced and the route, where there is one, is active.
pub open spec fn gate_next(
    phase: GatePhase,
    has_route: bool,
    has_gateway: bool,
    input: GateInput,
) -> (GatePhase, GateAction) {
    match (phase, input) {
        (GatePhase::AwaitingSession, GateInput::Opened { told, cancelled, valid }) => if told
            && !cancelled && valid {
            (GatePhase::Binding, GateAction::Bind)
        } else {
            shut(PromptProceedError::Failed, false)
        },
        (GatePhase::Binding, GateInput::Bound) => (GatePhase::Announcing, GateAction::Announce),
        (GatePhase::Binding, GateInput::NotBound(e)) => shut(
            if e == LedgerInsertError::DistinctSessionsExceeded {
                PromptProceedError::DistinctSessionsExceeded
            } else {
                PromptProceedError::Failed
            },
            false,
        ),
        (GatePhase::Announcing, GateInput::Announced(ok)) => if !ok {
            shut(PromptProceedError::Failed, false)
        } else if !has_route {
            (GatePhase::Done, GateAction::Open)
        } else if !has_gateway {
            shut(PromptProceedError::Failed, true)
        } else {
            (GatePhase::Activating, GateAction::Activate)
        },
        (GatePhase::Activating, GateInput::Activated(ok)) => if ok {
            (GatePhase::Done, GateAction::Open)
        } else {
            shut(PromptProceedError::Failed, true)
        },
        _ => (phase, GateAction::Ignore),
    }
}

/// The barrier before the prompt of an external agent.
#[derive(Clone, Copy, Debug, PartialEq, Eq, Structural)]
pub struct PromptGate {
    /// What it waits for.
    pub phase: GatePhase,
    /// Whether a route is installed.
    pub has_route: bool,
    /// Whether there is a gateway.
    pub has_gateway: bool,
}

impl PromptGate {
    /// A gate that waits for the session.
    pub fn new(has_route: bool, has_gateway: bool) -> (r: Self)
        ensures
            r == (PromptGate { phase: GatePhase::AwaitingSession, has_route, has_gateway }),
    {
        PromptGate { phase: GatePhase::AwaitingSession, has_route, has_gateway }
    }

    fn stay_shut(&mut self, error: PromptProceedError, session_known: bool) -> (r: GateAction)
        ensures
            final(self).has_route == old(self).has_route,
            final(self).has_gateway == old(self).has_gateway,
            (final(self).phase, r) == shut(error, session_known),
    {
        self.phase = GatePhase::Done;
        GateAction::Shut { error, session_known }
    }

    /// One step of the machine.
    pub fn step(&mut self, input: GateInput) -> (r: GateAction)
        ensures
            final(self).has_route == old(self).has_route,
            final(self).has_gateway == old(self).has_gateway,
            (final(self).phase, r) == gate_next(
                old(self).phase,
                old(self).has_route,
                old(self).has_gateway,
                input,
            ),
    {
        match (self.phase, input) {
            (GatePhase::AwaitingSession, GateInput::Opened { told, cancelled, valid }) => {
                if told && !cancelled && valid {
                    self.phase = GatePhase::Binding;
                    GateAction::Bind
                } else {
                    self.stay_shut(PromptProceedError::Failed, false)
                }
            },
            (GatePhase::Binding, GateInput::Bound) => {
                self.phase = GatePhase::Announcing;
                GateAction::Announce
            },
            (GatePhase::Binding, GateInput::NotBound(e)) => {
                let error = if e == LedgerInsertError::DistinctSessionsExceeded {
                    PromptProceedError::DistinctSessionsExceeded
                } else {
                    PromptProceedError::Failed
                };
                self.stay_shut(error, false)
            },
            (GatePhase::Announcing, GateInput::Announced(ok)) => {
                if !ok {
                    return self.stay_shut(PromptProceedError::Failed, false);
                }
                if !self.has_route {
                    self.phase = GatePhase::Done;
                    return GateAction::Open;
                }
                if !self.has_gateway {
                    return self.stay_shut(PromptProceedError::Failed, true);
                }
                self.phase = GatePhase::Activating;
                GateAction::Activate
            },
            (GatePhase::Activating, GateInput::Activated(ok)) => {
                if ok {
                    self.phase = GatePhase::Done;
                    GateAction::Open
                } else {
                    self.stay_shut(PromptProceedError::Failed, true)
                }
            },
            _ => GateAction::Ignore,
        }
    }
}

/// What every reachable state has: rounds and exchanges are within bounds, a
/// route is only ever held on an external agent's channel, and nothing is held
/// at the end.
pub open spec fn within_bounds(s: CoordinatorState, c: CoordinatorSetting) -> bool {
    &&& s.round <= c.max_continuations
    &&& (s.phase is Continuing || s.phase is Appending || s.phase is CheckingContext)
        ==> s.exchanges_used < c.max_provider_exchanges
    &&& s.exchanges_used <= c.max_provider_exchanges
    &&& s.phase == CoordinatorPhase::Done ==> !s.route
    &&& s.phase == CoordinatorPhase::Exchanging ==> c.max_provider_exchanges > 0
    &&& s.phase == CoordinatorPhase::BeginningAttach || s.phase == CoordinatorPhase::Attaching
        || s.phase == CoordinatorPhase::InstallingRoute ==> c.max_provider_exchanges > 0
}

/// Bounds hold at the start.
pub proof fn bounds_start(c: CoordinatorSetting)
    ensures
        within_bounds(initial(), c),
{
}

#[verifier::spinoff_prover]
proof fn lemma_first_keeps_bounds(
    s: CoordinatorState,
    c: CoordinatorSetting,
    input: CoordinatorInput,
)
    requires
        within_bounds(s, c),
        !continues(s.phase),
    ensures
        within_bounds(next_first(s, c, input).0, c),
{
}

#[verifier::spinoff_prover]
proof fn lemma_continuation_keeps_bounds(
    s: CoordinatorState,
    c: CoordinatorSetting,
    input: CoordinatorInput,
)
    requires
        within_bounds(s, c),
        continues(s.phase),
    ensures
        within_bounds(next_continuation(s, c, input).0, c),
{
}

/// Every step keeps the bounds: no more continuations than allowed, no more
/// exchanges than allowed.
pub proof fn bounds_are_kept(s: CoordinatorState, c: CoordinatorSetting, input: CoordinatorInput)
    requires
        within_bounds(s, c),
    ensures
        within_bounds(next(s, c, input).0, c),
{
    if continues(s.phase) {
        lemma_continuation_keeps_bounds(s, c, input);
    } else {
        lemma_first_keeps_bounds(s, c, input);
    }
}

/// A route that was installed is taken back with the proposal, whatever it is.
pub proof fn route_is_taken_back(
    s: CoordinatorState,
    c: CoordinatorSetting,
    input: CoordinatorInput,
)
    ensures
        next(s, c, input).1 matches CoordinatorAction::Propose { revoke, .. } ==> revoke == s.route
            && !next(s, c, input).0.route && next(s, c, input).0.phase == CoordinatorPhase::Done,
        s.route && !next(s, c, input).0.route ==> next(s, c, input).1 is Propose,
{
}

/// Behind a gateway the coordinator never runs tools itself after the first exchange.
pub proof fn gateway_tools_are_not_run_twice(
    s: CoordinatorState,
    c: CoordinatorSetting,
    input: CoordinatorInput,
)
    requires
        c.tool_mode == ToolExecutionMode::McpGateway,
        s.phase is Publishing || s.phase is Exchanging || s.phase is Announcing,
    ensures
        !(next(s, c, input).1 is RunTools),
{
}

/// A further exchange gets no more bytes than the transaction has left.
pub proof fn continuation_stays_in_budget(
    s: CoordinatorState,
    c: CoordinatorSetting,
    input: CoordinatorInput,
)
    ensures
        next(s, c, input).1 matches CoordinatorAction::RunContinuation {
            remaining_input,
            remaining_output,
        } ==> remaining_input > 0 && remaining_output > 0 && s.input_used + remaining_input
            <= c.max_input_bytes && s.output_used + remaining_output <= c.max_output_bytes,
{
}

/// The barrier opens only for a session that is bound and announced, with an
/// active route where there is one.
pub proof fn gate_opens_last(
    phase: GatePhase,
    has_route: bool,
    has_gateway: bool,
    input: GateInput,
)
    requires
        gate_next(phase, has_route, has_gateway, input).1 == GateAction::Open,
    ensures
        has_route ==> phase == GatePhase::Activating && input == GateInput::Activated(true),
        !has_route ==> phase == GatePhase::Announcing && input == GateInput::Announced(true)
            || phase == GatePhase::Activating,
{
}

} // verus!
