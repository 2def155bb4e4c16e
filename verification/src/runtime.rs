//! The loop: it watches canonical units, dispatches each complete tool
//! request at most once, answers requests for tools that do not exist, and
//! accounts for its end.
//!
//! [`LoopOwner::step`] is the whole machine. The driver performs the action
//! that a step returns and hands its outcome to the next step.

use crate::assoc::{AssocMap, Key};
use crate::contracts::{
    CanonicalUnit, CanonicalUnitEvent, CanonicalUnitSnapshot, ConnectionId, ExternalSessionId,
    InterpretationId, InterpreterOutputEvent, LoopEnd, LoopEndKind, LoopId, LoopLimits,
    LoopOutputEvent, LoopScope, MonoloopRunId, OutboundToolOutcome, OutboundToolResult,
    ToolActionId, ToolRequestState, ToolUnavailableReason, ToolUnit, UnitId,
};
use crate::identity::{fresh_id_text, is_random_uuid, uuid_text};
use crate::registry::{ResolveToolRequest, ToolRegistryError, ToolResolution};
use crate::subscription::{DeliveredEvent, SubscriptionStatus};
use crate::text::{
    clone_opt, clone_texts, decimal, decimal_text, join, join3, list_contains, texts,
};
use vstd::prelude::*;
use vstd::string::StringExecFns;

verus! {

/// Most diagnostics that a loop keeps.
pub const MAX_DIAGNOSTICS: usize = 32;

/// State of a tracked tool action.
#[derive(Clone, Copy, Debug, PartialEq, Eq, Structural)]
pub enum ActionState {
    /// Seen, request still streaming.
    ObservedWaiting,
    /// Request complete.
    RequestReady,
    /// Answered as unavailable.
    Unavailable,
    /// Request will not be complete.
    Incomplete,
}

/// What the loop remembers of a tool action.
pub struct ActionRecord {
    /// Identity of the action.
    pub tool_action_id: ToolActionId,
    /// Unit in which it was first seen.
    pub unit_id: UnitId,
    /// Newest generation seen.
    pub last_generation: u64,
    /// State.
    pub state: ActionState,
    /// Whether it was dispatched.
    pub dispatched: bool,
}

/// One generation of one tool action.
pub struct UnitVersion {
    /// Key of the action.
    pub key: String,
    /// Generation.
    pub generation: u64,
}

impl View for UnitVersion {
    type V = (Seq<char>, u64);

    open spec fn view(&self) -> (Seq<char>, u64) {
        (self.key@, self.generation)
    }
}

impl Key for UnitVersion {
    fn same(&self, other: &Self) -> (r: bool) {
        self.key == other.key && self.generation == other.generation
    }
}

/// A request that is being dispatched.
pub struct PendingDispatch {
    /// Action.
    pub tool_action_id: ToolActionId,
    /// Unit that asked.
    pub unit_id: UnitId,
    /// Generation of the request.
    pub generation: u64,
    /// Tool name.
    pub tool_name: String,
    /// Request payload.
    pub request_payload: String,
    /// Interpretation that asked.
    pub interpretation_id: InterpretationId,
    /// Connection that asked.
    pub connection_id: ConnectionId,
    /// Outside session that asked.
    pub external_session_id: Option<ExternalSessionId>,
}

/// What the loop waits for.
pub enum LoopPhase {
    /// The next message of the subscription.
    Receiving,
    /// The dispatch notice to be written.
    SendingDispatch(PendingDispatch),
    /// The registry's answer.
    Resolving(PendingDispatch),
    /// The unavailable notice to be written.
    SendingUnavailable(PendingDispatch, ToolUnavailableReason),
    /// The result to be written.
    SendingResult,
    /// Nothing: the loop has ended.
    Ended,
}

/// What the driver reports.
pub enum LoopInput {
    /// The loop was cancelled.
    Cancelled,
    /// The subscription gave this; `None` means that it is closed.
    Received(Option<Result<DeliveredEvent, SubscriptionStatus>>),
    /// Whether the output event was written.
    Sent(bool),
    /// The registry's answer.
    Resolved(Result<ToolResolution, ToolRegistryError>),
}

/// What the driver has to do.
pub enum LoopAction {
    /// Wait for the subscription or for cancellation.
    Receive,
    /// Write an output event and report whether that worked.
    Send(LoopOutputEvent),
    /// Ask the registry and report its answer.
    Resolve(ResolveToolRequest),
    /// Write this end, whether or not that works, and stop.
    Finish(LoopEnd),
    /// Nothing: the report answers no pending action.
    Ignore,
}

/// Health counters.
#[derive(Clone, Copy, Debug, PartialEq, Eq, Structural)]
pub struct LoopHealth {
    /// Events received.
    pub events_received: u64,
    /// Tools resolved unavailable.
    pub tools_unavailable: u64,
}

/// Cancellation flag.
#[derive(Clone, Copy, Debug, PartialEq, Eq, Structural)]
pub struct LoopControl {
    /// Whether cancellation was requested.
    pub cancelled: bool,
}

impl LoopControl {
    /// Not cancelled.
    pub fn new() -> (r: Self)
        ensures
            !r.cancelled,
    {
        LoopControl { cancelled: false }
    }

    /// Request cancel (idempotent).
    pub fn cancel(&mut self)
        ensures
            final(self).cancelled,
    {
        self.cancelled = true;
    }

    /// Whether cancellation was requested.
    pub fn is_cancelled(&self) -> (r: bool)
        ensures
            r == self.cancelled,
    {
        self.cancelled
    }
}

/// Abstract state of a loop.
pub struct LoopModel {
    /// Newest delivery sequence, 0 before the first.
    pub last_seq: u64,
    /// Tracked actions by key.
    pub actions: Map<Seq<char>, ActionRecord>,
    /// Generations already handled.
    pub seen: Set<(Seq<char>, u64)>,
    /// Events received.
    pub delivery_events: u64,
    /// Repeats recognised.
    pub duplicates: u64,
    /// Requests answered as unavailable.
    pub tools_unavailable: u64,
    /// Outbound results counted.
    pub outbound_results: u64,
    /// Diagnostics.
    pub diagnostics: Seq<Seq<char>>,
    /// What the loop waits for.
    pub phase: LoopPhase,
}

/// What a step decides, before it is put into an action.
pub enum LoopVerdict {
    /// Wait for the subscription.
    Receive,
    /// Announce the dispatch of a request.
    AnnounceDispatch(PendingDispatch),
    /// Ask the registry.
    Resolve(PendingDispatch),
    /// Announce that the tool does not exist.
    AnnounceUnavailable(PendingDispatch, ToolUnavailableReason),
    /// Send a result with this outcome and payload.
    Result(PendingDispatch, OutboundToolOutcome, Seq<char>),
    /// End.
    Finish(LoopEndKind),
    /// Nothing.
    Ignore,
}

/// Key under which an action is tracked.
pub open spec fn action_key(interpretation: Seq<char>, action: Seq<char>) -> Seq<char> {
    interpretation + ":"@ + action
}

/// Adds a diagnostic, unless the list is full.
pub open spec fn with_diagnostic(m: LoopModel, text: Seq<char>) -> LoopModel {
    if m.diagnostics.len() < MAX_DIAGNOSTICS {
        LoopModel { diagnostics: m.diagnostics.push(text), ..m }
    } else {
        m
    }
}

/// The record of a key, or a new one.
pub open spec fn record_or_new(
    m: LoopModel,
    key: Seq<char>,
    tool_action_id: ToolActionId,
    unit_id: UnitId,
    state: ActionState,
) -> ActionRecord {
    if m.actions.dom().contains(key) {
        m.actions[key]
    } else {
        ActionRecord { tool_action_id, unit_id, last_generation: 0, state, dispatched: false }
    }
}

/// Whether a scope admits a unit: each non-empty list must hold the unit's identity.
pub open spec fn admits(scope: LoopScope, snap: CanonicalUnitSnapshot) -> bool {
    scope.accept_all_in_run || {
        &&& scope.accepted_interpretation_ids@.len() == 0 || texts(
            scope.accepted_interpretation_ids@,
        ).contains(snap.interpretation_id@)
        &&& scope.accepted_connection_ids@.len() == 0 || texts(
            scope.accepted_connection_ids@,
        ).contains(snap.connection_id@)
        &&& scope.accepted_external_session_ids@.len() == 0 || (
        snap.external_session_id is Some && texts(scope.accepted_external_session_ids@).contains(
            snap.external_session_id->0@,
        ))
    }
}

/// Effect of a request that is still streaming.
pub open spec fn after_waiting(
    m: LoopModel,
    key: Seq<char>,
    tool_action_id: ToolActionId,
    unit_id: UnitId,
    generation: u64,
) -> LoopModel {
    let rec = record_or_new(m, key, tool_action_id, unit_id, ActionState::ObservedWaiting);
    let next = if generation < rec.last_generation {
        rec
    } else {
        ActionRecord {
            last_generation: generation,
            state: if rec.state != ActionState::Unavailable && !rec.dispatched {
                ActionState::ObservedWaiting
            } else {
                rec.state
            },
            ..rec
        }
    };
    LoopModel { actions: m.actions.insert(key, next), ..m }
}

/// Effect of a request that will not be complete.
pub open spec fn after_incomplete(
    m: LoopModel,
    key: Seq<char>,
    tool_action_id: ToolActionId,
    unit_id: UnitId,
    generation: u64,
) -> LoopModel {
    let rec = record_or_new(m, key, tool_action_id, unit_id, ActionState::Incomplete);
    let next = if generation < rec.last_generation {
        rec
    } else {
        ActionRecord { last_generation: generation, state: ActionState::Incomplete, ..rec }
    };
    LoopModel { actions: m.actions.insert(key, next), ..m }
}

/// The dispatch of a complete request.
pub open spec fn pending_dispatch(
    tool: ToolUnit,
    snap: CanonicalUnitSnapshot,
) -> PendingDispatch {
    PendingDispatch {
        tool_action_id: tool.tool_action_id,
        unit_id: snap.unit_id,
        generation: snap.unit_generation,
        tool_name: tool.tool_name->0,
        request_payload: tool.request_payload->0,
        interpretation_id: snap.interpretation_id,
        connection_id: snap.connection_id,
        external_session_id: snap.external_session_id,
    }
}

/// Effect of a complete request: it is dispatched unless it is one action too
/// many, older than what was seen, dispatched before, or lacks name or payload.
pub open spec fn after_ready(
    m: LoopModel,
    limits: LoopLimits,
    key: Seq<char>,
    tool: ToolUnit,
    snap: CanonicalUnitSnapshot,
) -> (LoopModel, Result<(), LoopEndKind>) {
    let generation = snap.unit_generation;
    if m.actions.dom().len() >= limits.max_tool_actions && !m.actions.dom().contains(key) {
        (m, Err(LoopEndKind::InvariantFailed))
    } else {
        let rec = record_or_new(
            m,
            key,
            tool.tool_action_id,
            snap.unit_id,
            ActionState::RequestReady,
        );
        if generation < rec.last_generation {
            (LoopModel { actions: m.actions.insert(key, rec), ..m }, Ok(()))
        } else {
            let newer = ActionRecord { last_generation: generation, ..rec };
            let known = LoopModel { actions: m.actions.insert(key, newer), ..m };
            if rec.dispatched {
                (LoopModel { duplicates: (m.duplicates + 1) as u64, ..known }, Ok(()))
            } else if tool.tool_name is None {
                (with_diagnostic(known, "ToolRequestReady missing tool name"@), Ok(()))
            } else if tool.request_payload is None {
                (with_diagnostic(known, "ToolRequestReady missing payload"@), Ok(()))
            } else {
                let sent = ActionRecord {
                    state: ActionState::RequestReady,
                    dispatched: true,
                    ..newer
                };
                (
                    LoopModel {
                        actions: m.actions.insert(key, sent),
                        phase: LoopPhase::SendingDispatch(pending_dispatch(tool, snap)),
                        ..m
                    },
                    Ok(()),
                )
            }
        }
    }
}

/// Effect of a tool unit: a generation handled before is only counted, one too
/// many to remember fails, and any other goes by the state of its request.
pub open spec fn after_tool(
    m: LoopModel,
    limits: LoopLimits,
    tool: ToolUnit,
    snap: CanonicalUnitSnapshot,
) -> (LoopModel, Result<(), LoopEndKind>) {
    let key = action_key(snap.interpretation_id@, tool.tool_action_id@);
    let version = (key, snap.unit_generation);
    if m.seen.contains(version) {
        (LoopModel { duplicates: (m.duplicates + 1) as u64, ..m }, Ok(()))
    } else if m.seen.len() >= limits.max_dedup_entries {
        (m, Err(LoopEndKind::InvariantFailed))
    } else {
        let seen = LoopModel { seen: m.seen.insert(version), ..m };
        match tool.request_state {
            ToolRequestState::Assembling => (
                after_waiting(seen, key, tool.tool_action_id, snap.unit_id, snap.unit_generation),
                Ok(()),
            ),
            ToolRequestState::Ready => after_ready(seen, limits, key, tool, snap),
            ToolRequestState::Incomplete | ToolRequestState::Malformed => (
                after_incomplete(seen, key, tool.tool_action_id, snap.unit_id, snap.unit_generation),
                Ok(()),
            ),
        }
    }
}

/// Effect of a unit: only tool units inside the scope have one.
pub open spec fn after_unit(
    m: LoopModel,
    scope: LoopScope,
    limits: LoopLimits,
    snap: CanonicalUnitSnapshot,
) -> (LoopModel, Result<(), LoopEndKind>) {
    if !admits(scope, snap) {
        (m, Ok(()))
    } else {
        match snap.unit {
            CanonicalUnit::Tool(tool) => after_tool(m, limits, tool, snap),
            _ => (m, Ok(())),
        }
    }
}

/// Text of the diagnostic for a gap.
pub open spec fn gap_text(expected: nat, got: nat) -> Seq<char> {
    "delivery gap: expected "@ + decimal_text(expected) + ", got "@ + decimal_text(got)
}

/// Effect of a delivery: after the first one, sequences must be contiguous.
pub open spec fn after_delivery(
    m: LoopModel,
    scope: LoopScope,
    limits: LoopLimits,
    delivered: DeliveredEvent,
) -> (LoopModel, Result<(), LoopEndKind>) {
    if m.last_seq > 0 && delivered.delivery_sequence != m.last_seq + 1 {
        (
            with_diagnostic(
                m,
                gap_text((m.last_seq + 1) as nat, delivered.delivery_sequence as nat),
            ),
            Err(LoopEndKind::SubscriptionLost),
        )
    } else {
        let counted = LoopModel {
            last_seq: delivered.delivery_sequence,
            delivery_events: (m.delivery_events + 1) as u64,
            ..m
        };
        match delivered.event {
            InterpreterOutputEvent::Unit(ev) => after_unit(
                counted,
                scope,
                limits,
                ev.unit_snapshot(),
            ),
            InterpreterOutputEvent::Ended(_) => (counted, Ok(())),
        }
    }
}

/// The end of a loop.
pub open spec fn ended(m: LoopModel, kind: LoopEndKind) -> (LoopModel, LoopVerdict) {
    (LoopModel { phase: LoopPhase::Ended, ..m }, LoopVerdict::Finish(kind))
}

/// What follows a delivery: the pending dispatch, the next message or the end.
pub open spec fn settled(r: (LoopModel, Result<(), LoopEndKind>)) -> (LoopModel, LoopVerdict) {
    match r.1 {
        Err(kind) => ended(r.0, kind),
        Ok(()) => match r.0.phase {
            LoopPhase::SendingDispatch(p) => (r.0, LoopVerdict::AnnounceDispatch(p)),
            _ => (r.0, LoopVerdict::Receive),
        },
    }
}

/// Marks the action of a dispatch as unavailable and counts it.
pub open spec fn after_unavailable(
    m: LoopModel,
    p: PendingDispatch,
    reason: ToolUnavailableReason,
) -> LoopModel {
    let key = action_key(p.interpretation_id@, p.tool_action_id@);
    LoopModel {
        actions: if m.actions.dom().contains(key) {
            m.actions.insert(
                key,
                ActionRecord { state: ActionState::Unavailable, ..m.actions[key] },
            )
        } else {
            m.actions
        },
        tools_unavailable: (m.tools_unavailable + 1) as u64,
        phase: LoopPhase::SendingUnavailable(p, reason),
        ..m
    }
}

/// The whole machine: next state and verdict for each report.
pub open spec fn next(
    m: LoopModel,
    scope: LoopScope,
    limits: LoopLimits,
    input: LoopInput,
) -> (LoopModel, LoopVerdict) {
    match (m.phase, input) {
        (LoopPhase::Receiving, LoopInput::Cancelled) => ended(m, LoopEndKind::Cancelled),
        (LoopPhase::Receiving, LoopInput::Received(message)) => match message {
            None => ended(m, LoopEndKind::Drained),
            Some(Err(SubscriptionStatus::Gap(_))) => ended(m, LoopEndKind::SubscriptionLost),
            Some(Err(SubscriptionStatus::Lost)) => ended(m, LoopEndKind::SubscriptionLost),
            Some(Err(_)) => (m, LoopVerdict::Receive),
            Some(Ok(delivered)) => settled(after_delivery(m, scope, limits, delivered)),
        },
        (LoopPhase::SendingDispatch(p), LoopInput::Sent(sent)) => if sent {
            (LoopModel { phase: LoopPhase::Resolving(p), ..m }, LoopVerdict::Resolve(p))
        } else {
            ended(m, LoopEndKind::OutputFailed)
        },
        (LoopPhase::Resolving(p), LoopInput::Resolved(answer)) => match answer {
            Err(_) => ended(m, LoopEndKind::InvariantFailed),
            Ok(ToolResolution::Unavailable(reason)) => (
                after_unavailable(m, p, reason),
                LoopVerdict::AnnounceUnavailable(p, reason),
            ),
            Ok(ToolResolution::Available(_)) => (
                LoopModel {
                    phase: LoopPhase::SendingResult,
                    ..with_diagnostic(
                        m,
                        "Available tool without runtime policy — dispatch_rejected"@,
                    )
                },
                LoopVerdict::Result(
                    p,
                    OutboundToolOutcome::DispatchRejected,
                    "available tool path deferred"@,
                ),
            ),
        },
        (LoopPhase::SendingUnavailable(p, reason), LoopInput::Sent(sent)) => if sent {
            (
                LoopModel {
                    outbound_results: (m.outbound_results + 1) as u64,
                    phase: LoopPhase::SendingResult,
                    ..m
                },
                LoopVerdict::Result(p, OutboundToolOutcome::ToolUnavailable, reason.text()),
            )
        } else {
            ended(m, LoopEndKind::OutputFailed)
        },
        (LoopPhase::SendingResult, LoopInput::Sent(sent)) => if sent {
            (LoopModel { phase: LoopPhase::Receiving, ..m }, LoopVerdict::Receive)
        } else {
            ended(m, LoopEndKind::OutputFailed)
        },
        _ => (m, LoopVerdict::Ignore),
    }
}

/// What a loop is started with.
#[derive(Clone, Debug)]
pub struct LoopSetting {
    /// Owning run.
    pub monoloop_run_id: MonoloopRunId,
    /// The loop.
    pub loop_id: LoopId,
    /// What it admits.
    pub scope: LoopScope,
    /// Bounds.
    pub limits: LoopLimits,
}

/// One loop.
pub struct LoopOwner {
    setting: LoopSetting,
    last_seq: u64,
    actions: AssocMap<String, ActionRecord>,
    seen: AssocMap<UnitVersion, ()>,
    delivery_events: u64,
    duplicates: u64,
    tools_unavailable: u64,
    outbound_results: u64,
    diagnostics: Vec<String>,
    phase: LoopPhase,
}

impl View for LoopOwner {
    type V = LoopModel;

    closed spec fn view(&self) -> LoopModel {
        LoopModel {
            last_seq: self.last_seq,
            actions: self.actions@,
            seen: self.seen@.dom(),
            delivery_events: self.delivery_events,
            duplicates: self.duplicates,
            tools_unavailable: self.tools_unavailable,
            outbound_results: self.outbound_results,
            diagnostics: texts(self.diagnostics@),
            phase: self.phase,
        }
    }
}

/// Whether every counter can still grow.
pub open spec fn counters_have_room(m: LoopModel) -> bool {
    &&& m.last_seq < u64::MAX
    &&& m.delivery_events < u64::MAX
    &&& m.duplicates < u64::MAX
    &&& m.tools_unavailable < u64::MAX
    &&& m.outbound_results < u64::MAX
}

/// Whether an end accounts for a state.
pub open spec fn accounts_for(
    end: LoopEnd,
    setting: LoopSetting,
    m: LoopModel,
    kind: LoopEndKind,
) -> bool {
    &&& end.monoloop_run_id == setting.monoloop_run_id
    &&& end.loop_id == setting.loop_id
    &&& end.kind == kind
    &&& end.delivery_events_received == m.delivery_events
    &&& end.duplicate_events == m.duplicates
    &&& end.tools_unavailable == m.tools_unavailable
    &&& end.outbound_results_emitted == m.outbound_results
    &&& texts(end.safe_diagnostics@) == m.diagnostics
}

/// Whether a result answers a dispatch.
pub open spec fn answers(
    result: OutboundToolResult,
    setting: LoopSetting,
    id: Seq<char>,
    p: PendingDispatch,
    outcome: OutboundToolOutcome,
    payload: Seq<char>,
) -> bool {
    &&& result.outbound_result_id@ == id
    &&& result.monoloop_run_id == setting.monoloop_run_id
    &&& result.loop_id == setting.loop_id
    &&& result.source_interpretation_id == p.interpretation_id
    &&& result.source_connection_id == p.connection_id
    &&& result.external_session_id == p.external_session_id
    &&& result.tool_action_id == p.tool_action_id
    &&& result.request_generation == p.generation
    &&& result.tool_execution_id is None
    &&& result.outcome == outcome
    &&& result.payload@ == payload
    &&& result.source_unit_id == p.unit_id
}

/// Whether an action carries out a verdict.
pub open spec fn carries_out(
    action: LoopAction,
    setting: LoopSetting,
    m: LoopModel,
    verdict: LoopVerdict,
    id: Seq<char>,
) -> bool {
    match verdict {
        LoopVerdict::Receive => action == LoopAction::Receive,
        LoopVerdict::AnnounceDispatch(p) => action == LoopAction::Send(
            LoopOutputEvent::ToolDispatchRequested {
                tool_action_id: p.tool_action_id,
                request_generation: p.generation,
            },
        ),
        LoopVerdict::Resolve(p) => action == LoopAction::Resolve(
            ResolveToolRequest {
                tool_action_id: p.tool_action_id,
                tool_name: p.tool_name,
                request_payload: p.request_payload,
            },
        ),
        LoopVerdict::AnnounceUnavailable(p, reason) => action == LoopAction::Send(
            LoopOutputEvent::ToolUnavailable { tool_action_id: p.tool_action_id, reason },
        ),
        LoopVerdict::Result(p, outcome, payload) => match action {
            LoopAction::Send(LoopOutputEvent::OutboundToolResult(result)) => answers(
                result,
                setting,
                id,
                p,
                outcome,
                payload,
            ),
            _ => false,
        },
        LoopVerdict::Finish(kind) => match action {
            LoopAction::Finish(end) => accounts_for(end, setting, m, kind),
            _ => false,
        },
        LoopVerdict::Ignore => action == LoopAction::Ignore,
    }
}

impl LoopOwner {
    /// Internal consistency.
    pub closed spec fn wf(&self) -> bool {
        &&& self.actions.wf()
        &&& self.seen.wf()
    }

    /// What the loop was started with.
    pub closed spec fn setting(&self) -> LoopSetting {
        self.setting
    }

    /// A loop that has received nothing.
    pub fn new(setting: LoopSetting) -> (r: Self)
        ensures
            r.wf(),
            r.setting() == setting,
            r@ == initial(),
    {
        let r = LoopOwner {
            setting,
            last_seq: 0,
            actions: AssocMap::new(),
            seen: AssocMap::new(),
            delivery_events: 0,
            duplicates: 0,
            tools_unavailable: 0,
            outbound_results: 0,
            diagnostics: Vec::new(),
            phase: LoopPhase::Receiving,
        };
        proof {
            assert(r@.diagnostics =~= Seq::<Seq<char>>::empty());
            assert(r@.seen =~= Set::<(Seq<char>, u64)>::empty());
        }
        r
    }

    /// Health counters.
    pub fn health(&self) -> (r: LoopHealth)
        ensures
            r.events_received == self@.delivery_events,
            r.tools_unavailable == self@.tools_unavailable,
    {
        LoopHealth {
            events_received: self.delivery_events,
            tools_unavailable: self.tools_unavailable,
        }
    }

    /// Whether every counter can still grow.
    pub fn has_room(&self) -> (r: bool)
        ensures
            r == counters_have_room(self@),
    {
        self.last_seq < u64::MAX && self.delivery_events < u64::MAX && self.duplicates < u64::MAX
            && self.tools_unavailable < u64::MAX && self.outbound_results < u64::MAX
    }

    /// Whether the scope admits a unit.
    pub fn in_scope(&self, snap: &CanonicalUnitSnapshot) -> (r: bool)
        ensures
            r == admits(self.setting().scope, *snap),
    {
        if self.setting.scope.accept_all_in_run {
            return true;
        }
        if self.setting.scope.accepted_interpretation_ids.len() > 0 && !list_contains(
            &self.setting.scope.accepted_interpretation_ids,
            &snap.interpretation_id,
        ) {
            return false;
        }
        if self.setting.scope.accepted_connection_ids.len() > 0 && !list_contains(
            &self.setting.scope.accepted_connection_ids,
            &snap.connection_id,
        ) {
            return false;
        }
        if self.setting.scope.accepted_external_session_ids.len() > 0 {
            match &snap.external_session_id {
                Some(ext) => {
                    if !list_contains(&self.setting.scope.accepted_external_session_ids, ext) {
                        return false;
                    }
                },
                None => {
                    return false;
                },
            }
        }
        true
    }

    fn diag(&mut self, msg: String)
        requires
            old(self).wf(),
        ensures
            final(self).wf(),
            final(self).setting() == old(self).setting(),
            final(self)@ == with_diagnostic(old(self)@, msg@),
    {
        if self.diagnostics.len() < MAX_DIAGNOSTICS {
            self.diagnostics.push(msg);
            assert(texts(self.diagnostics@) =~= old(self)@.diagnostics.push(msg@));
        }
    }

    /// Makes sure that a key has a record.
    fn ensure_record(
        &mut self,
        key: &String,
        tool_action_id: &ToolActionId,
        unit_id: &UnitId,
        state: ActionState,
    )
        requires
            old(self).wf(),
        ensures
            final(self).wf(),
            final(self).setting() == old(self).setting(),
            final(self)@ == (LoopModel {
                actions: old(self)@.actions.insert(
                    key@,
                    record_or_new(old(self)@, key@, *tool_action_id, *unit_id, state),
                ),
                ..old(self)@
            }),
    {
        if !self.actions.contains_key(key) {
            self.actions.insert(
                key.clone(),
                ActionRecord {
                    tool_action_id: tool_action_id.clone(),
                    unit_id: unit_id.clone(),
                    last_generation: 0,
                    state,
                    dispatched: false,
                },
            );
        } else {
            assert(self.actions@ =~= self.actions@.insert(key@, self.actions@[key@]));
        }
    }

    /// Notes a request that is still streaming.
    pub fn track_waiting(
        &mut self,
        key: &String,
        tool_action_id: &ToolActionId,
        unit_id: &UnitId,
        generation: u64,
    )
        requires
            old(self).wf(),
        ensures
            final(self).wf(),
            final(self).setting() == old(self).setting(),
            final(self)@ == after_waiting(
                old(self)@,
                key@,
                *tool_action_id,
                *unit_id,
                generation,
            ),
    {
        self.ensure_record(key, tool_action_id, unit_id, ActionState::ObservedWaiting);
        match self.actions.get_mut(key) {
            Some(rec) => {
                if generation >= rec.last_generation {
                    rec.last_generation = generation;
                    if rec.state != ActionState::Unavailable && !rec.dispatched {
                        rec.state = ActionState::ObservedWaiting;
                    }
                }
            },
            None => {},
        }
        assert(self@.actions =~= after_waiting(
            old(self)@,
            key@,
            *tool_action_id,
            *unit_id,
            generation,
        ).actions);
    }

    /// Notes a request that will not be complete.
    pub fn track_incomplete(
        &mut self,
        key: &String,
        tool_action_id: &ToolActionId,
        unit_id: &UnitId,
        generation: u64,
    )
        requires
            old(self).wf(),
        ensures
            final(self).wf(),
            final(self).setting() == old(self).setting(),
            final(self)@ == after_incomplete(
                old(self)@,
                key@,
                *tool_action_id,
                *unit_id,
                generation,
            ),
    {
        self.ensure_record(key, tool_action_id, unit_id, ActionState::Incomplete);
        match self.actions.get_mut(key) {
            Some(rec) => {
                if generation >= rec.last_generation {
                    rec.last_generation = generation;
                    rec.state = ActionState::Incomplete;
                }
            },
            None => {},
        }
        assert(self@.actions =~= after_incomplete(
            old(self)@,
            key@,
            *tool_action_id,
            *unit_id,
            generation,
        ).actions);
    }

    /// Handles a complete request.
    pub fn on_request_ready(
        &mut self,
        key: &String,
        tool: &ToolUnit,
        snap: &CanonicalUnitSnapshot,
    ) -> (r: Result<(), LoopEndKind>)
        requires
            old(self).wf(),
            old(self)@.duplicates < u64::MAX,
        ensures
            final(self).wf(),
            final(self).setting() == old(self).setting(),
            (final(self)@, r) == after_ready(old(self)@, old(self).setting().limits, key@, *tool, *snap),
    {
        if self.actions.len() >= self.setting.limits.max_tool_actions && !self.actions.contains_key(key) {
            return Err(LoopEndKind::InvariantFailed);
        }
        let generation: u64 = snap.unit_generation;
        self.ensure_record(key, &tool.tool_action_id, &snap.unit_id, ActionState::RequestReady);
        let ghost base = old(self)@.actions;
        let complete: bool = tool.tool_name.is_some() && tool.request_payload.is_some();
        let mut stale: bool = false;
        let mut repeated: bool = false;
        match self.actions.get_mut(key) {
            Some(rec) => {
                if generation < rec.last_generation {
                    stale = true;
                } else {
                    rec.last_generation = generation;
                    if rec.dispatched {
                        repeated = true;
                    } else if complete {
                        rec.state = ActionState::RequestReady;
                        rec.dispatched = true;
                    }
                }
            },
            None => {},
        }
        assert(self@.actions =~= base.insert(key@, self@.actions[key@]));
        if stale {
            return Ok(());
        }
        if repeated {
            self.duplicates = self.duplicates + 1;
            return Ok(());
        }
        match (&tool.tool_name, &tool.request_payload) {
            (None, _) => {
                self.diag(String::from_str("ToolRequestReady missing tool name"));
            },
            (_, None) => {
                self.diag(String::from_str("ToolRequestReady missing payload"));
            },
            (Some(name), Some(payload)) => {
                self.phase = LoopPhase::SendingDispatch(
                    PendingDispatch {
                        tool_action_id: tool.tool_action_id.clone(),
                        unit_id: snap.unit_id.clone(),
                        generation,
                        tool_name: name.clone(),
                        request_payload: payload.clone(),
                        interpretation_id: snap.interpretation_id.clone(),
                        connection_id: snap.connection_id.clone(),
                        external_session_id: clone_opt(&snap.external_session_id),
                    },
                );
            },
        }
        Ok(())
    }

    /// Handles a unit event.
    pub fn on_unit(&mut self, event: &CanonicalUnitEvent) -> (r: Result<(), LoopEndKind>)
        requires
            old(self).wf(),
            old(self)@.duplicates < u64::MAX,
        ensures
            final(self).wf(),
            final(self).setting() == old(self).setting(),
            (final(self)@, r) == after_unit(
                old(self)@,
                old(self).setting().scope,
                old(self).setting().limits,
                event.unit_snapshot(),
            ),
    {
        let snap = event.snapshot();
        if !self.in_scope(snap) {
            return Ok(());
        }
        match &snap.unit {
            CanonicalUnit::Tool(tool) => {
                let key: String = join3(
                    snap.interpretation_id.as_str(),
                    ":",
                    tool.tool_action_id.as_str(),
                );
                let version = UnitVersion { key: key.clone(), generation: snap.unit_generation };
                if self.seen.contains_key(&version) {
                    self.duplicates = self.duplicates + 1;
                    return Ok(());
                }
                if self.seen.len() >= self.setting.limits.max_dedup_entries {
                    return Err(LoopEndKind::InvariantFailed);
                }
                self.seen.insert(version, ());
                assert(self@.seen =~= old(self)@.seen.insert(version@));
                match tool.request_state {
                    ToolRequestState::Assembling => {
                        self.track_waiting(
                            &key,
                            &tool.tool_action_id,
                            &snap.unit_id,
                            snap.unit_generation,
                        );
                        Ok(())
                    },
                    ToolRequestState::Ready => self.on_request_ready(&key, tool, snap),
                    ToolRequestState::Incomplete | ToolRequestState::Malformed => {
                        self.track_incomplete(
                            &key,
                            &tool.tool_action_id,
                            &snap.unit_id,
                            snap.unit_generation,
                        );
                        Ok(())
                    },
                }
            },
            _ => Ok(()),
        }
    }

    /// Handles a delivery.
    pub fn on_delivered(&mut self, delivered: &DeliveredEvent) -> (r: Result<(), LoopEndKind>)
        requires
            old(self).wf(),
            counters_have_room(old(self)@),
        ensures
            final(self).wf(),
            final(self).setting() == old(self).setting(),
            (final(self)@, r) == after_delivery(
                old(self)@,
                old(self).setting().scope,
                old(self).setting().limits,
                *delivered,
            ),
    {
        if self.last_seq > 0 && delivered.delivery_sequence != self.last_seq + 1 {
            let mut text: String = join3(
                "delivery gap: expected ",
                decimal(self.last_seq + 1).as_str(),
                ", got ",
            );
            text.append(decimal(delivered.delivery_sequence).as_str());
            self.diag(text);
            return Err(LoopEndKind::SubscriptionLost);
        }
        self.last_seq = delivered.delivery_sequence;
        self.delivery_events = self.delivery_events + 1;
        match &delivered.event {
            InterpreterOutputEvent::Unit(ev) => self.on_unit(ev),
            InterpreterOutputEvent::Ended(_) => Ok(()),
        }
    }
    /// The account of this loop at its end.
    fn finish(&mut self, kind: LoopEndKind) -> (r: LoopAction)
        requires
            old(self).wf(),
        ensures
            final(self).wf(),
            final(self).setting() == old(self).setting(),
            final(self)@ == ended(old(self)@, kind).0,
            carries_out(
                r,
                old(self).setting(),
                final(self)@,
                LoopVerdict::Finish(kind),
                Seq::empty(),
            ),
    {
        self.phase = LoopPhase::Ended;
        LoopAction::Finish(
            LoopEnd {
                monoloop_run_id: self.setting.monoloop_run_id.clone(),
                loop_id: self.setting.loop_id.clone(),
                kind,
                delivery_events_received: self.delivery_events,
                duplicate_events: self.duplicates,
                tools_unavailable: self.tools_unavailable,
                outbound_results_emitted: self.outbound_results,
                safe_diagnostics: clone_texts(&self.diagnostics),
            },
        )
    }

    fn outbound_result(
        &self,
        p: PendingDispatch,
        outcome: OutboundToolOutcome,
        payload: String,
        result_id: String,
    ) -> (r: OutboundToolResult)
        ensures
            answers(r, self.setting(), result_id@, p, outcome, payload@),
    {
        OutboundToolResult {
            outbound_result_id: result_id,
            monoloop_run_id: self.setting.monoloop_run_id.clone(),
            loop_id: self.setting.loop_id.clone(),
            source_interpretation_id: p.interpretation_id,
            source_connection_id: p.connection_id,
            external_session_id: p.external_session_id,
            tool_action_id: p.tool_action_id,
            request_generation: p.generation,
            tool_execution_id: None,
            outcome,
            payload,
            source_unit_id: p.unit_id,
        }
    }

    /// Whether the answer to a report carries a result, which needs an identity.
    pub fn needs_result_id(&self, input: &LoopInput) -> (r: bool)
        ensures
            r == (next(self@, self.setting().scope, self.setting().limits, *input).1 is Result),
    {
        match (&self.phase, input) {
            (LoopPhase::Resolving(_), LoopInput::Resolved(Ok(ToolResolution::Available(_)))) => true,
            (LoopPhase::SendingUnavailable(_, _), LoopInput::Sent(true)) => true,
            _ => false,
        }
    }

    /// One step of the machine. A result, where the step sends one, gets a
    /// fresh random identity.
    pub fn step(&mut self, input: LoopInput) -> (r: LoopAction)
        requires
            old(self).wf(),
            counters_have_room(old(self)@),
        ensures
            final(self).wf(),
            final(self).setting() == old(self).setting(),
            final(self)@ == next(
                old(self)@,
                old(self).setting().scope,
                old(self).setting().limits,
                input,
            ).0,
            exists|v: u128|
                is_random_uuid(v) && carries_out(
                    r,
                    old(self).setting(),
                    final(self)@,
                    next(
                        old(self)@,
                        old(self).setting().scope,
                        old(self).setting().limits,
                        input,
                    ).1,
                    #[trigger] uuid_text(v),
                ),
    {
        if self.needs_result_id(&input) {
            self.step_with_id(input, fresh_id_text())
        } else {
            let r = self.step_with_id(input, String::new());
            proof {
                let v = 0x40008000000000000000u128;
                assert(is_random_uuid(v) && carries_out(
                    r,
                    old(self).setting(),
                    self@,
                    next(
                        old(self)@,
                        old(self).setting().scope,
                        old(self).setting().limits,
                        input,
                    ).1,
                    uuid_text(v),
                ));
            }
            r
        }
    }

    /// One step of the machine, with the identity for the result that it may send.
    pub fn step_with_id(&mut self, input: LoopInput, result_id: String) -> (r: LoopAction)
        requires
            old(self).wf(),
            counters_have_room(old(self)@),
        ensures
            final(self).wf(),
            final(self).setting() == old(self).setting(),
            final(self)@ == next(
                old(self)@,
                old(self).setting().scope,
                old(self).setting().limits,
                input,
            ).0,
            carries_out(
                r,
                old(self).setting(),
                final(self)@,
                next(
                    old(self)@,
                    old(self).setting().scope,
                    old(self).setting().limits,
                    input,
                ).1,
                result_id@,
            ),
    {
        match input {
            LoopInput::Cancelled => {
                if let LoopPhase::Receiving = self.phase {
                    self.finish(LoopEndKind::Cancelled)
                } else {
                    LoopAction::Ignore
                }
            },
            LoopInput::Received(message) => {
                if let LoopPhase::Receiving = self.phase {
                    match message {
                        None => self.finish(LoopEndKind::Drained),
                        Some(Err(status)) => match status {
                            SubscriptionStatus::Gap(_) | SubscriptionStatus::Lost => self.finish(
                                LoopEndKind::SubscriptionLost,
                            ),
                            SubscriptionStatus::Opened
                            | SubscriptionStatus::Closing => LoopAction::Receive,
                        },
                        Some(Ok(delivered)) => self.receive(&delivered),
                    }
                } else {
                    LoopAction::Ignore
                }
            },
            LoopInput::Sent(sent) => self.after_send(sent, result_id),
            LoopInput::Resolved(answer) => self.after_resolve(answer, result_id),
        }
    }

    fn receive(&mut self, delivered: &DeliveredEvent) -> (r: LoopAction)
        requires
            old(self).wf(),
            counters_have_room(old(self)@),
            old(self)@.phase is Receiving,
        ensures
            final(self).wf(),
            final(self).setting() == old(self).setting(),
            final(self)@ == settled(
                after_delivery(
                    old(self)@,
                    old(self).setting().scope,
                    old(self).setting().limits,
                    *delivered,
                ),
            ).0,
            forall|id: Seq<char>|
                #[trigger] carries_out(
                    r,
                    old(self).setting(),
                    final(self)@,
                    settled(
                        after_delivery(
                            old(self)@,
                            old(self).setting().scope,
                            old(self).setting().limits,
                            *delivered,
                        ),
                    ).1,
                    id,
                ),
    {
        match self.on_delivered(delivered) {
            Err(kind) => self.finish(kind),
            Ok(()) => match &self.phase {
                LoopPhase::SendingDispatch(p) => LoopAction::Send(
                    LoopOutputEvent::ToolDispatchRequested {
                        tool_action_id: p.tool_action_id.clone(),
                        request_generation: p.generation,
                    },
                ),
                _ => LoopAction::Receive,
            },
        }
    }

    fn after_send(&mut self, sent: bool, result_id: String) -> (r: LoopAction)
        requires
            old(self).wf(),
            counters_have_room(old(self)@),
        ensures
            final(self).wf(),
            final(self).setting() == old(self).setting(),
            final(self)@ == next(
                old(self)@,
                old(self).setting().scope,
                old(self).setting().limits,
                LoopInput::Sent(sent),
            ).0,
            carries_out(
                r,
                old(self).setting(),
                final(self)@,
                next(
                    old(self)@,
                    old(self).setting().scope,
                    old(self).setting().limits,
                    LoopInput::Sent(sent),
                ).1,
                result_id@,
            ),
    {
        let mut phase = LoopPhase::Receiving;
        core::mem::swap(&mut phase, &mut self.phase);
        match phase {
            LoopPhase::SendingDispatch(p) => {
                if !sent {
                    return self.finish(LoopEndKind::OutputFailed);
                }
                let request = ResolveToolRequest {
                    tool_action_id: p.tool_action_id.clone(),
                    tool_name: p.tool_name.clone(),
                    request_payload: p.request_payload.clone(),
                };
                self.phase = LoopPhase::Resolving(p);
                LoopAction::Resolve(request)
            },
            LoopPhase::SendingUnavailable(p, reason) => {
                if !sent {
                    return self.finish(LoopEndKind::OutputFailed);
                }
                self.outbound_results = self.outbound_results + 1;
                self.phase = LoopPhase::SendingResult;
                let payload: String = String::from_str(reason.label());
                LoopAction::Send(
                    LoopOutputEvent::OutboundToolResult(
                        self.outbound_result(
                            p,
                            OutboundToolOutcome::ToolUnavailable,
                            payload,
                            result_id,
                        ),
                    ),
                )
            },
            LoopPhase::SendingResult => {
                if !sent {
                    return self.finish(LoopEndKind::OutputFailed);
                }
                LoopAction::Receive
            },
            other => {
                self.phase = other;
                LoopAction::Ignore
            },
        }
    }

    fn after_resolve(
        &mut self,
        answer: Result<ToolResolution, ToolRegistryError>,
        result_id: String,
    ) -> (r: LoopAction)
        requires
            old(self).wf(),
            counters_have_room(old(self)@),
        ensures
            final(self).wf(),
            final(self).setting() == old(self).setting(),
            final(self)@ == next(
                old(self)@,
                old(self).setting().scope,
                old(self).setting().limits,
                LoopInput::Resolved(answer),
            ).0,
            carries_out(
                r,
                old(self).setting(),
                final(self)@,
                next(
                    old(self)@,
                    old(self).setting().scope,
                    old(self).setting().limits,
                    LoopInput::Resolved(answer),
                ).1,
                result_id@,
            ),
    {
        let mut phase = LoopPhase::Receiving;
        core::mem::swap(&mut phase, &mut self.phase);
        match phase {
            LoopPhase::Resolving(p) => match answer {
                Err(_) => self.finish(LoopEndKind::InvariantFailed),
                Ok(ToolResolution::Unavailable(reason)) => {
                    let key: String = join3(
                        p.interpretation_id.as_str(),
                        ":",
                        p.tool_action_id.as_str(),
                    );
                    match self.actions.get_mut(&key) {
                        Some(rec) => {
                            rec.state = ActionState::Unavailable;
                        },
                        None => {},
                    }
                    self.tools_unavailable = self.tools_unavailable + 1;
                    let notice = LoopOutputEvent::ToolUnavailable {
                        tool_action_id: p.tool_action_id.clone(),
                        reason,
                    };
                    self.phase = LoopPhase::SendingUnavailable(p, reason);
                    LoopAction::Send(notice)
                },
                Ok(ToolResolution::Available(_)) => {
                    self.diag(
                        String::from_str(
                            "Available tool without runtime policy — dispatch_rejected",
                        ),
                    );
                    self.phase = LoopPhase::SendingResult;
                    let payload: String = String::from_str("available tool path deferred");
                    LoopAction::Send(
                        LoopOutputEvent::OutboundToolResult(
                            self.outbound_result(
                                p,
                                OutboundToolOutcome::DispatchRejected,
                                payload,
                                result_id,
                            ),
                        ),
                    )
                },
            },
            other => {
                self.phase = other;
                LoopAction::Ignore
            },
        }
    }
}

/// State of a loop that has received nothing.
pub open spec fn initial() -> LoopModel {
    LoopModel {
        last_seq: 0,
        actions: Map::empty(),
        seen: Set::empty(),
        delivery_events: 0,
        duplicates: 0,
        tools_unavailable: 0,
        outbound_results: 0,
        diagnostics: Seq::empty(),
        phase: LoopPhase::Receiving,
    }
}

/// The end that stands in for one that was never reported.
pub fn dropped_completion() -> (r: LoopEnd)
    ensures
        r.monoloop_run_id@ == "unknown"@,
        r.loop_id@ == "unknown"@,
        r.kind == LoopEndKind::InvariantFailed,
        r.delivery_events_received == 0,
        r.duplicate_events == 0,
        r.tools_unavailable == 0,
        r.outbound_results_emitted == 0,
        texts(r.safe_diagnostics@) == seq!["completion dropped"@],
{
    let mut safe_diagnostics: Vec<String> = Vec::new();
    safe_diagnostics.push(String::from_str("completion dropped"));
    assert(texts(safe_diagnostics@) =~= seq!["completion dropped"@]);
    LoopEnd {
        monoloop_run_id: String::from_str("unknown"),
        loop_id: String::from_str("unknown"),
        kind: LoopEndKind::InvariantFailed,
        delivery_events_received: 0,
        duplicate_events: 0,
        tools_unavailable: 0,
        outbound_results_emitted: 0,
        safe_diagnostics,
    }
}

/// Start request for one loop.
pub struct StartLoop {
    /// What the loop is started with.
    pub setting: LoopSetting,
    /// Output events that may wait; 0 counts as 1.
    pub output_capacity: usize,
}

/// A loop that was started, and the bound of its output queue.
pub struct StartedLoop {
    /// The machine.
    pub owner: LoopOwner,
    /// Its cancellation flag.
    pub control: LoopControl,
    /// Output events that may wait.
    pub output_bound: usize,
}

/// Default runtime factory.
#[derive(Clone, Copy, Debug, PartialEq, Eq, Structural)]
pub struct DefaultLoopRuntime;

impl DefaultLoopRuntime {
    /// Create.
    pub fn new() -> (r: Self)
        ensures
            r == DefaultLoopRuntime,
    {
        DefaultLoopRuntime
    }

    /// Start a loop.
    pub fn start(&self, request: StartLoop) -> (r: StartedLoop)
        ensures
            r.owner.wf(),
            r.owner.setting() == request.setting,
            r.owner@ == initial(),
            !r.control.cancelled,
            r.output_bound == (if request.output_capacity == 0 {
                1
            } else {
                request.output_capacity
            }),
    {
        let output_bound: usize = if request.output_capacity == 0 {
            1
        } else {
            request.output_capacity
        };
        StartedLoop {
            owner: LoopOwner::new(request.setting),
            control: LoopControl::new(),
            output_bound,
        }
    }

    /// Start a loop whose output queue has the bound of its limits.
    pub fn start_empty(&self, setting: LoopSetting) -> (r: StartedLoop)
        ensures
            r.owner.wf(),
            r.owner.setting() == setting,
            r.owner@ == initial(),
            !r.control.cancelled,
            r.output_bound == (if setting.limits.max_output_queue == 0 {
                1
            } else {
                setting.limits.max_output_queue
            }),
    {
        let output_capacity: usize = setting.limits.max_output_queue;
        self.start(StartLoop { setting, output_capacity })
    }
}

} // verus!
