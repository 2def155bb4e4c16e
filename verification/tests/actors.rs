use monoloop_loop::identity::{ExchangeId, TransactionId};
use monoloop_loop::transaction::active_registry::{ClaimSessionError, ControlMessage};
use monoloop_loop::transaction::actor::{
    ActorAction, ActorExchange, ActorInput, ActorRun, ActorSetting, ChildEnd, Cleanup, RaceEnd,
    ToolOutcomeKind,
};
use monoloop_loop::transaction::actor_claim::{ClaimAction, ClaimInput, ClaimTask};
use monoloop_loop::transaction::actor_end::{
    continuation_live_capacity, emit_unit_or_session, live_capacity, rejection_result,
};
use monoloop_loop::transaction::channel_registry::{
    ChannelKind, ContinuationPolicy, McpConfigurationCapability, McpReachability,
    ToolExecutionMode,
};
use monoloop_loop::transaction::events::OrderedEventPublisher;
use monoloop_loop::transaction::exchange::ExchangeFailure;
use monoloop_loop::transaction::finalization::EventSequencer;
use monoloop_loop::transaction::lifecycle::coordinator::{
    Coordinator, CoordinatorAction, CoordinatorInput, CoordinatorSetting, ExchangeReport,
    GateAction, GateInput, PromptGate,
};
use monoloop_loop::transaction::lifecycle::exchange::PromptProceedError;
use monoloop_loop::transaction::lifecycle::ledger::LedgerInsertError;
use monoloop_loop::transaction::lifecycle::loop_dispatch::{Interruptible, LoopDispatchError};
use monoloop_loop::transaction::types::{
    CanonicalToolResultOutcome, SafeDiagnostic, SessionKey, TransactionDiagnostic,
    TransactionEndKind, TransactionEventPayload,
};

fn direct() -> ActorSetting {
    ActorSetting {
        schema_bytes: 10,
        max_tool_schema_bytes: 100,
        has_adapter: false,
        tool_mode: ToolExecutionMode::ModelToolCalls,
        has_tools: true,
        mcp_configuration: McpConfigurationCapability::Unsupported,
        mcp_reachability: McpReachability::Unreachable,
        has_gateway: false,
        session_known: true,
        provisional_external: false,
        existing_session: false,
        policy: ContinuationPolicy::InlineToolContinuation,
        max_continuations: 1,
        max_provider_exchanges: 2,
        max_input_bytes: 1000,
        max_output_bytes: 1000,
        max_context_bytes: 500,
        max_encoded_bytes: 400,
    }
}

fn agent() -> ActorSetting {
    ActorSetting {
        has_adapter: true,
        tool_mode: ToolExecutionMode::McpGateway,
        mcp_configuration: McpConfigurationCapability::CreationOnly,
        mcp_reachability: McpReachability::SameLoopbackNamespace,
        has_gateway: true,
        session_known: false,
        provisional_external: true,
        ..direct()
    }
}

fn done(ready: usize) -> ActorExchange {
    ActorExchange {
        request_bytes: 100,
        unit_bytes: 200,
        failure: None,
        ready,
        told_session: true,
    }
}

fn finish(kind: TransactionEndKind) -> ActorAction {
    ActorAction::Finish {
        kind,
        cleanup: Cleanup { request: false, exchange: false, fan_out: false, claim: false, tools: false },
    }
}

fn exchanged(setting: ActorSetting, report: ActorExchange) -> (ActorRun, ActorAction) {
    let mut run = ActorRun::new(setting);
    assert_eq!(run.step(ActorInput::Gate(true)), ActorAction::SpawnFanOut);
    assert_eq!(
        run.step(ActorInput::Spawned(true)),
        ActorAction::RunExchange { remaining_input: 1000, remaining_output: 1000 }
    );
    assert_eq!(run.step(ActorInput::Exchanged(report)), ActorAction::JoinFanOut);
    let action = run.step(ActorInput::Joined(ChildEnd::Fine));
    (run, action)
}

#[test]
fn an_answer_without_tools_completes() {
    let (mut run, action) = exchanged(direct(), done(0));
    assert_eq!(action, finish(TransactionEndKind::Completed));
    assert_eq!(run.step(ActorInput::Control(None)), ActorAction::Ignore);
}

#[test]
fn a_dropped_start_is_abandoned() {
    let mut run = ActorRun::new(direct());
    assert_eq!(run.step(ActorInput::Gate(false)), ActorAction::Abandon);
}

#[test]
fn schemas_over_the_limit_are_rejected_at_the_start() {
    let mut run = ActorRun::new(ActorSetting { schema_bytes: 101, ..direct() });
    assert_eq!(
        run.step(ActorInput::Gate(true)),
        ActorAction::RejectStart(TransactionEndKind::LimitExceeded)
    );
}

#[test]
fn tools_run_and_the_transaction_goes_on() {
    let (mut run, action) = exchanged(direct(), done(2));
    assert_eq!(action, ActorAction::DispatchTool(0));
    assert_eq!(
        run.step(ActorInput::ToolDone(ToolOutcomeKind::Canonical)),
        ActorAction::EmitOutcome
    );
    assert_eq!(run.step(ActorInput::Emitted(true)), ActorAction::DispatchTool(1));
    assert_eq!(
        run.step(ActorInput::ToolDone(ToolOutcomeKind::Rejected)),
        ActorAction::EmitOutcome
    );
    assert_eq!(run.step(ActorInput::Emitted(true)), ActorAction::EmitRejection);
    assert_eq!(run.step(ActorInput::Emitted(true)), ActorAction::Append);
    assert_eq!(run.step(ActorInput::Appended(Some(500))), ActorAction::Encode);
    assert_eq!(run.step(ActorInput::Encoded(Some(400))), ActorAction::SpawnFanOut);
    assert_eq!(
        run.step(ActorInput::Spawned(true)),
        ActorAction::RunExchange { remaining_input: 900, remaining_output: 800 }
    );
    assert_eq!(run.step(ActorInput::Exchanged(done(1))), ActorAction::JoinFanOut);
    assert_eq!(run.step(ActorInput::Joined(ChildEnd::Fine)), ActorAction::DispatchTool(0));
    run.step(ActorInput::ToolDone(ToolOutcomeKind::Canonical));
    assert_eq!(
        run.step(ActorInput::Emitted(true)),
        finish(TransactionEndKind::LimitExceeded)
    );
    assert_eq!(run.state.exchanges_done, 2);
    assert_eq!(run.state.continuations_done, 1);
}

#[test]
fn the_caller_goes_on_where_the_policy_says_so() {
    let setting = ActorSetting { policy: ContinuationPolicy::CallerControlled, ..direct() };
    let (mut run, _) = exchanged(setting, done(1));
    run.step(ActorInput::ToolDone(ToolOutcomeKind::Canonical));
    assert_eq!(
        run.step(ActorInput::Emitted(true)),
        finish(TransactionEndKind::ContinuationRequired)
    );
}

#[test]
fn a_tool_that_cannot_run_fails_the_exchange() {
    let (mut run, _) = exchanged(direct(), done(1));
    run.step(ActorInput::ToolDone(ToolOutcomeKind::RuntimeFailed));
    assert_eq!(
        run.step(ActorInput::Emitted(true)),
        finish(TransactionEndKind::ToolExchangeFailed)
    );
    let (mut run, _) = exchanged(direct(), done(1));
    run.step(ActorInput::ToolDone(ToolOutcomeKind::RuntimeFailed));
    assert_eq!(
        run.step(ActorInput::Emitted(false)),
        finish(TransactionEndKind::EventDeliveryFailed)
    );
}

#[test]
fn output_over_the_budget_exceeds_a_limit() {
    let mut run = ActorRun::new(direct());
    run.step(ActorInput::Gate(true));
    run.step(ActorInput::Spawned(true));
    let report = ActorExchange { unit_bytes: 1001, ..done(0) };
    assert_eq!(
        run.step(ActorInput::Exchanged(report)),
        finish(TransactionEndKind::LimitExceeded)
    );
}

#[test]
fn control_ends_what_is_under_way() {
    let mut run = ActorRun::new(direct());
    run.step(ActorInput::Gate(true));
    run.step(ActorInput::Spawned(true));
    assert_eq!(
        run.step(ActorInput::Control(Some(ControlMessage::ForceTerminate))),
        ActorAction::Finish {
            kind: TransactionEndKind::Terminated,
            cleanup: Cleanup { request: false, exchange: true, fan_out: true, claim: false, tools: false },
        }
    );
    let (mut run, _) = exchanged(direct(), done(1));
    assert_eq!(
        run.step(ActorInput::Control(Some(ControlMessage::Cancel))),
        ActorAction::Finish {
            kind: TransactionEndKind::Cancelled,
            cleanup: Cleanup { request: false, exchange: false, fan_out: false, claim: false, tools: true },
        }
    );
}

#[test]
fn a_created_session_is_claimed_by_its_own_task() {
    let mut run = ActorRun::new(agent());
    assert_eq!(run.step(ActorInput::Gate(true)), ActorAction::InstallRoute);
    assert_eq!(
        run.step(ActorInput::RouteInstalled(true)),
        ActorAction::BeginAttach { with_route: true, requested: false }
    );
    assert_eq!(run.step(ActorInput::AttachBegun(true)), ActorAction::AwaitAttach);
    assert_eq!(
        run.step(ActorInput::Attached { create_mode: true, expected: true }),
        ActorAction::SpawnFanOut
    );
    assert_eq!(run.step(ActorInput::Spawned(true)), ActorAction::SpawnClaim);
    assert!(matches!(
        run.step(ActorInput::Spawned(true)),
        ActorAction::RunExchange { .. }
    ));
    assert_eq!(
        run.step(ActorInput::ExchangeFailed(ExchangeFailure::ConnectorFailed)),
        ActorAction::JoinClaim { abort_fan_out: true }
    );
    let failed = ChildEnd::Failed(TransactionEndKind::LimitExceeded);
    assert_eq!(
        run.step(ActorInput::Joined(failed)),
        finish(TransactionEndKind::LimitExceeded)
    );
    let settled = run.settle(RaceEnd::Work(TransactionEndKind::LimitExceeded));
    assert_eq!(settled.kind, TransactionEndKind::LimitExceeded);
    assert!(settled.revoke);
    assert!(settled.refresh);
    assert!(!settled.cancel_work);
    assert!(!run.settle(RaceEnd::Deadline).revoke);
}

#[test]
fn a_loaded_session_is_claimed_and_announced_first() {
    let setting = ActorSetting {
        mcp_configuration: McpConfigurationCapability::Refreshable,
        existing_session: true,
        provisional_external: false,
        session_known: true,
        ..agent()
    };
    let mut run = ActorRun::new(setting);
    assert_eq!(run.step(ActorInput::Gate(true)), ActorAction::InstallRoute);
    assert_eq!(
        run.step(ActorInput::RouteInstalled(true)),
        ActorAction::BeginAttach { with_route: false, requested: true }
    );
    run.step(ActorInput::AttachBegun(true));
    assert_eq!(
        run.step(ActorInput::Attached { create_mode: false, expected: true }),
        ActorAction::Announce
    );
    assert_eq!(run.step(ActorInput::Emitted(true)), ActorAction::BeginRefresh);
    assert_eq!(run.step(ActorInput::RefreshBegun(true)), ActorAction::AwaitRefresh);
    assert_eq!(run.step(ActorInput::Refreshed(true)), ActorAction::Activate);
    assert_eq!(run.step(ActorInput::Activated(true)), ActorAction::SpawnFanOut);
    let mut other = ActorRun::new(setting);
    other.step(ActorInput::Gate(true));
    other.step(ActorInput::RouteInstalled(true));
    other.step(ActorInput::AttachBegun(true));
    assert_eq!(
        other.step(ActorInput::Attached { create_mode: false, expected: false }),
        finish(TransactionEndKind::InvariantFailed)
    );
}

#[test]
fn a_generated_session_is_claimed_without_an_adapter() {
    let setting = ActorSetting { session_known: false, provisional_external: true, ..direct() };
    let mut run = ActorRun::new(setting);
    assert_eq!(run.step(ActorInput::Gate(true)), ActorAction::ClaimGenerated);
    assert_eq!(
        run.step(ActorInput::NotClaimed(ClaimSessionError::CapacityExceeded)),
        finish(TransactionEndKind::LimitExceeded)
    );
    let mut run = ActorRun::new(setting);
    run.step(ActorInput::Gate(true));
    assert_eq!(run.step(ActorInput::Claimed), ActorAction::Announce);
    assert_eq!(run.step(ActorInput::Emitted(true)), ActorAction::SpawnFanOut);
}

#[test]
fn the_race_picks_the_terminal_kind() {
    let mut run = ActorRun::new(direct());
    let deadline = run.settle(RaceEnd::Deadline);
    assert_eq!(deadline.kind, TransactionEndKind::DeadlineExceeded);
    assert!(deadline.cancel_work);
    let delivery = run.settle(RaceEnd::Delivery { failed: true });
    assert_eq!(delivery.kind, TransactionEndKind::EventDeliveryFailed);
}

#[test]
fn the_claim_task_releases_the_prompt_last() {
    let mut task = ClaimTask::new(true, true);
    assert_eq!(task.step(ClaimInput::Told(true)), ClaimAction::Claim);
    assert_eq!(task.step(ClaimInput::Claimed), ClaimAction::Announce);
    assert_eq!(task.step(ClaimInput::Announced(true)), ClaimAction::Activate);
    assert_eq!(task.step(ClaimInput::Activated(true)), ClaimAction::Release);
    let mut task = ClaimTask::new(false, false);
    assert_eq!(
        task.step(ClaimInput::Told(false)),
        ClaimAction::Fail(TransactionEndKind::InvariantFailed)
    );
    let mut task = ClaimTask::new(false, false);
    task.step(ClaimInput::Told(true));
    assert_eq!(
        task.step(ClaimInput::NotClaimed(ClaimSessionError::Collision)),
        ClaimAction::Fail(TransactionEndKind::InvariantFailed)
    );
}

#[test]
fn live_capacities() {
    assert_eq!(live_capacity(0, 1), 8);
    assert_eq!(live_capacity(10240, 1), 40);
    assert_eq!(live_capacity(1_000_000, 1), 64);
    assert_eq!(live_capacity(1_000_000, 2), 128);
    assert_eq!(live_capacity(1_000_000, usize::MAX), 3906);
    assert_eq!(continuation_live_capacity(1_000_000), 64);
    assert_eq!(continuation_live_capacity(100), 8);
}

fn key() -> SessionKey {
    SessionKey { channel_id: String::from("llm"), session_id: String::from("s") }
}

#[test]
fn a_rejected_call_becomes_a_result() {
    let short = rejection_result(
        TransactionId { value: 1 },
        &key(),
        ExchangeId { value: 2 },
        &String::from("a1"),
        &String::from("call_1"),
        7,
        "tool_not_allowed",
        "tool not in resolved set",
    );
    assert_eq!(short.tool_id, "rejected");
    assert_eq!(short.request_ordinal, 7);
    match short.outcome {
        CanonicalToolResultOutcome::DomainFailed(e) => {
            assert_eq!(e.code, "tool_not_allowed");
            assert_eq!(e.message, "tool not in resolved set");
        }
        _ => panic!("expected a failure"),
    }
    let long = rejection_result(
        TransactionId { value: 1 },
        &key(),
        ExchangeId { value: 2 },
        &String::from("a1"),
        &String::from("call_1"),
        7,
        "x",
        &"y".repeat(257),
    );
    match long.outcome {
        CanonicalToolResultOutcome::DomainFailed(e) => {
            assert_eq!(e.code, "tool_rejected");
            assert_eq!(e.message, "rejected");
        }
        _ => panic!("expected a failure"),
    }
}

#[test]
fn no_event_goes_out_without_a_session() {
    let events = OrderedEventPublisher::new(EventSequencer::new());
    let payload = || {
        TransactionEventPayload::Diagnostic(TransactionDiagnostic {
            diagnostic: SafeDiagnostic { code: String::from("noop"), message: None },
        })
    };
    let tx = TransactionId { value: 1 };
    let ch = String::from("llm");
    assert!(emit_unit_or_session(&events, tx, &ch, &None, payload()).is_none());
    let event = emit_unit_or_session(&events, tx, &ch, &Some(key()), payload()).unwrap();
    assert_eq!(event.sequence, 1);
    assert_eq!(event.session_id, "s");
}

fn coordinator(setting: CoordinatorSetting) -> Coordinator {
    Coordinator::new(setting)
}

fn llm() -> CoordinatorSetting {
    CoordinatorSetting {
        channel_known: true,
        config_ok: true,
        kind: ChannelKind::DirectLlm,
        has_sessions: false,
        tool_mode: ToolExecutionMode::ModelToolCalls,
        mcp_configuration: McpConfigurationCapability::Unsupported,
        has_tools: true,
        has_gateway: false,
        policy: ContinuationPolicy::InlineToolContinuation,
        max_provider_exchanges: 3,
        max_continuations: 1,
        max_context_bytes: 100,
        max_input_bytes: 100,
        max_output_bytes: 100,
    }
}

fn report(has_ready: bool) -> ExchangeReport {
    ExchangeReport {
        terminal: TransactionEndKind::Completed,
        input_bytes: 10,
        output_bytes: 20,
        unannounced_session: false,
        units: 1,
        has_ready,
    }
}

fn propose(kind: TransactionEndKind) -> CoordinatorAction {
    CoordinatorAction::Propose { kind, revoke: false }
}

#[test]
fn coordinator_refuses_what_it_cannot_run() {
    let mut c = coordinator(CoordinatorSetting { channel_known: false, ..llm() });
    assert_eq!(
        c.step(CoordinatorInput::Start),
        propose(TransactionEndKind::InvariantFailed)
    );
    let mut c = coordinator(CoordinatorSetting { max_provider_exchanges: 0, ..llm() });
    assert_eq!(
        c.step(CoordinatorInput::Start),
        propose(TransactionEndKind::LimitExceeded)
    );
    let mut c = coordinator(CoordinatorSetting { kind: ChannelKind::ExternalAgent, ..llm() });
    assert_eq!(
        c.step(CoordinatorInput::Start),
        propose(TransactionEndKind::InvariantFailed)
    );
}

#[test]
fn coordinator_continues_within_its_bounds() {
    let mut c = coordinator(llm());
    c.step(CoordinatorInput::Start);
    assert_eq!(
        c.step(CoordinatorInput::ExchangeEnded(report(true))),
        CoordinatorAction::PublishUnit(0)
    );
    assert_eq!(
        c.step(CoordinatorInput::Sent(Interruptible::Done)),
        CoordinatorAction::RunTools
    );
    assert_eq!(c.step(CoordinatorInput::ToolsRun(true)), CoordinatorAction::AppendRound);
    assert_eq!(
        c.step(CoordinatorInput::Appended(Some(100))),
        CoordinatorAction::CheckContext
    );
    assert_eq!(
        c.step(CoordinatorInput::ContextChecked(true)),
        CoordinatorAction::RunContinuation { remaining_input: 90, remaining_output: 80 }
    );
    c.step(CoordinatorInput::ExchangeEnded(report(true)));
    assert_eq!(
        c.step(CoordinatorInput::Sent(Interruptible::Done)),
        CoordinatorAction::RunTools
    );
    assert_eq!(
        c.step(CoordinatorInput::ToolsRun(true)),
        propose(TransactionEndKind::LimitExceeded)
    );
}

#[test]
fn coordinator_maps_failures_of_the_tools() {
    for (error, kind) in [
        (LoopDispatchError::Cancelled, TransactionEndKind::Cancelled),
        (LoopDispatchError::PublishFailed, TransactionEndKind::EventDeliveryFailed),
        (LoopDispatchError::LoopFailed, TransactionEndKind::InvariantFailed),
    ] {
        let mut c = coordinator(llm());
        c.step(CoordinatorInput::Start);
        c.step(CoordinatorInput::ExchangeEnded(report(true)));
        c.step(CoordinatorInput::Sent(Interruptible::Done));
        assert_eq!(c.step(CoordinatorInput::ToolsFailed(error)), propose(kind));
    }
    let mut c = coordinator(llm());
    c.step(CoordinatorInput::Start);
    c.step(CoordinatorInput::ExchangeEnded(report(true)));
    assert_eq!(
        c.step(CoordinatorInput::Sent(Interruptible::Cancelled)),
        propose(TransactionEndKind::Cancelled)
    );
}

#[test]
fn coordinator_takes_an_installed_route_back() {
    let mut c = coordinator(CoordinatorSetting {
        kind: ChannelKind::ExternalAgent,
        has_sessions: true,
        tool_mode: ToolExecutionMode::McpGateway,
        mcp_configuration: McpConfigurationCapability::CreationOnly,
        has_gateway: true,
        ..llm()
    });
    assert_eq!(c.step(CoordinatorInput::Start), CoordinatorAction::InstallRoute);
    assert_eq!(
        c.step(CoordinatorInput::RouteInstalled(true)),
        CoordinatorAction::BeginAttach { with_route: true }
    );
    assert_eq!(
        c.step(CoordinatorInput::AttachBegun(true)),
        CoordinatorAction::AwaitAttach
    );
    assert_eq!(
        c.step(CoordinatorInput::Attached(true)),
        CoordinatorAction::RunExchange { gated: true }
    );
    c.step(CoordinatorInput::ExchangeEnded(report(true)));
    assert_eq!(
        c.step(CoordinatorInput::Sent(Interruptible::Done)),
        CoordinatorAction::Propose { kind: TransactionEndKind::Completed, revoke: true }
    );
}

#[test]
fn the_prompt_gate_opens_for_a_bound_session_only() {
    let opened = GateInput::Opened { told: true, cancelled: false, valid: true };
    let mut gate = PromptGate::new(true, true);
    assert_eq!(gate.step(opened), GateAction::Bind);
    assert_eq!(gate.step(GateInput::Bound), GateAction::Announce);
    assert_eq!(gate.step(GateInput::Announced(true)), GateAction::Activate);
    assert_eq!(gate.step(GateInput::Activated(true)), GateAction::Open);
    let mut gate = PromptGate::new(false, false);
    gate.step(opened);
    assert_eq!(
        gate.step(GateInput::NotBound(LedgerInsertError::DistinctSessionsExceeded)),
        GateAction::Shut {
            error: PromptProceedError::DistinctSessionsExceeded,
            session_known: false,
        }
    );
    let mut gate = PromptGate::new(false, false);
    let cancelled = GateInput::Opened { told: true, cancelled: true, valid: true };
    assert_eq!(
        gate.step(cancelled),
        GateAction::Shut { error: PromptProceedError::Failed, session_known: false }
    );
}
