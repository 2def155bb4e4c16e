use monoloop_loop::json::JsonText;
use monoloop_loop::contracts::{
    CanonicalUnit, CanonicalUnitEvent, CanonicalUnitSnapshot, InterpretationEndKind,
    InterpreterOutputEvent, LoopEnd, LoopEndKind, LoopLimits, LoopOutputEvent, LoopScope,
    OutboundToolOutcome, OutboundToolResult, TextChannel, TextUnit, ToolRequestState,
    ToolUnavailableReason, ToolUnit,
};
use monoloop_loop::identity::{ExchangeId, ToolExecutionId, TransactionId};
use monoloop_loop::registry::{
    EmptyToolRegistry, ResolveToolRequest, ToolDescriptorRef, ToolRegistryError, ToolResolution,
};
use monoloop_loop::runtime::{
    dropped_completion, DefaultLoopRuntime, LoopAction, LoopControl, LoopInput, LoopOwner,
    LoopSetting, StartLoop,
};
use monoloop_loop::subscription::{
    DeliveredEvent, SubscriberId, SubscriptionPublisher, SubscriptionStatus,
};
use monoloop_loop::tools::{NoToolRuntime, StartToolExecution};
use monoloop_loop::transaction::lifecycle::empty_tools::{
    has_ready_tool_units, EmptyPassSetting, EmptyToolPass, EmptyToolPassError, PublishOutcome,
};
use monoloop_loop::transaction::lifecycle::loop_dispatch::{
    needs_loop_dispatch, provider_id_for_result, result_for, result_for_parsed,
    scope_tool_units_for_exchange, Interruptible, LoopDispatchError, LoopPass, PassAction, PassInput, PassResult, PassSetting, PassSpawn,
};
use monoloop_loop::transaction::lifecycle::session_identity::session_key_for;
use monoloop_loop::transaction::types::{
    CanonicalToolOutput, CanonicalToolResultOutcome, SessionKey, ToolLifecycleEvent,
};

fn tool_unit(
    unit_id: &str,
    action: &str,
    state: ToolRequestState,
    payload: Option<&str>,
    generation: u64,
) -> CanonicalUnitEvent {
    CanonicalUnitEvent::Created(CanonicalUnitSnapshot {
        interpretation_id: String::from("i1"),
        connection_id: String::from("c1"),
        external_session_id: None,
        unit_id: String::from(unit_id),
        flow_id: String::from("main"),
        lane_id: String::from("tool"),
        lane_ordinal: 1,
        unit_generation: generation,
        unit: CanonicalUnit::Tool(ToolUnit {
            tool_action_id: String::from(action),
            tool_name: Some(String::from("bash")),
            request_state: state,
            request_payload: payload.map(String::from),
            result_payload: None,
        }),
    })
}

fn ready_tool_unit() -> CanonicalUnitEvent {
    tool_unit("tool-1", "a1", ToolRequestState::Ready, Some("{\"cmd\":\"ls\"}"), 1)
}

fn text_unit() -> CanonicalUnitEvent {
    CanonicalUnitEvent::Completed(CanonicalUnitSnapshot {
        interpretation_id: String::from("i1"),
        connection_id: String::from("c1"),
        external_session_id: None,
        unit_id: String::from("text-1"),
        flow_id: String::from("main"),
        lane_id: String::from("response"),
        lane_ordinal: 1,
        unit_generation: 1,
        unit: CanonicalUnit::Text(TextUnit {
            channel: TextChannel::PublicResponse,
            content: String::from("hello"),
        }),
    })
}

fn limits() -> LoopLimits {
    LoopLimits { max_output_queue: 16, max_tool_actions: 16, max_dedup_entries: 64 }
}

fn scope(all: bool) -> LoopScope {
    LoopScope {
        accept_all_in_run: all,
        accepted_interpretation_ids: vec![],
        accepted_connection_ids: vec![],
        accepted_external_session_ids: vec![],
    }
}

fn setting(scope: LoopScope, limits: LoopLimits) -> LoopSetting {
    LoopSetting {
        monoloop_run_id: String::from("r-prep"),
        loop_id: String::from("l-prep"),
        scope,
        limits,
    }
}

fn unit(event: CanonicalUnitEvent) -> InterpreterOutputEvent {
    InterpreterOutputEvent::Unit(event)
}

/// Runs a loop over delivered events, with an empty registry, to its end.
fn drive(owner: &mut LoopOwner, events: Vec<DeliveredEvent>) -> (Vec<LoopOutputEvent>, LoopEnd) {
    let registry = EmptyToolRegistry::new();
    let mut events = events.into_iter();
    let mut out = Vec::new();
    let mut next = LoopInput::Received(events.next().map(Ok));
    loop {
        next = match owner.step(next) {
            LoopAction::Receive => LoopInput::Received(events.next().map(Ok)),
            LoopAction::Send(event) => {
                out.push(event);
                LoopInput::Sent(true)
            }
            LoopAction::Resolve(request) => LoopInput::Resolved(registry.resolve(&request)),
            LoopAction::Finish(end) => return (out, end),
            LoopAction::Ignore => panic!("the loop waits for nothing"),
        };
    }
}

#[test]
fn needs_loop_dispatch_ready_only() {
    let ready = || tool_unit("tool-1", "a1", ToolRequestState::Ready, Some("{}"), 1);
    let waiting = || tool_unit("tool-2", "a2", ToolRequestState::Assembling, None, 1);
    assert!(needs_loop_dispatch(&vec![ready()]));
    assert!(!needs_loop_dispatch(&vec![waiting()]));
    assert!(needs_loop_dispatch(&vec![waiting(), ready()]));
    assert!(has_ready_tool_units(&vec![waiting(), ready()]));
    assert!(!has_ready_tool_units(&vec![waiting(), text_unit()]));
}

#[test]
fn prepare_loop_no_ambient_spawn_unavailable() {
    let (mut publisher, _) = SubscriptionPublisher::channel(16);
    let started = DefaultLoopRuntime::new().start(StartLoop {
        setting: setting(scope(true), limits()),
        output_capacity: 16,
    });
    let mut owner = started.owner;
    let events = vec![publisher.publish(unit(ready_tool_unit()))];
    let (out, end) = drive(&mut owner, events);
    let mut unavailable = 0;
    let mut outbound = 0;
    for ev in &out {
        match ev {
            LoopOutputEvent::ToolUnavailable { .. } => unavailable += 1,
            LoopOutputEvent::OutboundToolResult(r) => {
                assert_eq!(r.outcome, OutboundToolOutcome::ToolUnavailable);
                assert!(r.tool_execution_id.is_none());
                assert_eq!(r.outbound_result_id.len(), 36);
                outbound += 1;
            }
            _ => {}
        }
    }
    assert_eq!(unavailable, 1);
    assert_eq!(outbound, 1);
    assert_eq!(end.kind, LoopEndKind::Drained);
    assert_eq!(end.tools_unavailable, 1);
    assert_eq!(end.outbound_results_emitted, 1);
    assert_eq!(end.loop_id, "l-prep");
    assert_eq!(owner.health().tools_unavailable, 1);
    assert_eq!(owner.health().events_received, 1);
}

#[test]
fn a_request_is_dispatched_at_most_once() {
    let (mut publisher, _) = SubscriptionPublisher::channel(16);
    let mut owner = DefaultLoopRuntime::new()
        .start_empty(setting(scope(true), limits()))
        .owner;
    let events = vec![
        publisher.publish(unit(tool_unit("tool-1", "a1", ToolRequestState::Assembling, None, 1))),
        publisher.publish(unit(tool_unit("tool-1", "a1", ToolRequestState::Ready, Some("{}"), 2))),
        publisher.publish(unit(tool_unit("tool-1", "a1", ToolRequestState::Ready, Some("{}"), 2))),
        publisher.publish(unit(tool_unit("tool-1", "a1", ToolRequestState::Ready, Some("{}"), 3))),
        publisher.publish(InterpreterOutputEvent::Ended(InterpretationEndKind::Complete)),
    ];
    let (out, end) = drive(&mut owner, events);
    let dispatched = out
        .iter()
        .filter(|e| matches!(e, LoopOutputEvent::ToolDispatchRequested { .. }))
        .count();
    assert_eq!(dispatched, 1);
    assert_eq!(end.kind, LoopEndKind::Drained);
    assert_eq!(end.delivery_events_received, 5);
    assert_eq!(end.tools_unavailable, 1);
}

#[test]
fn out_of_scope_units_are_inert() {
    let (mut publisher, _) = SubscriptionPublisher::channel(16);
    let mut narrow = scope(false);
    narrow.accepted_interpretation_ids = vec![String::from("other")];
    let mut owner = DefaultLoopRuntime::new().start_empty(setting(narrow, limits())).owner;
    let (out, end) = drive(&mut owner, vec![publisher.publish(unit(ready_tool_unit()))]);
    assert_eq!(out.len(), 0);
    assert_eq!(end.kind, LoopEndKind::Drained);
    assert_eq!(end.tools_unavailable, 0);
}

#[test]
fn a_gap_loses_the_subscription() {
    let (publisher, _) = SubscriptionPublisher::channel(16);
    let mut owner = DefaultLoopRuntime::new()
        .start_empty(setting(scope(true), limits()))
        .owner;
    let gap = publisher.signal_gap(1, Some(3));
    match owner.step(LoopInput::Received(Some(Err(gap)))) {
        LoopAction::Finish(end) => assert_eq!(end.kind, LoopEndKind::SubscriptionLost),
        _ => panic!("expected the end"),
    }
    assert!(matches!(owner.step(LoopInput::Cancelled), LoopAction::Ignore));
    assert_eq!(publisher.signal_lost(), SubscriptionStatus::Lost);
}

#[test]
fn a_missing_delivery_loses_the_subscription() {
    let mut owner = DefaultLoopRuntime::new()
        .start_empty(setting(scope(true), limits()))
        .owner;
    let first = DeliveredEvent { delivery_sequence: 1, event: unit(text_unit()) };
    assert!(matches!(
        owner.step(LoopInput::Received(Some(Ok(first)))),
        LoopAction::Receive
    ));
    let late = DeliveredEvent { delivery_sequence: 3, event: unit(text_unit()) };
    match owner.step(LoopInput::Received(Some(Ok(late)))) {
        LoopAction::Finish(end) => {
            assert_eq!(end.kind, LoopEndKind::SubscriptionLost);
            assert_eq!(end.safe_diagnostics, vec!["delivery gap: expected 2, got 3"]);
        }
        _ => panic!("expected the end"),
    }
}

#[test]
fn cancel_ends_the_loop() {
    let mut control = LoopControl::new();
    assert!(!control.is_cancelled());
    control.cancel();
    assert!(control.is_cancelled());
    let mut owner = DefaultLoopRuntime::new()
        .start_empty(setting(scope(true), limits()))
        .owner;
    match owner.step(LoopInput::Cancelled) {
        LoopAction::Finish(end) => assert_eq!(end.kind, LoopEndKind::Cancelled),
        _ => panic!("expected the end"),
    }
}

#[test]
fn an_available_tool_is_answered_as_rejected() {
    let (mut publisher, _) = SubscriptionPublisher::channel(16);
    let mut owner = DefaultLoopRuntime::new()
        .start_empty(setting(scope(true), limits()))
        .owner;
    let delivered = publisher.publish(unit(ready_tool_unit()));
    let first = owner.step(LoopInput::Received(Some(Ok(delivered))));
    assert!(matches!(
        first,
        LoopAction::Send(LoopOutputEvent::ToolDispatchRequested { .. })
    ));
    assert!(matches!(owner.step(LoopInput::Sent(true)), LoopAction::Resolve(_)));
    let found = ToolResolution::Available(ToolDescriptorRef { name: String::from("bash") });
    match owner.step(LoopInput::Resolved(Ok(found))) {
        LoopAction::Send(LoopOutputEvent::OutboundToolResult(r)) => {
            assert_eq!(r.outcome, OutboundToolOutcome::DispatchRejected);
            assert_eq!(r.payload, "available tool path deferred");
            assert_eq!(r.tool_action_id, "a1");
        }
        _ => panic!("expected a result"),
    }
    assert!(matches!(owner.step(LoopInput::Sent(true)), LoopAction::Receive));
}

#[test]
fn a_registry_error_breaks_the_loop() {
    let (mut publisher, _) = SubscriptionPublisher::channel(16);
    let mut owner = DefaultLoopRuntime::new()
        .start_empty(setting(scope(true), limits()))
        .owner;
    let delivered = publisher.publish(unit(ready_tool_unit()));
    owner.step(LoopInput::Received(Some(Ok(delivered))));
    owner.step(LoopInput::Sent(true));
    let error = ToolRegistryError(String::from("broken"));
    assert!(error.message().contains("broken"));
    match owner.step(LoopInput::Resolved(Err(error))) {
        LoopAction::Finish(end) => assert_eq!(end.kind, LoopEndKind::InvariantFailed),
        _ => panic!("expected the end"),
    }
}

#[test]
fn a_closed_output_fails_the_loop() {
    let (mut publisher, _) = SubscriptionPublisher::channel(16);
    let mut owner = DefaultLoopRuntime::new()
        .start_empty(setting(scope(true), limits()))
        .owner;
    let delivered = publisher.publish(unit(ready_tool_unit()));
    owner.step(LoopInput::Received(Some(Ok(delivered))));
    match owner.step(LoopInput::Sent(false)) {
        LoopAction::Finish(end) => assert_eq!(end.kind, LoopEndKind::OutputFailed),
        _ => panic!("expected the end"),
    }
}

#[test]
fn too_many_actions_break_the_loop() {
    let (mut publisher, _) = SubscriptionPublisher::channel(16);
    let mut tight = limits();
    tight.max_tool_actions = 0;
    let mut owner = DefaultLoopRuntime::new().start_empty(setting(scope(true), tight)).owner;
    let (_, end) = drive(&mut owner, vec![publisher.publish(unit(ready_tool_unit()))]);
    assert_eq!(end.kind, LoopEndKind::InvariantFailed);
}

#[test]
fn a_dropped_loop_counts_as_broken() {
    assert_eq!(dropped_completion().kind, LoopEndKind::InvariantFailed);
}

#[test]
fn output_capacity_is_at_least_one() {
    let runtime = DefaultLoopRuntime::new();
    let started = runtime.start(StartLoop {
        setting: setting(scope(true), limits()),
        output_capacity: 0,
    });
    assert_eq!(started.output_bound, 1);
    assert_eq!(SubscriptionPublisher::channel(0).1, 1);
    assert_eq!(SubscriberId::new(String::from("prep")).as_str(), "prep");
}

#[test]
fn subscriber_ids_are_equal_as_their_texts_are() {
    let a = SubscriberId::new(String::from(" prep"));
    assert_eq!(a, SubscriberId::new(String::from(" prep")));
    assert_ne!(a, SubscriberId::new(String::from("prep")));
    assert_eq!(a.clone(), a);
    assert_eq!(a.as_str(), " prep");
}

#[test]
fn empty_registry_and_runtime_refuse() {
    let request = ResolveToolRequest {
        tool_action_id: String::from("a1"),
        tool_name: String::from("bash"),
        request_payload: String::from("{}"),
    };
    assert!(matches!(
        EmptyToolRegistry::new().resolve(&request),
        Ok(ToolResolution::Unavailable(ToolUnavailableReason::NoRegisteredTool))
    ));
    assert_eq!(ToolUnavailableReason::NoRegisteredTool.label(), "NoRegisteredTool");
    let start = StartToolExecution {
        execution_id: ToolExecutionId::generate(),
        tool_action_id: String::from("a1"),
        tool_name: String::from("bash"),
        request_payload: String::from("{}"),
        request_generation: 1,
    };
    assert!(NoToolRuntime::new().start(&start).is_err());
}

fn pass_setting(tx: TransactionId, exchange_id: ExchangeId) -> PassSetting {
    PassSetting {
        transaction_id: tx,
        session_key: session_key_for(String::from("llm"), None, tx),
        exchange_id,
    }
}

#[test]
fn supervised_empty_loop_ready_under_task_spawner() {
    let tx = TransactionId::generate();
    let exchange = ExchangeId::generate();
    let units = scope_tool_units_for_exchange(vec![ready_tool_unit()], exchange);
    let mut pass = LoopPass::new(pass_setting(tx, exchange), units.len());
    let (mut publisher, _) = SubscriptionPublisher::channel(16);
    let mut owner = DefaultLoopRuntime::new()
        .start_empty(setting(scope(true), limits()))
        .owner;
    let mut lifecycle_count = 0;
    let mut delivered = Vec::new();
    let mut units = units.into_iter();
    let mut action = pass.step(PassInput::Spawned(PassSpawn::Taken));
    while let PassAction::Feed(_) = action {
        delivered.push(publisher.publish(unit(units.next().unwrap())));
        action = pass.step(PassInput::Fed(Interruptible::Done));
    }
    if action == PassAction::CheckCancel {
        action = pass.step(PassInput::CancelState(false));
    }
    let (out, end) = drive(&mut owner, delivered);
    assert_eq!(action, PassAction::Read);
    for ev in out {
        match ev {
            LoopOutputEvent::ToolUnavailable { .. } => {
                pass.on_unavailable();
                action = pass.step(PassInput::OutputIgnored);
            }
            LoopOutputEvent::OutboundToolResult(r) => {
                if pass.on_result(&r, None).is_some() {
                    lifecycle_count += 1;
                    action = pass.step(PassInput::Published(Interruptible::Done));
                }
            }
            _ => action = pass.step(PassInput::OutputIgnored),
        }
        if action == PassAction::CheckCancel {
            action = pass.step(PassInput::CancelState(false));
        }
        assert_eq!(action, PassAction::Read);
    }
    assert_eq!(pass.step(PassInput::OutputEnded), PassAction::AwaitEnd);
    assert_eq!(
        pass.step(PassInput::Ended(Some(end.kind))),
        PassAction::Finish(PassResult::Reported)
    );
    let report = pass.report();
    assert_eq!(report.tools_unavailable, 1);
    assert_eq!(report.outbound_results, 1);
    assert_eq!(lifecycle_count, 1);
    assert_eq!(report.tool_results.len(), 1);
    assert_eq!(report.tool_results[0].provider_tool_call_id, "a1");
}

#[test]
fn supervised_empty_loop_cancel_before_waiter_is_cancelled() {
    let tx = TransactionId::generate();
    let exchange = ExchangeId::generate();
    let mut pass = LoopPass::new(pass_setting(tx, exchange), 1);
    assert_eq!(pass.step(PassInput::Spawned(PassSpawn::Taken)), PassAction::Feed(0));
    let mut action = pass.step(PassInput::Fed(Interruptible::Cancelled));
    if action == PassAction::CancelAndAwait {
        action = pass.step(PassInput::Ended(Some(LoopEndKind::Cancelled)));
    }
    let err = match action {
        PassAction::CancelAndFinish(e) => e,
        PassAction::Finish(PassResult::Failed(e)) => e,
        _ => panic!("pre-cancel must not succeed"),
    };
    assert_eq!(err, LoopDispatchError::Cancelled);
}

#[test]
fn a_pass_that_is_not_spawned_fails() {
    let tx = TransactionId { value: 1 };
    let mut pass = LoopPass::new(pass_setting(tx, ExchangeId { value: 1 }), 1);
    let action = pass.step(PassInput::Spawned(PassSpawn::Rejected { cancelled: false }));
    assert!(matches!(
        action,
        PassAction::Finish(PassResult::Failed(LoopDispatchError::StartFailed))
            | PassAction::CancelAndFinish(LoopDispatchError::StartFailed)
    ));
}

#[test]
fn scoping_gives_each_exchange_its_own_actions() {
    let e = ExchangeId { value: 9 };
    let units = scope_tool_units_for_exchange(vec![ready_tool_unit(), text_unit()], e);
    let action = match &units[0].snapshot().unit {
        CanonicalUnit::Tool(t) => t.tool_action_id.clone(),
        _ => panic!("expected a tool"),
    };
    assert_eq!(action, "00000000-0000-0000-0000-000000000009:a1");
    assert_eq!(provider_id_for_result(e, &action), "a1");
    assert_eq!(provider_id_for_result(e, &String::from("bare")), "bare");
    let again = scope_tool_units_for_exchange(units, e);
    match &again[0].snapshot().unit {
        CanonicalUnit::Tool(t) => assert_eq!(t.tool_action_id, action),
        _ => panic!("expected a tool"),
    }
}

#[test]
fn empty_pass_answers_each_ready_request_once() {
    let tx = TransactionId { value: 3 };
    let exchange = ExchangeId { value: 4 };
    let mut pass = EmptyToolPass::new(EmptyPassSetting {
        transaction_id: tx,
        session_key: SessionKey {
            channel_id: String::from("llm"),
            session_id: String::from("s"),
        },
        exchange_id: exchange,
    });
    let units = vec![
        text_unit(),
        tool_unit("tool-2", "a2", ToolRequestState::Assembling, None, 1),
        ready_tool_unit(),
        ready_tool_unit(),
    ];
    let at = pass.advance(&units).expect("a ready request");
    assert_eq!(at, 2);
    let result = pass.answer(&units[at], true).ok().unwrap();
    assert_eq!(result.transaction_id, tx);
    assert_eq!(result.exchange_id, exchange);
    assert!(matches!(result.outcome, CanonicalToolResultOutcome::DomainFailed(_)));
    let _event = ToolLifecycleEvent::Completed { result };
    assert!(pass.published(PublishOutcome::Published).is_ok());
    assert!(pass.advance(&units).is_none());
    let report = pass.report();
    assert_eq!(report.unavailable_published, 1);
    assert!(matches!(
        pass.published(PublishOutcome::Cancelled),
        Err(EmptyToolPassError::Cancelled)
    ));
    assert!(matches!(
        pass.published(PublishOutcome::Failed),
        Err(EmptyToolPassError::PublishFailed)
    ));
    let renamed = pass.answer(&units[2], false).ok().unwrap();
    assert_eq!(renamed.tool_id, "unavailable");
}

#[test]
fn an_outbound_result_without_a_decoded_one_is_a_failure() {
    let tx = TransactionId { value: 1 };
    let exchange = ExchangeId { value: 2 };
    let mut pass = LoopPass::new(pass_setting(tx, exchange), 0);
    let mut action = pass.step(PassInput::Spawned(PassSpawn::Taken));
    if action == PassAction::CheckCancel {
        action = pass.step(PassInput::CancelState(false));
    }
    assert_eq!(action, PassAction::Read);
    let outbound = OutboundToolResult {
        outbound_result_id: String::from("o1"),
        monoloop_run_id: String::from("r"),
        loop_id: String::from("l"),
        source_interpretation_id: String::from("i1"),
        source_connection_id: String::from("c1"),
        external_session_id: None,
        tool_action_id: String::from("a1"),
        request_generation: 1,
        tool_execution_id: None,
        outcome: OutboundToolOutcome::ToolUnavailable,
        payload: String::from("gone"),
        source_unit_id: String::from("tool-1"),
    };
    let result = pass.on_result(&outbound, None).unwrap();
    assert_eq!(result.request_ordinal, 0);
    assert!(matches!(result.outcome, CanonicalToolResultOutcome::DomainFailed(_)));
}

fn outbound(outcome: OutboundToolOutcome, payload: &str) -> OutboundToolResult {
    OutboundToolResult {
        outbound_result_id: String::from("o1"),
        monoloop_run_id: String::from("r"),
        loop_id: String::from("l"),
        source_interpretation_id: String::from("i1"),
        source_connection_id: String::from("c1"),
        external_session_id: None,
        tool_action_id: String::from("00000000-0000-0000-0000-000000000002:call"),
        request_generation: 1,
        tool_execution_id: None,
        outcome,
        payload: String::from(payload),
        source_unit_id: String::from("tool-1"),
    }
}

#[test]
fn outbound_results_become_tool_results() {
    let s = pass_setting(TransactionId { value: 1 }, ExchangeId { value: 2 });
    let json = result_for(&s, &outbound(OutboundToolOutcome::Success, "{ \"a\" : 1 }"), None, 4);
    assert_eq!(json.provider_tool_call_id, "call");
    assert_eq!(json.request_ordinal, 4);
    assert_eq!(json.tool_id, "completed");
    assert!(matches!(
        &json.outcome,
        CanonicalToolResultOutcome::Succeeded(CanonicalToolOutput::Json(t)) if t.as_str() == "{\"a\":1}"
    ));
    let plain = result_for(&s, &outbound(OutboundToolOutcome::Success, "done"), None, 0);
    assert!(matches!(
        &plain.outcome,
        CanonicalToolResultOutcome::Succeeded(CanonicalToolOutput::Text(t)) if t == "done"
    ));
    let read = result_for_parsed(
        &s,
        &outbound(OutboundToolOutcome::Success, "raw"),
        None,
        JsonText::parse(" 7 "),
        0,
    );
    assert!(matches!(
        &read.outcome,
        CanonicalToolResultOutcome::Succeeded(CanonicalToolOutput::Json(t)) if t.as_str() == "7"
    ));
    let long = "x".repeat(200);
    let failed = result_for(&s, &outbound(OutboundToolOutcome::ExecutionFailed, &long), None, 0);
    assert_eq!(failed.tool_id, "failed");
    match &failed.outcome {
        CanonicalToolResultOutcome::DomainFailed(e) => {
            assert_eq!(e.code, "tool_execution_failed");
            assert_eq!(e.message, "x".repeat(128));
        }
        _ => panic!("expected a failure"),
    }
    let wide = "\u{3042}".repeat(128);
    match result_for(&s, &outbound(OutboundToolOutcome::Cancelled, &wide), None, 0).outcome {
        CanonicalToolResultOutcome::DomainFailed(e) => assert_eq!(e.message, "failed"),
        _ => panic!("expected a failure"),
    }
    let mut given = json.clone();
    given.provider_tool_call_id = String::new();
    given.tool_id = String::from("t9");
    let kept = result_for(&s, &outbound(OutboundToolOutcome::Success, "x"), Some(given), 1);
    assert_eq!(kept.tool_id, "t9");
    assert_eq!(kept.provider_tool_call_id, "call");
    assert_eq!(kept.request_ordinal, 1);
}
