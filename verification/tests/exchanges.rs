use monoloop_loop::json::JsonText;
use monoloop_loop::contracts::{
    CanonicalUnit, CanonicalUnitEvent, CanonicalUnitSnapshot, InterpretationEndKind, TextChannel,
    TextUnit, ToolRequestState, ToolUnit,
};
use monoloop_loop::identity::{ExchangeId, TransactionId};
use monoloop_loop::messages::{estimate_messages_bytes, CanonicalMessage, TextPart};
use monoloop_loop::transaction::exchange::{
    add_unit_bytes, estimate_unit_bytes, join_grace, map_exchange_failure, pump_step,
    reconcile_terminals, ConnectionEndKind, EncodedFacts, ExchangeAction, ExchangeCleanup,
    ExchangeFailure, ExchangeInput, ExchangeRun, PumpAction, PumpInput, UnitCollector,
};
use monoloop_loop::transaction::lifecycle::coordinator::{
    estimate_continuation_messages_bytes, max_retained_bytes,
};
use monoloop_loop::transaction::lifecycle::exchange::{
    direct_outcome, estimate_retained_unit_bytes, ChildSpawn, OpenOutcome, PromptProceedError,
    RetainedUnits, SupervisedAction, SupervisedExchange, SupervisedFailure, SupervisedInput,
    SupervisedLimits,
};
use monoloop_loop::transaction::lifecycle::exchange_direct::run_direct_llm_exchange;
use monoloop_loop::transaction::transcript::{
    append_exchange_to_transcript, append_parsed_exchange, append_parsed_round, append_tool_round,
    collect_ready_tools, parse_payloads,
};
use monoloop_loop::transaction::types::{
    CanonicalToolError, CanonicalToolOutput, CanonicalToolResult, CanonicalToolResultOutcome,
    SessionKey, TransactionEndKind,
};

fn snapshot(unit: CanonicalUnit) -> CanonicalUnitEvent {
    CanonicalUnitEvent::Completed(CanonicalUnitSnapshot {
        interpretation_id: String::from("i1"),
        connection_id: String::from("c1"),
        external_session_id: None,
        unit_id: String::from("u1"),
        flow_id: String::from("main"),
        lane_id: String::from("lane"),
        lane_ordinal: 1,
        unit_generation: 1,
        unit,
    })
}

fn text(content: &str) -> CanonicalUnitEvent {
    snapshot(CanonicalUnit::Text(TextUnit {
        channel: TextChannel::PublicResponse,
        content: String::from(content),
    }))
}

fn tool(action: &str, payload: Option<&str>, state: ToolRequestState) -> CanonicalUnitEvent {
    snapshot(CanonicalUnit::Tool(ToolUnit {
        tool_action_id: String::from(action),
        tool_name: Some(String::from("bash")),
        request_state: state,
        request_payload: payload.map(String::from),
        result_payload: None,
    }))
}

fn result(action: &str, provider: &str, outcome: CanonicalToolResultOutcome) -> CanonicalToolResult {
    CanonicalToolResult {
        transaction_id: TransactionId { value: 1 },
        session_key: SessionKey {
            channel_id: String::from("llm"),
            session_id: String::from("s"),
        },
        exchange_id: ExchangeId { value: 2 },
        tool_action_id: String::from(action),
        tool_id: String::from("t"),
        provider_tool_call_id: String::from(provider),
        request_ordinal: 0,
        outcome,
    }
}

fn succeeded(text: &str) -> CanonicalToolResultOutcome {
    CanonicalToolResultOutcome::Succeeded(CanonicalToolOutput::Text(String::from(text)))
}

#[test]
fn success_needs_both_ends() {
    assert_eq!(
        reconcile_terminals(ConnectionEndKind::RemoteEof, InterpretationEndKind::Complete),
        None
    );
    assert_eq!(
        reconcile_terminals(ConnectionEndKind::Terminated, InterpretationEndKind::Complete),
        Some(ExchangeFailure::Terminated)
    );
    assert_eq!(
        reconcile_terminals(ConnectionEndKind::LocalShutdown, InterpretationEndKind::DialectFailed),
        Some(ExchangeFailure::InterpretationFailed)
    );
    assert_eq!(
        map_exchange_failure(ExchangeFailure::ClaimDeadlineExceeded),
        TransactionEndKind::DeadlineExceeded
    );
    assert_eq!(pump_step(PumpInput::Terminated), PumpAction::Cancel);
    assert_eq!(pump_step(PumpInput::Eof), PumpAction::FinishClean);
}

#[test]
fn an_exchange_runs_to_its_end() {
    let mut run = ExchangeRun::new(10);
    let body = EncodedFacts { bytes: 10, finish: true };
    assert_eq!(run.step(ExchangeInput::Encoded(Some(body))), ExchangeAction::Open);
    assert_eq!(run.step(ExchangeInput::Opened(true)), ExchangeAction::StartInterpreter);
    assert_eq!(run.step(ExchangeInput::InterpreterStarted(true)), ExchangeAction::StartPump);
    assert_eq!(run.step(ExchangeInput::PumpStarted), ExchangeAction::SendBody);
    assert_eq!(run.step(ExchangeInput::BodySent(true)), ExchangeAction::FinishInput);
    assert_eq!(run.step(ExchangeInput::InputFinished(true)), ExchangeAction::StartCollector);
    assert_eq!(run.step(ExchangeInput::CollectorStarted(true)), ExchangeAction::AwaitEnds);
    assert_eq!(
        run.step(ExchangeInput::Ended(
            ConnectionEndKind::RemoteEof,
            InterpretationEndKind::Complete
        )),
        ExchangeAction::JoinChildren
    );
    assert_eq!(
        run.step(ExchangeInput::Joined { exceeded: false }),
        ExchangeAction::Finish(None)
    );
}

#[test]
fn an_exchange_over_its_bound_is_not_opened() {
    let mut run = ExchangeRun::new(10);
    let body = EncodedFacts { bytes: 11, finish: true };
    assert!(matches!(
        run.step(ExchangeInput::Encoded(Some(body))),
        ExchangeAction::Fail(_, _)
    ));
    let mut run = ExchangeRun::new(10);
    assert!(matches!(
        run.step(ExchangeInput::Encoded(None)),
        ExchangeAction::Fail(ExchangeFailure::EncodingFailed, _)
    ));
}

#[test]
fn a_failed_exchange_is_cleaned_up() {
    let body = EncodedFacts { bytes: 1, finish: false };
    let mut run = ExchangeRun::new(10);
    run.step(ExchangeInput::Encoded(Some(body)));
    assert_eq!(
        run.step(ExchangeInput::Opened(false)),
        ExchangeAction::Fail(ExchangeFailure::ChannelOpenFailed, ExchangeCleanup::TerminateOpen)
    );
    let mut run = ExchangeRun::new(10);
    run.step(ExchangeInput::Encoded(Some(body)));
    run.step(ExchangeInput::Opened(true));
    run.step(ExchangeInput::InterpreterStarted(true));
    run.step(ExchangeInput::PumpStarted);
    assert_eq!(
        run.step(ExchangeInput::BodySent(false)),
        ExchangeAction::Fail(ExchangeFailure::ConnectorFailed, ExchangeCleanup::AbortPump)
    );
    let mut run = ExchangeRun::new(10);
    run.step(ExchangeInput::Encoded(Some(body)));
    run.step(ExchangeInput::Opened(true));
    run.step(ExchangeInput::InterpreterStarted(true));
    run.step(ExchangeInput::PumpStarted);
    run.step(ExchangeInput::BodySent(true));
    run.step(ExchangeInput::CollectorStarted(true));
    assert_eq!(
        run.step(ExchangeInput::DeadlineExpired),
        ExchangeAction::Fail(ExchangeFailure::ConnectorFailed, ExchangeCleanup::TerminateAll)
    );
}

#[test]
fn an_exchange_stays_within_what_may_be_sent() {
    let body = EncodedFacts { bytes: 6, finish: true };
    let mut run = ExchangeRun::within(10, 5, false);
    assert_eq!(
        run.step(ExchangeInput::Encoded(Some(body))),
        ExchangeAction::Fail(ExchangeFailure::LimitExceeded, ExchangeCleanup::Nothing)
    );
    let mut run = ExchangeRun::within(5, 5, false);
    assert_eq!(
        run.step(ExchangeInput::Encoded(Some(body))),
        ExchangeAction::Fail(ExchangeFailure::EncodingFailed, ExchangeCleanup::Nothing)
    );
    let mut run = ExchangeRun::within(10, 6, false);
    assert_eq!(run.step(ExchangeInput::Encoded(Some(body))), ExchangeAction::Open);
}

fn at_the_barrier() -> ExchangeRun {
    let mut run = ExchangeRun::within(10, 10, true);
    run.step(ExchangeInput::Encoded(Some(EncodedFacts { bytes: 1, finish: true })));
    run.step(ExchangeInput::Opened(true));
    run.step(ExchangeInput::InterpreterStarted(true));
    assert_eq!(run.step(ExchangeInput::PumpStarted), ExchangeAction::AwaitGate);
    run
}

#[test]
fn the_prompt_of_an_actor_waits_for_its_barrier() {
    assert_eq!(at_the_barrier().step(ExchangeInput::GateOpened), ExchangeAction::SendBody);
    assert_eq!(
        at_the_barrier().step(ExchangeInput::GateFailed),
        ExchangeAction::Fail(ExchangeFailure::InvariantFailed, ExchangeCleanup::TerminatePump)
    );
    assert_eq!(
        at_the_barrier().step(ExchangeInput::GateTimedOut),
        ExchangeAction::Fail(
            ExchangeFailure::ClaimDeadlineExceeded,
            ExchangeCleanup::TerminatePump
        )
    );
}

#[test]
fn a_cancelled_exchange_is_stopped_in_every_phase() {
    let stop = |mut run: ExchangeRun| match run.step(ExchangeInput::Cancelled) {
        ExchangeAction::Fail(ExchangeFailure::Cancelled, todo) => Some(todo),
        _ => None,
    };
    let mut run = ExchangeRun::new(10);
    assert_eq!(stop(run), Some(ExchangeCleanup::Nothing));
    run.step(ExchangeInput::Encoded(Some(EncodedFacts { bytes: 1, finish: false })));
    assert_eq!(stop(run), Some(ExchangeCleanup::TerminateOpen));
    run.step(ExchangeInput::Opened(true));
    assert_eq!(stop(run), Some(ExchangeCleanup::TerminatePump));
    run.step(ExchangeInput::InterpreterStarted(true));
    run.step(ExchangeInput::PumpStarted);
    assert_eq!(stop(run), Some(ExchangeCleanup::TerminatePump));
    assert_eq!(stop(at_the_barrier()), Some(ExchangeCleanup::TerminatePump));
    run.step(ExchangeInput::BodySent(true));
    run.step(ExchangeInput::CollectorStarted(true));
    assert_eq!(stop(run), Some(ExchangeCleanup::TerminateAll));
    run.step(ExchangeInput::Ended(
        ConnectionEndKind::RemoteEof,
        InterpretationEndKind::Complete,
    ));
    assert_eq!(stop(run), Some(ExchangeCleanup::TerminateAll));
    run.step(ExchangeInput::Joined { exceeded: false });
    assert_eq!(stop(run), None);
}

#[test]
fn a_collector_is_bounded_in_bytes() {
    let mut collector: UnitCollector<u8> = UnitCollector::within(5);
    assert!(collector.on_sized_unit(1, 3, None));
    assert!(!collector.on_sized_unit(2, 9, Some(false)));
    assert!(!collector.exceeded);
    assert!(collector.on_sized_unit(3, 2, Some(true)));
    assert!(!collector.on_sized_unit(4, 1, None));
    assert!(collector.exceeded);
    assert_eq!(collector.units, vec![1, 3]);
}

#[test]
fn a_lost_forward_stops_the_collector() {
    let mut collector: UnitCollector<u8> = UnitCollector::new();
    assert!(collector.on_unit(1, None));
    assert!(collector.on_unit(2, Some(true)));
    assert!(!collector.on_unit(3, Some(false)));
    assert_eq!(collector.units, vec![1, 2]);
    assert!(!collector.exceeded);
}

#[test]
fn sizes_of_units() {
    assert_eq!(estimate_unit_bytes(&text("hello")), 2 + 2 + 2 + 4 + 4 + 5 + 64);
    assert_eq!(estimate_unit_bytes(&snapshot(CanonicalUnit::Usage)), 14 + 32 + 64);
    assert_eq!(
        estimate_unit_bytes(&snapshot(CanonicalUnit::Diagnostic(String::from("bad")))),
        14 + 3 + 16 + 64
    );
    assert_eq!(
        estimate_unit_bytes(&tool("a1", Some("{}"), ToolRequestState::Ready)),
        14 + 4 + 2 + 2 + 64
    );
    assert_eq!(add_unit_bytes(1, &vec![text("a"), text("b")]), 1 + 79 + 79);
    assert_eq!(estimate_retained_unit_bytes(&text("hello")), 133);
    assert_eq!(estimate_retained_unit_bytes(&snapshot(CanonicalUnit::Boundary)), 160);
    assert_eq!(max_retained_bytes(1), 65536);
    assert_eq!(max_retained_bytes(70000), 70000);
    assert!(join_grace(0) <= join_grace(1_000_000_000_000));
}

#[test]
fn retained_units_are_bounded() {
    let mut kept = RetainedUnits::new(300);
    assert!(kept.on_unit(text("hello")));
    assert!(kept.on_unit(text("hello")));
    assert!(!kept.on_unit(text("hello")));
    assert_eq!(kept.units.len(), 2);
    assert_eq!(kept.retained_bytes, 266);
}

fn gated() -> SupervisedExchange {
    SupervisedExchange::new(SupervisedLimits {
        max_encoded_bytes: 100,
        max_remaining_input_bytes: 50,
        gated: true,
    })
}

#[test]
fn the_prompt_waits_until_the_session_is_claimed() {
    let mut run = gated();
    let body = EncodedFacts { bytes: 20, finish: false };
    assert_eq!(run.step(SupervisedInput::Encoded(Some(body))), SupervisedAction::Open);
    assert_eq!(
        run.step(SupervisedInput::Opened(OpenOutcome::Opened { owner_work: true })),
        SupervisedAction::SpawnOwner
    );
    assert_eq!(
        run.step(SupervisedInput::Spawned(ChildSpawn::Taken)),
        SupervisedAction::StartInterpreter
    );
    assert_eq!(
        run.step(SupervisedInput::InterpreterStarted(true)),
        SupervisedAction::SpawnPump
    );
    assert_eq!(
        run.step(SupervisedInput::Spawned(ChildSpawn::Taken)),
        SupervisedAction::TellSession
    );
    assert_eq!(run.step(SupervisedInput::SessionTold(true)), SupervisedAction::AwaitProceed);
    assert_eq!(run.step(SupervisedInput::Proceed(Ok(()))), SupervisedAction::SendBody);
}

#[test]
fn a_session_too_many_exceeds_a_limit() {
    let mut run = gated();
    let body = EncodedFacts { bytes: 20, finish: false };
    run.step(SupervisedInput::Encoded(Some(body)));
    run.step(SupervisedInput::Opened(OpenOutcome::Opened { owner_work: true }));
    run.step(SupervisedInput::Spawned(ChildSpawn::Taken));
    run.step(SupervisedInput::InterpreterStarted(true));
    run.step(SupervisedInput::Spawned(ChildSpawn::Taken));
    run.step(SupervisedInput::SessionTold(true));
    match run.step(SupervisedInput::Proceed(Err(PromptProceedError::DistinctSessionsExceeded))) {
        SupervisedAction::Fail(failure, cleanup) => {
            assert_eq!(failure.to_terminal(), TransactionEndKind::LimitExceeded);
            assert!(cleanup.terminate);
        }
        _ => panic!("expected a failure"),
    }
}

#[test]
fn a_body_beyond_the_budget_is_not_sent() {
    let mut run = gated();
    let body = EncodedFacts { bytes: 51, finish: false };
    match run.step(SupervisedInput::Encoded(Some(body))) {
        SupervisedAction::Fail(failure, cleanup) => {
            assert_eq!(failure, SupervisedFailure::LimitExceeded);
            assert!(!cleanup.terminate);
        }
        _ => panic!("expected a failure"),
    }
}

#[test]
fn a_failed_exchange_keeps_nothing() {
    let kept = direct_outcome(None, vec![1u8], ExchangeId { value: 1 }, Some(String::from("x")));
    assert_eq!(kept.terminal, TransactionEndKind::Completed);
    assert_eq!(kept.units, vec![1]);
    let lost = direct_outcome(
        Some(SupervisedFailure::SpawnFailed),
        vec![1u8],
        ExchangeId { value: 1 },
        Some(String::from("x")),
    );
    assert_eq!(lost.terminal, TransactionEndKind::InvariantFailed);
    assert_eq!(lost.units.len(), 0);
    assert!(lost.external_session_id.is_none());
}

#[test]
fn synthetic_exchange() {
    let cancelled = run_direct_llm_exchange(true, String::from("main"), String::from("response"));
    assert_eq!(cancelled.terminal, TransactionEndKind::Cancelled);
    assert_eq!(cancelled.units.len(), 0);
    let done = run_direct_llm_exchange(false, String::from("main"), String::from("response"));
    assert_eq!(done.terminal, TransactionEndKind::Completed);
    match &done.units[0].snapshot().unit {
        CanonicalUnit::Text(t) => assert_eq!(t.content, "ok."),
        _ => panic!("expected text"),
    }
    assert_eq!(done.units[0].snapshot().unit_id.len(), 36);
}

#[test]
fn ready_tools_are_collected_with_their_own_actions() {
    let units = vec![
        text("x"),
        tool("call_1", Some("{}"), ToolRequestState::Ready),
        tool("call_2", None, ToolRequestState::Ready),
        tool("call_3", Some("{}"), ToolRequestState::Assembling),
    ];
    let ready = collect_ready_tools(ExchangeId { value: 1 }, &units);
    assert_eq!(ready.len(), 1);
    assert_eq!(ready[0].provider_id, "call_1");
    assert_eq!(ready[0].action_id, "00000000-0000-0000-0000-000000000001:call_1");
    assert_eq!(ready[0].name, "bash");
}

fn parts(message: &CanonicalMessage) -> Vec<String> {
    message.content().iter().map(|p| String::from(p.text())).collect()
}

#[test]
fn a_tool_round_is_appended() {
    let mut messages = vec![];
    let units = vec![tool("a1", Some("{ \"cmd\" : \"ls\" }"), ToolRequestState::Ready)];
    let results = vec![
        result("a1", "call_1", succeeded("out")),
        result(
            "a2",
            "call_2",
            CanonicalToolResultOutcome::DomainFailed(CanonicalToolError {
                code: String::from("e\"1"),
                message: String::from("no"),
                data: JsonText::parse("[1, 2]"),
            }),
        ),
    ];
    assert!(append_tool_round(&mut messages, &units, &results, &vec![true], 4096));
    assert_eq!(messages.len(), 3);
    match &messages[0] {
        CanonicalMessage::Assistant { content, tool_calls } => {
            assert_eq!(content.len(), 0);
            assert_eq!(tool_calls[0].tool_call_id, "call_1");
            assert_eq!(tool_calls[0].arguments.as_str(), "{\"cmd\":\"ls\"}");
        }
        _ => panic!("expected an assistant message"),
    }
    assert_eq!(parts(&messages[1]), vec!["out"]);
    let error: serde_json::Value = serde_json::from_str(&parts(&messages[2])[0]).unwrap();
    let error = error.get("error").unwrap();
    assert_eq!(error.get("code").and_then(|c| c.as_str()), Some("e\"1"));
    assert_eq!(error.get("message").and_then(|c| c.as_str()), Some("no"));
    assert_eq!(error.get("data").unwrap().to_string(), "[1,2]");
}

#[test]
fn a_round_that_cannot_be_encoded_is_refused() {
    let results = vec![result("a1", "call_1", succeeded("out"))];
    let broken = vec![tool("a1", Some("{"), ToolRequestState::Ready)];
    assert!(!append_tool_round(&mut vec![], &broken, &results, &vec![true], 4096));
    let none = vec![text("x")];
    assert!(!append_tool_round(&mut vec![], &none, &results, &vec![true], 4096));
    let ready = vec![tool("a1", Some("{}"), ToolRequestState::Ready)];
    assert!(!append_tool_round(&mut vec![], &ready, &results, &vec![false], 4096));
    assert!(!append_tool_round(&mut vec![], &ready, &results, &vec![true], 2));
}

#[test]
fn an_exchange_is_appended_to_the_transcript() {
    let mut messages = vec![];
    let units = vec![
        text("  I will look."),
        tool("call_1", Some("not json"), ToolRequestState::Ready),
    ];
    let results = vec![result("a1", "call_1", succeeded(""))];
    assert!(append_exchange_to_transcript(&mut messages, &units, &results, &vec![true, true]));
    match &messages[0] {
        CanonicalMessage::Assistant { content, tool_calls } => {
            assert_eq!(content[0].text(), "I will look.");
            assert_eq!(tool_calls[0].arguments.as_str(), "{}");
            assert_eq!(tool_calls[0].tool_call_id, "call_1");
        }
        _ => panic!("expected an assistant message"),
    }
    assert_eq!(parts(&messages[1]), vec!["ok"]);
    assert!(!append_exchange_to_transcript(&mut vec![], &vec![], &vec![], &vec![]));
}

#[test]
fn transcripts_are_measured_in_bytes() {
    let messages = vec![
        CanonicalMessage::User {
            content: vec![TextPart::try_new("grüß", 16).unwrap()],
            name: Some(String::from("me")),
        },
        CanonicalMessage::Tool {
            tool_call_id: String::from("call"),
            content: vec![TextPart::try_new("ok", 16).unwrap()],
        },
    ];
    assert_eq!(estimate_messages_bytes(&messages), 6 + 2 + 4 + 2);
    assert_eq!(estimate_continuation_messages_bytes(&messages), 14);
    assert!(TextPart::try_new("", 16).is_none());
    assert!(TextPart::try_new("grüß", 5).is_none());
}

#[test]
fn payloads_are_read_as_compact_json() {
    let units = vec![
        tool("a1", Some("{ \"b\" : [1, 2.50, \"x\"] }"), ToolRequestState::Ready),
        tool("a2", Some("{"), ToolRequestState::Ready),
        tool("a3", None, ToolRequestState::Ready),
        text("x"),
    ];
    assert_eq!(
        parse_payloads(&units),
        vec![JsonText::parse("{\"b\":[1,2.5,\"x\"]}"), None, None, None]
    );
}

#[test]
fn rounds_whose_payloads_were_read() {
    let units = vec![tool("a1", Some("?"), ToolRequestState::Ready)];
    let results = vec![result("a1", "call_1", succeeded("out"))];
    let read = vec![JsonText::parse("{ \"k\" : 1 }")];
    let mut messages = vec![];
    assert!(append_parsed_round(&mut messages, &units, &results, &vec![true], &read, 16));
    match &messages[0] {
        CanonicalMessage::Assistant { tool_calls, .. } => {
            assert_eq!(tool_calls[0].arguments.as_str(), "{\"k\":1}");
            assert_eq!(tool_calls[0].tool_call_id, "call_1");
        }
        _ => panic!("expected an assistant message"),
    }
    assert!(!append_parsed_round(&mut messages, &units, &results, &vec![true], &vec![None], 16));
    assert_eq!(messages.len(), 2);
    let mut lenient = vec![];
    assert!(append_parsed_exchange(&mut lenient, &units, &results, &vec![true], &vec![None]));
    match &lenient[0] {
        CanonicalMessage::Assistant { tool_calls, .. } => {
            assert_eq!(tool_calls[0].arguments.as_str(), "{}");
            assert_eq!(tool_calls[0].tool_call_id, "a1");
        }
        _ => panic!("expected an assistant message"),
    }
}
