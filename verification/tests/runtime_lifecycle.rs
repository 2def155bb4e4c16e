use monoloop_loop::contracts::{
    CanonicalUnit, CanonicalUnitEvent, CanonicalUnitSnapshot, TextChannel, TextUnit,
};
use monoloop_loop::identity::{ExchangeId, TransactionId};
use monoloop_loop::messages::{CanonicalMessage, TextPart};
use monoloop_loop::transaction::bootstrap::{RuntimeConfig, StoppedGate};
use monoloop_loop::transaction::channel_registry::{
    ChannelBinding, ChannelCapabilities, ChannelKind, ChannelRegistry, ContinuationPolicies,
    ContinuationPolicy, McpConfigurationCapability, McpReachability, ToolExecutionMode,
};
use monoloop_loop::transaction::error::StartupError;
use monoloop_loop::transaction::fake_support::TestTextEncoder;
use monoloop_loop::transaction::host_tools::HostToolRegistry;
use monoloop_loop::transaction::lifecycle::admission::{
    start_queue_answered, AdmissionErrorKind, AdmissionReceipt, AdmissionError,
    TransactionSubmitRequest,
};
use monoloop_loop::transaction::lifecycle::capacity::{ReservationPool, ReservationPoolError};
use monoloop_loop::transaction::lifecycle::coordinator::{
    park_proposal, provider_usage_after_exchange, Coordinator, CoordinatorAction,
    CoordinatorInput, CoordinatorSetting, ExchangeReport,
};
use monoloop_loop::transaction::lifecycle::event_publisher::{
    EventPublisher, EventPublisherCommand, PublisherAction, PublisherInput,
    TerminalPublicationResult,
};
use monoloop_loop::transaction::lifecycle::exchange::direct_outcome;
use monoloop_loop::transaction::lifecycle::exchange_direct::run_direct_llm_exchange;
use monoloop_loop::transaction::lifecycle::finalizer::{
    begin_finalization, complete, count_completion, seal_body, seal_wait_budget,
    settle_after_seal, CompletionPublishResult, SealOutcome,
};
use monoloop_loop::transaction::lifecycle::loop_dispatch::Interruptible;
use monoloop_loop::transaction::lifecycle::owner::{
    executor_answered, open_admission, remaining_budget, termination_sent, wait_begin,
    ChannelFacts, ControlSend, RuntimeOwner, ShutdownWaitOutcome, StartBuilder, StartSizes,
    TerminationDisposition, TerminationMode, TransactionSelector,
};
use monoloop_loop::transaction::lifecycle::shared::RuntimeState;
use monoloop_loop::transaction::lifecycle::supervisor::{ControlCommand, Effects, StartedWork};
use monoloop_loop::transaction::lifecycle::supervisor_loop::{
    wait_until_drain_complete, DrainWait, StopVerdict, SupervisorLoop,
};
use monoloop_loop::transaction::lifecycle::task_supervisor::{
    TaskClass, TaskExit, TaskId, TaskSupervisor,
};
use monoloop_loop::transaction::lifecycle::terminal::TerminalProposal;
use monoloop_loop::transaction::limits::{ChannelLimits, LimitsError, TransactionLimits};
use monoloop_loop::transaction::types::{
    SessionKey, TerminalEventDelivery, TransactionEndKind, TransactionEventPayload,
};

const MILLI: u128 = 1_000_000;
const SECOND: u128 = 1_000_000_000;

fn limits(max_active: usize, channel_max: usize) -> TransactionLimits {
    TransactionLimits {
        max_active_transactions: max_active,
        max_active_per_channel: if channel_max < max_active { channel_max } else { max_active },
        max_actor_commands: 16,
        max_messages: 64,
        max_content_parts: 16,
        max_text_part_bytes: 4096,
        max_input_bytes: 65536,
        max_tools_per_transaction: 8,
        max_tool_schema_bytes: 4096,
        max_tool_payload_bytes: 4096,
        max_tool_output_bytes: 4096,
        max_concurrent_tools: 4,
        max_queued_tools: 4,
        max_concurrent_tools_per_transaction: 2,
        max_queued_tools_per_transaction: 2,
        max_continuations: 4,
        max_continuation_context_bytes: 65536,
        max_provider_exchanges: 4,
        max_total_provider_input_bytes: 65536,
        max_total_provider_output_bytes: 65536,
        max_event_queue: 32,
        max_event_queue_bytes: 65536,
        max_diagnostic_count: 8,
        max_diagnostic_bytes: 256,
        transaction_deadline: 2 * SECOND,
        cleanup_deadline: 500 * MILLI,
        terminal_event_delivery_deadline: SECOND,
        callback_deadline: SECOND,
    }
}

fn llm_binding(id: &str, channel_max: usize) -> ChannelBinding {
    ChannelBinding {
        id: String::from(id),
        kind: ChannelKind::DirectLlm,
        tool_mode: ToolExecutionMode::ModelToolCalls,
        capabilities: ChannelCapabilities {
            mcp_configuration: McpConfigurationCapability::Unsupported,
            mcp_reachability: McpReachability::Unreachable,
            continuation_policies: ContinuationPolicies {
                caller_controlled: true,
                inline_tool_continuation: false,
            },
        },
        limits: ChannelLimits {
            max_active_transactions: channel_max,
            max_distinct_sessions: 64,
            max_encoded_exchange_bytes: 65536,
        },
    }
}

/// A driver for the runtime that runs every task by hand.
struct Harness {
    owner: RuntimeOwner,
    tasks: TaskSupervisor,
    supervisor: SupervisorLoop,
    work: Vec<StartedWork>,
    kinds: Vec<(TransactionId, TransactionEndKind)>,
    starts: Vec<TransactionId>,
    start_capacity: usize,
}

fn facts() -> ChannelFacts {
    ChannelFacts { capability_fault: None, build_error: None, has_sessions: false }
}

fn start_runtime(max_active: usize, channel_max: usize) -> Harness {
    start_runtime_with_mcp(max_active, channel_max, false)
}

fn start_runtime_with_mcp(max_active: usize, channel_max: usize, mcp: bool) -> Harness {
    let mut config = RuntimeConfig::with_limits(limits(max_active, channel_max));
    config.enable_mcp_listener = mcp;
    let binding = llm_binding("llm", channel_max);
    let tools = HostToolRegistry::empty();
    let mut builder = StartBuilder::begin(&config, Ok(()), &tools).ok().expect("config");
    assert!(builder.add_channel(&config, &binding, facts()).is_ok());
    let (shared, sizes): (_, StartSizes) = builder.finish(&config, 16).ok().expect("start");
    let mut owner = RuntimeOwner {
        shared,
        channels: ChannelRegistry::build(vec![binding], &vec![None]).ok().unwrap(),
        tools,
        max_tools: sizes.max_tools,
        limits: config.transaction_limits,
    };
    let mut tasks = TaskSupervisor::new();
    if mcp {
        tasks.spawn(TaskClass::RuntimeService);
    }
    open_admission(&mut owner.shared);
    Harness {
        owner,
        tasks,
        supervisor: SupervisorLoop::new(),
        work: Vec::new(),
        kinds: Vec::new(),
        starts: Vec::new(),
        start_capacity: sizes.start,
    }
}

impl Harness {
    fn submit(&mut self, session: Option<&str>) -> Result<AdmissionReceipt, AdmissionError> {
        let request = TransactionSubmitRequest {
            channel_id: String::from("llm"),
            session_id: session.map(String::from),
            messages: vec![CanonicalMessage::User {
                content: vec![TextPart::try_new("hi", 4096).unwrap()],
                name: None,
            }],
            tools: vec![],
        };
        let receipt = self.owner.submit(&request, Some(2))?;
        let taken = self.starts.len() < self.start_capacity;
        if taken {
            self.starts.push(receipt.transaction_id);
        }
        start_queue_answered(&mut self.owner.shared, receipt, taken)
    }

    /// The supervisor takes what waits in the start queue.
    fn run_starts(&mut self) {
        let starts = std::mem::take(&mut self.starts);
        for tx in starts {
            let mut fx = Effects::new();
            self.supervisor.on_start(&mut self.owner.shared, &mut self.tasks, &mut fx, tx);
            self.perform(fx);
        }
    }

    /// Runs what the supervisor asks for until nothing is left.
    fn perform(&mut self, fx: Effects) {
        let mut pending = vec![fx];
        while let Some(fx) = pending.pop() {
            self.work.extend(fx.started);
            for id in fx.aborts {
                pending.push(self.join(id, TaskExit::Cancelled));
            }
            for start in fx.finalizers {
                let tx = start.transaction_id;
                let plan = begin_finalization(&mut self.owner.shared, tx).expect("row");
                let body = seal_body(tx, &plan);
                assert_eq!(body.kind, plan.kind);
                let outcome = if start.seal {
                    SealOutcome::Replied(TerminalPublicationResult {
                        delivery: TerminalEventDelivery::Published,
                        last_sequence: 1,
                    })
                } else {
                    SealOutcome::NoSeal
                };
                let publishes = plan.completion;
                let sealed = settle_after_seal(&mut self.owner.shared, tx, plan.kind, outcome);
                let completion = complete(&mut self.owner.shared, tx, plan, sealed, 0, 0);
                let result = if publishes { Some(CompletionPublishResult::Published) } else { None };
                count_completion(&mut self.owner.shared, result);
                self.kinds.push((tx, completion.end.kind));
                pending.push(self.join(start.task, TaskExit::Completed));
            }
        }
        self.supervisor.note_tasks(&mut self.owner.shared, &self.tasks);
    }

    fn join(&mut self, id: TaskId, exit: TaskExit) -> Effects {
        let mut fx = Effects::new();
        if let Some((_, class, exit)) = self.tasks.join_next(id, exit) {
            self.supervisor.on_joined(
                &mut self.owner.shared,
                &mut self.tasks,
                &mut fx,
                class,
                exit,
            );
        }
        fx
    }

    fn worker_exits(&mut self, tx: TransactionId, kind: TransactionEndKind) {
        let proposal = TerminalProposal { kind };
        park_proposal(&mut self.owner.shared, tx, proposal);
        let mut fx = Effects::new();
        self.supervisor.on_worker_exited(
            &mut self.owner.shared,
            &mut self.tasks,
            &mut fx,
            tx,
            proposal,
        );
        self.perform(fx);
        for id in self.tasks.tasks_for(&tx) {
            let fx = self.join(id, TaskExit::Completed);
            self.perform(fx);
        }
    }

    fn control(&mut self, command: ControlCommand) {
        let mut fx = Effects::new();
        self.supervisor.on_control(
            &mut self.owner.shared,
            &mut self.tasks,
            &mut fx,
            Some(command),
        );
        self.perform(fx);
    }

    /// Laps of the supervisor until it may stop.
    fn drain(&mut self, gate: Option<&StoppedGate>) -> bool {
        let mut now: u128 = 0;
        for _ in 0..16 {
            let mut fx = Effects::new();
            self.supervisor.observe_quiescing(
                &mut self.owner.shared,
                &mut self.tasks,
                &mut fx,
                now,
            );
            self.perform(fx);
            let mut fx = Effects::new();
            self.supervisor.wind_down(
                &mut self.owner.shared,
                &mut self.tasks,
                &mut fx,
                now,
                500 * MILLI,
            );
            self.perform(fx);
            let verdict =
                self.supervisor.stop_verdict(&self.owner.shared, &self.tasks, true, true);
            match verdict {
                StopVerdict::Stop => {
                    if let Some(g) = gate {
                        if !g.is_released() {
                            return false;
                        }
                    }
                    self.supervisor.note_drained(&mut self.owner.shared);
                    self.supervisor.publish_drained(&mut self.owner.shared);
                    return true;
                }
                StopVerdict::Drain => {
                    for id in self.tasks.abort_all() {
                        let fx = self.join(id, TaskExit::Cancelled);
                        self.perform(fx);
                    }
                }
                StopVerdict::Run => {
                    for tx in self.owner.shared.ledger.transaction_ids() {
                        for id in self.tasks.tasks_for(&tx) {
                            let fx = self.join(id, TaskExit::Cancelled);
                            self.perform(fx);
                        }
                    }
                }
            }
            now += SECOND;
        }
        false
    }

    fn wait_stopped(&mut self) -> ShutdownWaitOutcome {
        if let Some(outcome) = wait_begin(&mut self.owner.shared, false) {
            return outcome;
        }
        let drained = self.drain(None);
        let snapshot = self.owner.shared.snapshot(0, 0, 0);
        assert_eq!(
            wait_until_drain_complete(&self.owner.shared, 0, SECOND, snapshot),
            if drained { DrainWait::Complete } else { DrainWait::Poll { nudge: true } }
        );
        executor_answered(&mut self.owner.shared, drained, snapshot)
    }
}

#[test]
fn submit_from_plain_os_thread_no_tokio_context() {
    let mut h = start_runtime(4, 4);
    let receipt = h.submit(Some("s1")).expect("admit");
    assert!(receipt.session_id.is_some());
    h.owner.begin_shutdown();
    let outcome = h.wait_stopped();
    assert!(matches!(outcome, ShutdownWaitOutcome::Stopped(_)));
    assert_eq!(
        h.kinds,
        vec![(receipt.transaction_id, TransactionEndKind::RuntimeShutdown)]
    );
}

#[test]
fn duplicate_session_rejects_second() {
    let mut h = start_runtime(4, 4);
    assert!(h.submit(Some("same")).is_ok());
    let err = h.submit(Some("same")).err().expect("duplicate");
    assert_eq!(err.kind, AdmissionErrorKind::SessionAlreadyActive);
    h.owner.begin_shutdown();
    assert!(matches!(h.wait_stopped(), ShutdownWaitOutcome::Stopped(_)));
}

#[test]
fn capacity_plus_one_rejects() {
    let mut h = start_runtime(1, 1);
    assert!(h.submit(Some("a")).is_ok());
    let err = h.submit(Some("b")).err().expect("capacity");
    assert_eq!(err.kind, AdmissionErrorKind::CapacityExceeded);
    h.owner.begin_shutdown();
    assert!(matches!(h.wait_stopped(), ShutdownWaitOutcome::Stopped(_)));
}

#[test]
fn shutdown_publishes_one_completion_per_admission() {
    let mut h = start_runtime(8, 8);
    for i in 0..5 {
        assert!(h.submit(Some(&format!("s{i}"))).is_ok());
    }
    assert_eq!(h.owner.ledger_len(), 5);
    h.run_starts();
    let done = h.work[0].transaction_id;
    h.worker_exits(done, TransactionEndKind::Completed);
    h.owner.begin_shutdown();
    match h.wait_stopped() {
        ShutdownWaitOutcome::Stopped(report) => {
            assert_eq!(report.completions_published, 5);
            assert_eq!(report.runtime_shutdown_terminals, 4);
        }
        ShutdownWaitOutcome::TimedOut(snap) => {
            panic!("expected Stopped, got TimedOut: {snap:?}");
        }
    }
    assert_eq!(h.kinds.len(), 5);
    assert!(h.kinds.iter().all(|(_, k)| matches!(
        k,
        TransactionEndKind::RuntimeShutdown | TransactionEndKind::Completed
    )));
}

#[test]
fn fake_echo_exchange_emits_canonical_text_unit() {
    let mut h = start_runtime(4, 4);
    let receipt = h.submit(Some("echo")).unwrap();
    assert!(receipt.session_id.is_some());
    h.run_starts();
    let input = vec![CanonicalMessage::User {
        content: vec![TextPart::try_new("hi", 4096).unwrap()],
        name: None,
    }];
    let body = TestTextEncoder.encode_initial(&input).ok().unwrap().bytes;
    let echoed = CanonicalUnitEvent::Completed(CanonicalUnitSnapshot {
        interpretation_id: String::from("i1"),
        connection_id: String::from("c1"),
        external_session_id: None,
        unit_id: String::from("u1"),
        flow_id: String::from("main"),
        lane_id: String::from("response"),
        lane_ordinal: 1,
        unit_generation: 1,
        unit: CanonicalUnit::Text(TextUnit {
            channel: TextChannel::PublicResponse,
            content: String::from_utf8(body).unwrap(),
        }),
    });
    let outcome = direct_outcome(None, vec![echoed], ExchangeId::generate(), None);
    let mut saw_text = false;
    for unit in &outcome.units {
        if let CanonicalUnit::Text(t) = &unit.snapshot().unit {
            assert!(t.content.contains("hi"), "unexpected text: {}", t.content);
            saw_text = true;
        }
    }
    h.worker_exits(receipt.transaction_id, outcome.terminal);
    assert!(saw_text, "expected Text canonical unit from Fake echo");
    assert_eq!(
        h.kinds,
        vec![(receipt.transaction_id, TransactionEndKind::Completed)]
    );
    h.owner.begin_shutdown();
    assert!(matches!(h.wait_stopped(), ShutdownWaitOutcome::Stopped(_)));
}

#[test]
fn coordinator_publishes_sequenced_unit_and_completed() {
    let mut h = start_runtime(4, 4);
    let receipt = h.submit(Some("seq")).unwrap();
    assert!(receipt.session_id.is_some());
    h.run_starts();
    assert_eq!(h.work.len(), 1);
    assert_eq!(h.work[0].session_id, Some(String::from("seq")));
    assert_eq!(h.owner.owned_task_count(), 2);

    let outcome = run_direct_llm_exchange(false, String::from("main"), String::from("response"));
    let mut coordinator = Coordinator::new(CoordinatorSetting {
        channel_known: true,
        config_ok: true,
        kind: ChannelKind::DirectLlm,
        has_sessions: false,
        tool_mode: ToolExecutionMode::ModelToolCalls,
        mcp_configuration: McpConfigurationCapability::Unsupported,
        has_tools: false,
        has_gateway: false,
        policy: ContinuationPolicy::CallerControlled,
        max_provider_exchanges: 4,
        max_continuations: 4,
        max_context_bytes: 65536,
        max_input_bytes: 65536,
        max_output_bytes: 65536,
    });
    assert_eq!(
        coordinator.step(CoordinatorInput::Start),
        CoordinatorAction::RunExchange { gated: false }
    );
    let report = ExchangeReport {
        terminal: outcome.terminal,
        input_bytes: 2,
        output_bytes: 3,
        unannounced_session: false,
        units: outcome.units.len(),
        has_ready: false,
    };
    assert_eq!(provider_usage_after_exchange(report), (1, 2, 3));
    let (mut publisher, _) = EventPublisher::new(
        receipt.transaction_id,
        String::from("llm"),
        h.work[0].session_id.clone(),
    );
    let mut seqs = Vec::new();
    let mut saw_unit = false;
    let mut action = coordinator.step(CoordinatorInput::ExchangeEnded(report));
    let mut units = outcome.units.into_iter();
    let kind = loop {
        match action {
            CoordinatorAction::PublishUnit(_) => {
                let payload = TransactionEventPayload::CanonicalUnit(units.next().unwrap());
                let command = EventPublisherCommand::Publish(payload);
                match publisher.step(PublisherInput::Command(Some(command))) {
                    PublisherAction::Send(event, _) => {
                        seqs.push(event.sequence);
                        if matches!(event.payload, TransactionEventPayload::CanonicalUnit(_)) {
                            saw_unit = true;
                        }
                    }
                    _ => panic!("expected an event"),
                }
                publisher.step(PublisherInput::SendDone(Ok(())));
                action = coordinator.step(CoordinatorInput::Sent(Interruptible::Done));
            }
            CoordinatorAction::Propose { kind, revoke } => {
                assert!(!revoke);
                break kind;
            }
            _ => panic!("unexpected action"),
        }
    };
    h.worker_exits(receipt.transaction_id, kind);
    assert!(saw_unit, "expected at least one CanonicalUnit event");
    assert!(!seqs.is_empty());
    for w in seqs.windows(2) {
        assert_eq!(w[1], w[0] + 1, "sequences must be contiguous");
    }
    assert_eq!(
        h.kinds,
        vec![(receipt.transaction_id, TransactionEndKind::Completed)]
    );
    assert_eq!(h.owner.ledger_len(), 0);
    assert_eq!(h.owner.global_reservations(), 0);
    h.owner.begin_shutdown();
    assert!(matches!(h.wait_stopped(), ShutdownWaitOutcome::Stopped(_)));
}

#[test]
fn reservation_pool_rejects_zero_capacity() {
    assert!(ReservationPool::try_new(0, &vec![]).is_err());
    assert!(ReservationPool::try_new(1, &vec![(String::from("c"), 0)]).is_err());
    assert!(matches!(
        ReservationPool::try_new(0, &vec![]),
        Err(ReservationPoolError::ZeroGlobal)
    ));
    assert!(matches!(
        ReservationPool::try_new(1, &vec![(String::from("c"), 0)]),
        Err(ReservationPoolError::ZeroChannel)
    ));
}

#[test]
fn shutdown_control_not_starved_when_start_queue_full() {
    let mut h = start_runtime(2, 2);
    for i in 0..2 {
        assert!(h.submit(Some(&format!("full{i}"))).is_ok());
    }
    let err = h.submit(Some("overflow")).err().expect("capacity");
    assert_eq!(err.kind, AdmissionErrorKind::CapacityExceeded);
    h.owner.begin_shutdown();
    let outcome = h.wait_stopped();
    assert!(
        matches!(outcome, ShutdownWaitOutcome::Stopped(ref r) if r.completions_published == 2),
        "expected Stopped with 2 completions, got {outcome:?}"
    );
    assert!(h.kinds.iter().all(|(_, k)| *k == TransactionEndKind::RuntimeShutdown));
}

#[test]
fn short_wait_may_timeout_while_quiescing_then_complete() {
    let mut h = start_runtime(2, 2);
    assert!(h.submit(Some("q")).is_ok());
    h.run_starts();
    h.owner.begin_shutdown();
    let outcome = h.wait_stopped();
    assert!(
        matches!(outcome, ShutdownWaitOutcome::Stopped(_)),
        "expected Stopped, got {outcome:?}"
    );
}

#[test]
fn m6_short_timeout_then_repeat_wait_same_generation_stopped() {
    let mut gate = StoppedGate::new();
    let mut h = start_runtime(4, 4);
    assert!(h.submit(Some("m6a")).is_ok());
    assert!(h.submit(Some("m6b")).is_ok());
    h.run_starts();
    let ticket = h.owner.begin_shutdown();
    let ticket2 = h.owner.begin_shutdown();
    assert_eq!(ticket.generation(), ticket2.generation());
    assert_eq!(ticket.generation(), 1);

    assert!(wait_begin(&mut h.owner.shared, false).is_none());
    let snapshot = h.owner.shared.snapshot(0, 0, 0);
    let first = wait_until_drain_complete(&h.owner.shared, 0, 0, snapshot);
    let DrainWait::TimedOut(snap) = first else {
        panic!("a short wait must time out while work drains, got {first:?}");
    };
    assert_eq!(snap.generation, ticket.generation());
    assert_eq!(h.owner.state(), RuntimeState::Quiescing);
    assert!(
        snap.ledger_entries > 0 || snap.owned_tasks > 0,
        "a timed out wait must report what is left, got {snap:?}"
    );
    assert!(!h.drain(Some(&gate)));
    assert_eq!(h.owner.state(), RuntimeState::Quiescing);

    gate.release();
    assert!(h.drain(Some(&gate)));
    match executor_answered(&mut h.owner.shared, true, snapshot) {
        ShutdownWaitOutcome::Stopped(_) => {
            assert_eq!(h.owner.ledger_len(), 0);
            assert_eq!(h.owner.global_reservations(), 0);
            assert_eq!(h.owner.state(), RuntimeState::Stopped);
        }
        other => panic!("expected Stopped after long wait, got {other:?}"),
    }
}

#[test]
fn m6_concurrent_begin_shutdown_same_generation() {
    let mut h = start_runtime(2, 2);
    let gens: Vec<u64> = (0..8).map(|_| h.owner.begin_shutdown().generation()).collect();
    assert!(gens.iter().all(|g| *g == 1), "all tickets must share gen 1, got {gens:?}");
    assert!(matches!(h.wait_stopped(), ShutdownWaitOutcome::Stopped(_)));
}

#[test]
fn mcp_listener_owned_shutdown_reaches_stopped() {
    let mut h = start_runtime_with_mcp(2, 2, true);
    h.supervisor.note_tasks(&mut h.owner.shared, &h.tasks);
    assert_eq!(h.owner.owned_task_count(), 1);
    h.owner.begin_shutdown();
    let outcome = h.wait_stopped();
    assert!(
        matches!(outcome, ShutdownWaitOutcome::Stopped(_)),
        "expected Stopped with MCP joined, got {outcome:?}"
    );
    assert_eq!(h.owner.owned_task_count(), 0);
}

#[test]
fn closed_runtime_admits_nothing() {
    let mut h = start_runtime(2, 2);
    h.owner.begin_shutdown();
    let err = h.submit(Some("late")).err().unwrap();
    assert_eq!(err.kind, AdmissionErrorKind::RuntimeShuttingDown);
    assert_eq!(err.message, "runtime not accepting");
    assert_eq!(h.owner.global_reservations(), 0);
}

#[test]
fn full_start_queue_rolls_an_admission_back() {
    let mut h = start_runtime(4, 4);
    h.start_capacity = 1;
    assert!(h.submit(Some("a")).is_ok());
    let err = h.submit(Some("b")).err().unwrap();
    assert_eq!(err.kind, AdmissionErrorKind::SpawnFailed);
    assert_eq!(err.message, "supervisor start queue full");
    assert_eq!(h.owner.ledger_len(), 1);
    assert_eq!(h.owner.global_reservations(), 1);
    assert_eq!(h.owner.channel_reservations(&String::from("llm")), 1);
    assert_eq!(h.owner.channel_reservations(&String::from("other")), 0);
    assert_eq!(h.owner.channel_count(), 1);
}

#[test]
fn cancel_is_accepted_once_and_force_upgrades_it() {
    let mut h = start_runtime(4, 4);
    let tx = h.submit(Some("c")).unwrap().transaction_id;
    h.run_starts();
    let by_session = TransactionSelector::Session(SessionKey {
        channel_id: String::from("llm"),
        session_id: String::from("c"),
    });
    let command = h.owner.terminate(by_session, TerminationMode::Cancel);
    assert!(matches!(command, Ok(ControlCommand::Cancel(id)) if id == tx));
    assert_eq!(termination_sent(ControlSend::Sent), TerminationDisposition::Accepted);
    assert_eq!(
        termination_sent(ControlSend::Full),
        TerminationDisposition::ControlCapacityExceeded
    );
    assert_eq!(termination_sent(ControlSend::Closed), TerminationDisposition::RuntimeClosed);
    let mut fx = Effects::new();
    h.supervisor.on_control(
        &mut h.owner.shared,
        &mut h.tasks,
        &mut fx,
        Some(ControlCommand::Cancel(tx)),
    );
    let again = h.owner.terminate(TransactionSelector::Transaction(tx), TerminationMode::Cancel);
    assert!(matches!(again, Err(TerminationDisposition::AlreadyTerminal)));
    let force =
        h.owner.terminate(TransactionSelector::Transaction(tx), TerminationMode::ForceTerminate);
    assert!(matches!(force, Ok(ControlCommand::ForceTerminate(_))));
    h.perform(fx);
    let gone = h.owner.terminate(
        TransactionSelector::Transaction(TransactionId { value: 1 }),
        TerminationMode::Cancel,
    );
    assert!(matches!(gone, Err(TerminationDisposition::NotFound)));
    assert_eq!(h.kinds, vec![(tx, TransactionEndKind::Cancelled)]);
}

#[test]
fn first_terminal_wins() {
    let mut h = start_runtime(4, 4);
    let tx = h.submit(Some("f")).unwrap().transaction_id;
    h.run_starts();
    let mut fx = Effects::new();
    h.supervisor.on_worker_exited(
        &mut h.owner.shared,
        &mut h.tasks,
        &mut fx,
        tx,
        TerminalProposal { kind: TransactionEndKind::Completed },
    );
    h.supervisor.on_worker_exited(
        &mut h.owner.shared,
        &mut h.tasks,
        &mut fx,
        tx,
        TerminalProposal { kind: TransactionEndKind::InvariantFailed },
    );
    assert_eq!(fx.finalizers.len(), 1);
    h.perform(fx);
    assert_eq!(h.kinds, vec![(tx, TransactionEndKind::Completed)]);
}

#[test]
fn lost_coordinator_is_an_invariant_failure_unless_it_left_a_proposal() {
    let mut h = start_runtime(4, 4);
    let lost = h.submit(Some("lost")).unwrap().transaction_id;
    let parked = h.submit(Some("parked")).unwrap().transaction_id;
    h.run_starts();
    park_proposal(
        &mut h.owner.shared,
        parked,
        TerminalProposal { kind: TransactionEndKind::Completed },
    );
    let tasks: Vec<TaskId> = h.work.iter().map(|w| w.coordinator).collect();
    for id in tasks {
        let fx = h.join(id, TaskExit::Completed);
        h.perform(fx);
    }
    let kind_of = |tx: TransactionId| h.kinds.iter().find(|(t, _)| *t == tx).unwrap().1;
    assert_eq!(kind_of(lost), TransactionEndKind::InvariantFailed);
    assert_eq!(kind_of(parked), TransactionEndKind::Completed);
}

#[test]
fn force_terminate_ends_a_running_transaction() {
    let mut h = start_runtime(4, 4);
    let tx = h.submit(None).unwrap().transaction_id;
    h.run_starts();
    h.control(ControlCommand::ForceTerminate(tx));
    assert_eq!(h.kinds, vec![(tx, TransactionEndKind::Terminated)]);
}

#[test]
fn truncated_stream_is_no_success() {
    let mut h = start_runtime(4, 4);
    let tx = h.submit(Some("t")).unwrap().transaction_id;
    let sealed = settle_after_seal(
        &mut h.owner.shared,
        tx,
        TransactionEndKind::Completed,
        SealOutcome::NoReply,
    );
    assert_eq!(sealed.kind, TransactionEndKind::EventDeliveryFailed);
    assert_eq!(sealed.delivery, TerminalEventDelivery::DeadlineExceeded);
    let kept = settle_after_seal(
        &mut h.owner.shared,
        tx,
        TransactionEndKind::Cancelled,
        SealOutcome::Closed,
    );
    assert_eq!(kept.kind, TransactionEndKind::Cancelled);
    assert_eq!(kept.delivery, TerminalEventDelivery::QueueClosed);
}

#[test]
fn completions_are_counted_by_outcome() {
    let mut h = start_runtime(4, 4);
    count_completion(&mut h.owner.shared, Some(CompletionPublishResult::Published));
    count_completion(&mut h.owner.shared, Some(CompletionPublishResult::ReceiverDropped));
    count_completion(&mut h.owner.shared, Some(CompletionPublishResult::InvariantFailed));
    count_completion(&mut h.owner.shared, None);
    let report = h.owner.shared.final_report();
    assert_eq!(report.completions_published, 2);
    assert_eq!(report.completions_receiver_dropped, 1);
    assert_eq!(report.completions_invariant_failed, 2);
}

#[test]
fn budgets() {
    assert_eq!(seal_wait_budget(SECOND), 1_100_000_000);
    assert_eq!(remaining_budget(5, 3), 2);
    assert_eq!(remaining_budget(3, 5), 0);
}

#[test]
fn start_settles_the_sizes() {
    let config = RuntimeConfig::with_limits(limits(3, 3));
    let tools = HostToolRegistry::empty();
    let builder = StartBuilder::begin(&config, Ok(()), &tools).ok().unwrap();
    let (_, sizes) = builder.finish(&config, 4).ok().unwrap();
    assert_eq!(sizes.start, 3);
    assert_eq!(sizes.control, 16);
    assert_eq!(sizes.worker, 11);
    assert_eq!(sizes.spawn, 32);
    assert_eq!(sizes.tools, 12);
    assert_eq!(sizes.mcp_routes, 6);
    assert_eq!(sizes.max_tools, 8);
}

#[test]
fn start_refuses_what_is_wrong() {
    let config = RuntimeConfig::with_limits(limits(3, 3));
    let tools = HostToolRegistry::empty();
    assert!(matches!(
        StartBuilder::begin(&config, Err(LimitsError::ZeroCapacity("max_messages")), &tools),
        Err(StartupError::InvalidConfig("max_messages"))
    ));
    let mut no_deadline = config;
    no_deadline.default_shutdown_deadline = 0;
    assert!(matches!(
        StartBuilder::begin(&no_deadline, Ok(()), &tools),
        Err(StartupError::InvalidConfig("default_shutdown_deadline"))
    ));
    let mut builder = StartBuilder::begin(&config, Ok(()), &tools).ok().unwrap();
    let with_sessions = ChannelFacts { has_sessions: true, ..facts() };
    assert!(matches!(
        builder.add_channel(&config, &llm_binding("llm", 3), with_sessions),
        Err(StartupError::SessionAdapterMismatch(_))
    ));
    let mut agent = llm_binding("agent", 3);
    agent.kind = ChannelKind::ExternalAgent;
    assert!(matches!(
        builder.add_channel(&config, &agent, facts()),
        Err(StartupError::SessionAdapterMismatch(_))
    ));
    assert!(matches!(
        builder.add_channel(&config, &llm_binding("llm", 0), facts()),
        Err(StartupError::InvalidConfig("channel max_active_transactions must be nonzero"))
    ));
    let broken = ChannelFacts { build_error: Some(String::from("no binary")), ..facts() };
    assert!(matches!(
        builder.add_channel(&config, &llm_binding("llm", 1), broken),
        Err(StartupError::ConnectorBuild(_))
    ));
    let twice = ChannelRegistry::build(
        vec![llm_binding("x", 1), llm_binding("x", 1)],
        &vec![None, None],
    );
    assert!(matches!(twice, Err(StartupError::ChannelRegistry("duplicate ChannelId"))));
}
