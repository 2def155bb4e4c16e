use monoloop_loop::json::JsonText;
use monoloop_loop::identity::TransactionId;
use monoloop_loop::messages::{CanonicalMessage, TextPart};
use monoloop_loop::transaction::active_registry::{
    ActiveTransaction, ActiveTransactionRegistry, ClaimSessionError,
};
use monoloop_loop::transaction::actor_end::{
    abandon, begin_finalization, callback_refused, finalize_and_cleanup, put_back_unscheduled,
    terminal_payload, terminal_session, ActorResult, TerminalSend,
};
use monoloop_loop::transaction::admission::{
    allocate_session, begin_admission, begin_admission_as, channel_option_policy, install,
    resolve_tools, schema_total, spawn_failed, AdmissionContext, AdmissionTask,
    InstalledTransaction, PendingAdmission, Refusal, TransactionRequest, STATE_ACCEPTING,
};
use monoloop_loop::transaction::callback_service::{
    CallbackRun, CallbackService, DrainAction, DrainInput,
};
use monoloop_loop::transaction::capacity::CapacityManagers;
use monoloop_loop::transaction::channel_registry::{
    ChannelBinding, ChannelCapabilities, ChannelKind, ChannelRegistry, ContinuationPolicies,
    ContinuationPolicy, McpConfigurationCapability, McpReachability, ToolExecutionMode,
};
use monoloop_loop::transaction::events::{
    deliver_isolated, estimate_event_bytes, AfterItem, BoundedEventSender, DeliveryTask,
    EventQueueFull, ItemAction, OrderedEventPublisher, SinkRun,
};
use monoloop_loop::transaction::finalization::{
    bound_diagnostics, ClaimStep, ClaimedFinalization, EventSequencer, FinalizationGuard,
};
use monoloop_loop::transaction::host_tools::{
    HostToolRegistry, RegisteredTool, ToolCancellationPolicy, ToolExecutionClass, ToolHandler,
    ToolSpec,
};
use monoloop_loop::transaction::lifecycle::admission::AdmissionErrorKind;
use monoloop_loop::transaction::lifecycle::delivery::adapt_completion;
use monoloop_loop::transaction::lifecycle::mcp::{
    listener_step, request_reply, ListenerAction, ListenerEvent, McpReply, RequestRun,
};
use monoloop_loop::transaction::lifecycle::shared::RuntimeState;
use monoloop_loop::transaction::lifecycle::task_spawner::{
    mailbox_capacity, spawn_boxed, BusyRetry, MailboxAnswer, RetryStep, SpawnReject,
};
use monoloop_loop::transaction::lifecycle::task_supervisor::{
    TaskClass, TaskExit, TaskId, TaskSupervisor,
};
use monoloop_loop::transaction::lifecycle::terminal::{
    build_completion, end_event, CleanupStatus,
};
use monoloop_loop::transaction::limits::{ChannelLimits, ToolLimits, TransactionLimits};
use monoloop_loop::transaction::types::{
    EventDeliveryOutcome, SafeDiagnostic, SessionKey, TerminalEventDelivery,
    TransactionDiagnostic, TransactionEndKind, TransactionEventPayload,
};

const SECOND: u128 = 1_000_000_000;

fn limits() -> TransactionLimits {
    TransactionLimits {
        max_active_transactions: 4,
        max_active_per_channel: 4,
        max_actor_commands: 0,
        max_messages: 2,
        max_content_parts: 2,
        max_text_part_bytes: 4096,
        max_input_bytes: 64,
        max_tools_per_transaction: 2,
        max_tool_schema_bytes: 20,
        max_tool_payload_bytes: 4096,
        max_tool_output_bytes: 4096,
        max_concurrent_tools: 4,
        max_queued_tools: 4,
        max_concurrent_tools_per_transaction: 2,
        max_queued_tools_per_transaction: 2,
        max_continuations: 4,
        max_continuation_context_bytes: 65536,
        max_provider_exchanges: 4,
        max_total_provider_input_bytes: 65536,
        max_total_provider_output_bytes: 65536,
        max_event_queue: 32,
        max_event_queue_bytes: 65536,
        max_diagnostic_count: 8,
        max_diagnostic_bytes: 256,
        transaction_deadline: 2 * SECOND,
        cleanup_deadline: SECOND,
        terminal_event_delivery_deadline: SECOND,
        callback_deadline: SECOND,
    }
}

fn binding(id: &str, kind: ChannelKind, mode: ToolExecutionMode) -> ChannelBinding {
    ChannelBinding {
        id: String::from(id),
        kind,
        tool_mode: mode,
        capabilities: ChannelCapabilities {
            mcp_configuration: McpConfigurationCapability::CreationOnly,
            mcp_reachability: McpReachability::SameLoopbackNamespace,
            continuation_policies: ContinuationPolicies {
                caller_controlled: true,
                inline_tool_continuation: false,
            },
        },
        limits: ChannelLimits {
            max_active_transactions: 3,
            max_distinct_sessions: 2,
            max_encoded_exchange_bytes: 1000,
        },
    }
}

fn tool(id: &str) -> RegisteredTool {
    RegisteredTool::try_new(
        ToolSpec {
            id: String::from(id),
            name: String::from(id),
            description: String::from("a tool"),
            input_schema: JsonText::parse("{\"a\":1234}").unwrap(),
            limits: ToolLimits {
                max_input_bytes: 10,
                max_output_bytes: 10,
                max_concurrent: 1,
                execution_deadline: SECOND,
            },
            execution_class: ToolExecutionClass::CooperativeInProcess { grace: SECOND },
            cancellation: ToolCancellationPolicy::Cooperative { grace: SECOND },
        },
        ToolHandler {
            handle: 1,
            supports_abort: false,
            supports_isolated_kill: false,
            os_process_isolated: false,
            runtime_owns_abortable_drive: false,
        },
    )
    .ok()
    .unwrap()
}

fn context(callbacks: usize) -> AdmissionContext<u8, u8> {
    let llm = binding("llm", ChannelKind::DirectLlm, ToolExecutionMode::ModelToolCalls);
    let agent = binding("agent", ChannelKind::ExternalAgent, ToolExecutionMode::McpGateway);
    AdmissionContext {
        channels: ChannelRegistry::build(vec![llm, agent], &vec![None, None]).ok().unwrap(),
        tools: HostToolRegistry::build(vec![tool("a"), tool("b"), tool("c")], 100).ok().unwrap(),
        capacity: CapacityManagers::new(4, &vec![
            (String::from("llm"), 3),
            (String::from("agent"), 3),
        ]),
        registry: ActiveTransactionRegistry::new(),
        limits: limits(),
        runtime_state: STATE_ACCEPTING,
        callbacks: CallbackService::new(callbacks, SECOND),
    }
}

fn request(channel: &str, session: Option<&str>, tools: &[&str]) -> TransactionRequest {
    TransactionRequest {
        channel_id: String::from(channel),
        session_id: session.map(String::from),
        messages: vec![CanonicalMessage::User {
            content: vec![TextPart::try_new("hi", 100).unwrap()],
            name: None,
        }],
        tools: tools.iter().map(|t| String::from(*t)).collect(),
        has_session_config: false,
        continuation_policy: ContinuationPolicy::CallerControlled,
        deadline: None,
    }
}

fn begin(
    ctx: &mut AdmissionContext<u8, u8>,
    request: &TransactionRequest,
    tx: u128,
) -> Result<PendingAdmission, Refusal> {
    let fresh = String::from("fresh");
    begin_admission_as(ctx, request, &None, TransactionId { value: tx }, fresh, 0)
}

fn refused(ctx: &mut AdmissionContext<u8, u8>, request: &TransactionRequest) -> (AdmissionErrorKind, String) {
    let e = begin(ctx, request, 1).err().expect("refused");
    (e.kind, e.message)
}

fn installed(ctx: &mut AdmissionContext<u8, u8>, session: &str, tx: u128) -> InstalledTransaction {
    let pending = begin(ctx, &request("llm", Some(session), &[]), tx).ok().expect("places");
    install(ctx, pending, 7, 9, true).ok().expect("installed")
}

#[test]
fn admission_checks_in_order() {
    let mut ctx = context(4);
    assert_eq!(
        refused(&mut ctx, &request("nowhere", None, &["a", "b", "c"])),
        (AdmissionErrorKind::InvalidInput, String::from("too many tools on request"))
    );
    assert_eq!(
        refused(&mut ctx, &request("nowhere", None, &[])),
        (AdmissionErrorKind::UnknownChannel, String::from("unknown channel"))
    );
    let mut r = request("llm", None, &[]);
    r.has_session_config = true;
    assert_eq!(refused(&mut ctx, &r).0, AdmissionErrorKind::InvalidConfiguration);
    let mut r = request("llm", None, &[]);
    r.continuation_policy = ContinuationPolicy::InlineToolContinuation;
    assert_eq!(refused(&mut ctx, &r).0, AdmissionErrorKind::CapabilityMismatch);
    assert_eq!(
        refused(&mut ctx, &request("agent", Some("s"), &["a"])),
        (
            AdmissionErrorKind::CapabilityMismatch,
            String::from("CreationOnly MCP cannot refresh tools on an existing session")
        )
    );
    assert_eq!(
        refused(&mut ctx, &request("llm", None, &["a", "a"])),
        (AdmissionErrorKind::DuplicateTool, String::from("duplicate tool id on request"))
    );
    assert_eq!(
        refused(&mut ctx, &request("llm", None, &["z"])),
        (AdmissionErrorKind::UnknownTool, String::from("unknown tool id"))
    );
    let mut r = request("llm", None, &[]);
    r.messages[0] = CanonicalMessage::User {
        content: vec![TextPart::try_new(&"x".repeat(65), 100).unwrap()],
        name: None,
    };
    assert_eq!(refused(&mut ctx, &r).1, "canonical input exceeds max_input_bytes");
    let mut r = request("llm", None, &[]);
    for _ in 0..2 {
        r.messages.push(CanonicalMessage::User { content: vec![], name: None });
    }
    assert_eq!(refused(&mut ctx, &r).1, "canonical input exceeds max_messages");
    let mut r = request("llm", None, &[]);
    r.messages[0] = CanonicalMessage::User {
        content: (0..3).map(|_| TextPart::try_new("x", 100).unwrap()).collect(),
        name: None,
    };
    assert_eq!(refused(&mut ctx, &r).1, "canonical message exceeds max_content_parts");
    ctx.limits.max_tool_schema_bytes = 19;
    assert_eq!(
        refused(&mut ctx, &request("llm", None, &["a", "b"])).1,
        "selected tool schemas exceed max_tool_schema_bytes"
    );
    let fault = Some(String::from("unknown key"));
    let tx = TransactionId { value: 1 };
    let e = begin_admission_as(&mut ctx, &request("llm", None, &[]), &fault, tx, String::new(), 0)
        .err()
        .unwrap();
    assert_eq!(e.message, "config merge failed: unknown key");
    assert_eq!(ctx.capacity.global_active(), 0);
    assert_eq!(ctx.callbacks.reserved(), 0);
}

#[test]
fn admission_reserves_and_installs() {
    let mut ctx = context(4);
    let pending = begin(&mut ctx, &request("llm", None, &["a", "b"]), 5).ok().unwrap();
    assert_eq!(pending.session_id, Some(String::from("fresh")));
    assert_eq!(pending.control_cap, 1);
    assert_eq!(pending.event_cap, 32);
    assert_eq!(pending.deadline, 2 * SECOND);
    assert!(!pending.provisional_external);
    assert_eq!(ctx.capacity.global_active(), 1);
    assert_eq!(ctx.callbacks.reserved(), 1);
    let done = install(&mut ctx, pending, 7, 9, true).ok().unwrap();
    assert_eq!(done.receipt.transaction_id, TransactionId { value: 5 });
    assert_eq!(ctx.registry.len(), 1);
    assert_eq!(ctx.registry.control_tx(&TransactionId { value: 5 }), Some(&9));
    let again = begin(&mut ctx, &request("llm", Some("fresh"), &[]), 6);
    assert_eq!(again.err().unwrap().kind, AdmissionErrorKind::SessionAlreadyActive);
}

#[test]
fn an_agent_tells_its_session_later() {
    let mut ctx = context(4);
    let pending = begin(&mut ctx, &request("agent", None, &["a"]), 5).ok().unwrap();
    assert!(pending.provisional_external);
    assert!(pending.session_key.is_none());
    let random = begin_admission(&mut ctx, &request("llm", None, &[]), &None, 0).ok().unwrap();
    assert_eq!(random.session_id.unwrap().len(), 36);
}

#[test]
fn a_refused_installation_gives_everything_back() {
    let mut ctx = context(4);
    let pending = begin(&mut ctx, &request("llm", Some("s"), &[]), 1).ok().unwrap();
    let e = spawn_failed(&mut ctx, pending, AdmissionTask::Delivery);
    assert_eq!(e.message, "executor unavailable for delivery task");
    assert_eq!(ctx.capacity.global_active(), 0);
    assert_eq!(ctx.callbacks.reserved(), 0);
    let pending = begin(&mut ctx, &request("llm", Some("s"), &[]), 1).ok().unwrap();
    let e = install(&mut ctx, pending, 7, 9, false).err().unwrap();
    assert_eq!(e.message, "executor unavailable for reaper task");
    let pending = begin(&mut ctx, &request("llm", Some("s"), &[]), 1).ok().unwrap();
    ctx.runtime_state = 2;
    let e = install(&mut ctx, pending, 7, 9, true).err().unwrap();
    assert_eq!(e.kind, AdmissionErrorKind::RuntimeShuttingDown);
    assert_eq!(refused(&mut ctx, &request("llm", Some("s"), &[])).0, AdmissionErrorKind::RuntimeShuttingDown);
    assert_eq!(ctx.capacity.global_active(), 0);
    assert_eq!(ctx.registry.len(), 0);
}

#[test]
fn sessions_on_a_channel_are_bounded() {
    let mut ctx = context(4);
    installed(&mut ctx, "a", 1);
    installed(&mut ctx, "b", 2);
    let pending = begin(&mut ctx, &request("llm", Some("c"), &[]), 3).ok().unwrap();
    let e = install(&mut ctx, pending, 7, 9, true).err().unwrap();
    assert_eq!(e.kind, AdmissionErrorKind::CapacityExceeded);
    assert_eq!(e.message, "channel distinct session capacity exceeded");
}

#[test]
fn places_run_out() {
    let mut ctx = context(1);
    installed(&mut ctx, "a", 1);
    assert_eq!(
        refused(&mut ctx, &request("llm", Some("b"), &[])),
        (AdmissionErrorKind::CapacityExceeded, String::from("callback capacity exceeded"))
    );
    let mut ctx = context(8);
    for i in 0..3 {
        assert!(begin(&mut ctx, &request("llm", None, &[]), i).is_ok());
    }
    assert_eq!(
        refused(&mut ctx, &request("llm", None, &[])).1,
        "active transaction capacity exceeded"
    );
}

#[test]
fn pieces_of_admission() {
    let ctx = context(1);
    let ids = vec![String::from("b"), String::from("a")];
    let found = resolve_tools(&ctx.tools, &ids).ok().unwrap();
    assert_eq!(found[0].spec().id, "b");
    assert_eq!(schema_total(&ctx.tools, &ids), 20);
    let channel = String::from("agent");
    let (s, k, p) =
        allocate_session(ChannelKind::ExternalAgent, &channel, &None, String::from("f"));
    assert!(s.is_none() && k.is_none() && p);
    let keys = channel_option_policy(&vec![String::from("x")], &vec![String::from("y")]);
    assert_eq!(keys, vec!["x", "y"]);
}

fn result(kind: TransactionEndKind) -> ActorResult {
    ActorResult {
        kind,
        prior: None,
        delivery: EventDeliveryOutcome::Accepted,
        session_key: None,
    }
}

#[test]
fn an_actor_ends_once() {
    let mut ctx = context(4);
    let done = installed(&mut ctx, "s", 1);
    let tx = done.receipt.transaction_id;
    let mut guard = FinalizationGuard::new(tx, String::from("llm"), Some(String::from("s")), 7u8);
    let claimed = begin_finalization(&mut guard).expect("claimed");
    assert!(begin_finalization(&mut guard).is_none());
    assert_eq!(
        terminal_session(claimed.payload(), &result(TransactionEndKind::Completed), String::new()),
        "s"
    );
    assert!(matches!(
        terminal_payload(claimed.payload(), &result(TransactionEndKind::Completed), 4),
        TransactionEventPayload::Ended(ref e) if e.emitted_events == 4
    ));
    let send = TerminalSend { sent: true, acknowledged: true, preview: 4, last_allocated: 4 };
    let end = finalize_and_cleanup(
        &mut ctx,
        &mut guard,
        claimed,
        result(TransactionEndKind::Completed),
        send,
        done.reservation,
        0,
        true,
        SECOND,
    );
    assert_eq!(end.end.kind, TransactionEndKind::Completed);
    assert_eq!(end.end.prior_terminal_cause, None);
    assert_eq!(end.end.emitted_events, 4);
    assert_eq!(end.callback, 7);
    assert!(matches!(end.schedule, Ok(d) if d == SECOND));
    assert_eq!(ctx.registry.len(), 0);
    assert_eq!(ctx.capacity.global_active(), 0);
    assert_eq!(ctx.callbacks.inflight(), 1);
    assert!(guard.callback_was_scheduled());
    ctx.callbacks.ran(CallbackRun::Over);
    assert_eq!(ctx.callbacks.inflight(), 0);
}

#[test]
fn an_end_that_does_not_arrive_says_so() {
    let mut ctx = context(4);
    let done = installed(&mut ctx, "s", 1);
    let tx = done.receipt.transaction_id;
    let mut guard = FinalizationGuard::new(tx, String::from("llm"), None, 7u8);
    let claimed = begin_finalization(&mut guard).unwrap();
    let send = TerminalSend { sent: false, acknowledged: false, preview: 4, last_allocated: 3 };
    let end = finalize_and_cleanup(
        &mut ctx,
        &mut guard,
        claimed,
        result(TransactionEndKind::Completed),
        send,
        done.reservation,
        0,
        false,
        SECOND,
    );
    assert_eq!(end.end.kind, TransactionEndKind::EventDeliveryFailed);
    assert_eq!(end.end.prior_terminal_cause, Some(TransactionEndKind::Completed));
    assert_eq!(end.end.event_delivery, EventDeliveryOutcome::Failed);
    assert_eq!(end.end.emitted_events, 4);
    assert!(end.schedule.is_err());
    assert!(!guard.callback_was_scheduled());
    put_back_unscheduled(&mut guard, end.callback, end.end);
    let again = guard.try_claim().unwrap();
    assert_eq!((again.transaction_id, again.callback), (tx, 7));
    assert!(guard.try_claim().is_none());
}

#[test]
fn a_callback_that_is_not_started_can_be_claimed_again() {
    let mut ctx = context(4);
    let done = installed(&mut ctx, "s", 1);
    let tx = done.receipt.transaction_id;
    let mut guard = FinalizationGuard::new(tx, String::from("llm"), None, 7u8);
    let claimed = begin_finalization(&mut guard).unwrap();
    let end = finalize_and_cleanup(
        &mut ctx,
        &mut guard,
        claimed,
        result(TransactionEndKind::Completed),
        TerminalSend { sent: true, acknowledged: true, preview: 4, last_allocated: 4 },
        done.reservation,
        0,
        true,
        SECOND,
    );
    assert!(guard.callback_was_scheduled());
    let held = callback_refused(&mut ctx, &mut guard, end.callback, end.end);
    assert_eq!((ctx.callbacks.inflight(), ctx.callbacks.reserved()), (0, 1));
    assert!(!guard.callback_was_scheduled());
    let again = guard.try_claim().unwrap();
    assert_eq!((again.channel_id.as_str(), again.callback), ("llm", 7));
    held.release(&mut ctx.callbacks);
    assert_eq!(ctx.callbacks.reserved(), 0);
}

#[test]
fn an_abandoned_actor_leaves_nothing() {
    let mut ctx = context(4);
    let done = installed(&mut ctx, "s", 1);
    abandon(
        &mut ctx,
        &done.receipt.transaction_id,
        &String::from("llm"),
        done.reservation,
    );
    assert_eq!(ctx.registry.len(), 0);
    assert_eq!(ctx.capacity.global_active(), 0);
    assert_eq!(ctx.callbacks.reserved(), 0);
}

fn key(session: &str) -> SessionKey {
    SessionKey { channel_id: String::from("llm"), session_id: String::from(session) }
}

fn entry(tx: u128, session: Option<&str>) -> ActiveTransaction<u8, u8> {
    ActiveTransaction {
        transaction_id: TransactionId { value: tx },
        session_key: session.map(key),
        channel_id: String::from("llm"),
        guard: FinalizationGuard::new(
            TransactionId { value: tx },
            String::from("llm"),
            session.map(String::from),
            0,
        ),
        ports: 1,
    }
}

#[test]
fn sessions_are_claimed_once() {
    let mut reg: ActiveTransactionRegistry<u8, u8> = ActiveTransactionRegistry::new();
    assert!(reg.is_empty());
    assert!(reg.insert(entry(1, Some("a"))).is_ok());
    assert_eq!(
        reg.insert(entry(2, Some("a"))),
        Err(AdmissionErrorKind::SessionAlreadyActive)
    );
    assert_eq!(reg.insert(entry(1, None)), Err(AdmissionErrorKind::SpawnFailed));
    assert!(reg.insert(entry(2, None)).is_ok());
    let second = TransactionId { value: 2 };
    assert_eq!(reg.claim_session(second, key("a")), Err(ClaimSessionError::Collision));
    assert_eq!(
        reg.claim_session_within(second, key("b"), Some(1)),
        Err(ClaimSessionError::CapacityExceeded)
    );
    assert_eq!(
        reg.claim_session(TransactionId { value: 9 }, key("b")),
        Err(ClaimSessionError::UnknownTransaction)
    );
    assert!(reg.claim_session(second, key("b")).is_ok());
    assert_eq!(
        reg.claim_session(second, key("c")),
        Err(ClaimSessionError::AlreadyClaimed)
    );
    assert_eq!(reg.distinct_sessions_on_channel(&String::from("llm")), 2);
    assert!(reg.session_active(&key("b")));
    assert_eq!(reg.control_tx_by_session(&key("b")), Some(&1));
    assert!(!reg.guard(&second).unwrap().is_claimed());
    assert!(reg.remove(&second).is_some());
    assert!(!reg.session_active(&key("b")));
    assert_eq!(reg.transaction_ids(), vec![TransactionId { value: 1 }]);
    assert_eq!(reg.drain_all().len(), 1);
    assert!(reg.is_empty());
}

#[test]
fn capacity_is_counted_in_all_and_by_channel() {
    let mut c = CapacityManagers::new(2, &vec![(String::from("a"), 1), (String::from("b"), 5)]);
    assert_eq!(c.max_global(), 2);
    assert!(c.try_reserve(&String::from("a")));
    assert!(!c.try_reserve(&String::from("a")));
    assert!(!c.try_reserve(&String::from("nowhere")));
    assert!(c.try_reserve(&String::from("b")));
    assert!(!c.try_reserve(&String::from("b")));
    assert_eq!(c.channel_active(&String::from("a")), Some(1));
    c.release(&String::from("a"));
    assert_eq!(c.channel_active(&String::from("a")), Some(0));
    assert_eq!(c.channel_active(&String::from("nowhere")), None);
    assert_eq!(c.global_active(), 1);
}

#[test]
fn callbacks_keep_their_places_until_they_are_joined() {
    let mut s = CallbackService::new(1, 0);
    let held = s.try_reserve(0).unwrap();
    assert!(s.try_reserve(0).is_none());
    assert!(matches!(s.schedule_reserved(held, 0, true, None), Ok(50_000_000)));
    s.ran(CallbackRun::TimedOut);
    assert_eq!(s.inflight(), 1);
    let mut d = s.drain(10);
    let sleep = d.step(&mut s, DrainInput::Looked { finished: 0, elapsed: 9 });
    assert_eq!(sleep, DrainAction::Sleep { nanos: 5_000_000 });
    let late = d.step(&mut s, DrainInput::Looked { finished: 0, elapsed: 10 });
    assert_eq!(late, DrainAction::ReadClock);
    let stop = d.step(&mut s, DrainInput::Clock { elapsed: 11 });
    assert_eq!(stop, DrainAction::Stop { budget: 0 });
    let join = d.step(&mut s, DrainInput::Stopped { ended: 0, kept: 0, elapsed: 12 });
    assert_eq!(join, DrainAction::Join { taken: 1, budget: 0 });
    assert_eq!(d.step(&mut s, DrainInput::Joined { joined: 0 }), DrainAction::Done);
    assert_eq!(s.inflight(), 1);
    assert!(s.schedule(0, true, None).is_none());
    assert_eq!(s.schedule(1, true, Some(3)), Some(3));
    s.ran(CallbackRun::Over);
    let held = s.try_reserve(0).unwrap();
    let back = s.schedule_reserved(held, 0, false, None).err().unwrap();
    back.release(&mut s);
    assert_eq!(s.reserved(), 0);
    assert!(s.schedule(0, false, None).is_none());
    assert_eq!(s.inflight(), 0);
}

#[test]
fn a_drain_stops_and_joins_what_is_left() {
    let mut s = CallbackService::new(2, 7);
    assert_eq!(s.schedule(0, true, None), Some(7));
    assert_eq!(s.schedule(0, true, None), Some(7));
    assert!(s.try_reserve(0).is_none());
    s.ran(CallbackRun::TimedOut);
    let mut d = s.drain(10);
    d.step(&mut s, DrainInput::Looked { finished: 0, elapsed: 10 });
    let stop = d.step(&mut s, DrainInput::Clock { elapsed: 4 });
    assert_eq!(stop, DrainAction::Stop { budget: 6 });
    let join = d.step(&mut s, DrainInput::Stopped { ended: 1, kept: 0, elapsed: 7 });
    assert_eq!(join, DrainAction::Join { taken: 1, budget: 3 });
    assert_eq!(s.inflight(), 1);
    assert_eq!(d.step(&mut s, DrainInput::Joined { joined: 1 }), DrainAction::Done);
    assert_eq!(s.inflight(), 0);
    assert!(s.try_reserve(0).is_some());
    assert!(s.try_reserve(0).is_some());
    assert!(s.try_reserve(0).is_none());
}

#[test]
fn a_drain_leaves_unjoined_callbacks_their_places() {
    let mut s = CallbackService::new(2, 7);
    assert_eq!(s.schedule(0, true, None), Some(7));
    assert_eq!(s.schedule(0, true, None), Some(7));
    let mut d = s.drain(10);
    d.step(&mut s, DrainInput::Looked { finished: 0, elapsed: 10 });
    d.step(&mut s, DrainInput::Clock { elapsed: 10 });
    let join = d.step(&mut s, DrainInput::Stopped { ended: 0, kept: 2, elapsed: 10 });
    assert_eq!(join, DrainAction::Join { taken: 2, budget: 0 });
    assert_eq!(d.step(&mut s, DrainInput::Joined { joined: 0 }), DrainAction::Done);
    assert_eq!(s.inflight(), 2);
    assert!(s.try_reserve(0).is_none());
    assert!(s.try_reserve(1).is_some());
    assert_eq!(s.inflight(), 1);
}

#[test]
fn a_refused_start_gives_the_reservation_back() {
    let mut s = CallbackService::new(2, 7);
    let held = s.try_reserve(0).unwrap();
    assert_eq!((s.inflight(), s.reserved()), (0, 1));
    assert!(matches!(s.schedule_reserved(held, 0, true, None), Ok(7)));
    assert_eq!((s.inflight(), s.reserved()), (1, 1));
    let back = s.start_refused();
    assert_eq!((s.inflight(), s.reserved()), (0, 1));
    assert!(matches!(s.schedule_reserved(back, 0, true, Some(3)), Ok(3)));
    let other = s.try_reserve(0).unwrap();
    assert_eq!((s.inflight(), s.reserved()), (1, 2));
    other.release(&mut s);
    assert_eq!((s.inflight(), s.reserved()), (1, 1));
}

#[test]
fn the_event_queue_is_bounded_in_bytes() {
    assert_eq!(estimate_event_bytes(Some(3)), 64);
    assert_eq!(estimate_event_bytes(Some(300)), 300);
    assert_eq!(estimate_event_bytes(None), 256);
    let mut q = BoundedEventSender::new(100);
    let first = q.reserve(64).ok().unwrap();
    assert!(matches!(q.reserve(64), Err(EventQueueFull::Bytes)));
    assert!(q.sent(first, true).is_ok());
    assert_eq!(q.queued_bytes, 64);
    let second = q.reserve(30).ok().unwrap();
    assert!(matches!(q.sent(second, false), Err(EventQueueFull::Closed)));
    assert_eq!(q.queued_bytes, 64);
    let mut task = DeliveryTask::new();
    assert_eq!(task.on_item(), ItemAction::Deliver);
    assert_eq!(
        task.on_delivered(&mut q, 64, false),
        AfterItem { ack_ok: false, signal_failure: true }
    );
    assert_eq!(q.queued_bytes, 0);
    assert_eq!(task.on_item(), ItemAction::Discard);
    assert_eq!(
        task.on_discarded(&mut q, 1),
        AfterItem { ack_ok: false, signal_failure: false }
    );
    assert!(deliver_isolated(SinkRun::Answered { ok: true }));
    assert!(!deliver_isolated(SinkRun::TimedOut));
}

#[test]
fn sequences_are_allocated_only_for_what_was_taken() {
    let mut p = OrderedEventPublisher::new(EventSequencer::new());
    assert_eq!(p.sequencer().peek_next(), 1);
    assert_eq!(p.sequencer().last_allocated(), 0);
    assert_eq!(p.published(Err(EventQueueFull::Bytes)), Err(EventQueueFull::Bytes));
    assert_eq!(p.published(Ok(())), Ok(1));
    assert_eq!(p.published(Ok(())), Ok(2));
    assert_eq!(p.sequencer().last_allocated(), 2);
    let mut s = EventSequencer::new();
    assert_eq!((s.allocate(), s.allocate()), (1, 2));
}

#[test]
fn a_claim_can_be_put_back_until_it_is_scheduled() {
    let tx = TransactionId { value: 1 };
    let mut guard = FinalizationGuard::new(tx, String::from("llm"), None, 1u8);
    guard.set_session_id(String::from("s"));
    let payload = guard.try_claim().unwrap();
    assert_eq!(payload.session_id, Some(String::from("s")));
    assert!(matches!(guard.claim_for_shutdown(5), ClaimStep::Wait));
    assert!(matches!(guard.claim_for_shutdown(0), ClaimStep::Nothing));
    ClaimedFinalization::new(payload).put_back(&mut guard);
    assert!(matches!(guard.claim_for_shutdown(5), ClaimStep::Claimed(_)));
    guard.mark_callback_scheduled();
    assert!(matches!(guard.claim_for_shutdown(5), ClaimStep::Nothing));
}

fn diagnostic(message: &str) -> TransactionDiagnostic {
    TransactionDiagnostic {
        diagnostic: SafeDiagnostic {
            code: String::from("c"),
            message: Some(String::from(message)),
        },
    }
}

#[test]
fn diagnostics_are_bounded() {
    let kept = bound_diagnostics(vec![diagnostic("grüße"), diagnostic("b"), diagnostic("c")], 2, 3);
    assert_eq!(kept.len(), 2);
    assert_eq!(kept[0].diagnostic.message, Some(String::from("gr")));
    let whole = bound_diagnostics(vec![diagnostic("ab")], 2, 3);
    assert_eq!(whole[0].diagnostic.message, Some(String::from("ab")));
    assert_eq!(bound_diagnostics(vec![diagnostic("x")], 0, 64).len(), 0);
    assert_eq!(bound_diagnostics(vec![diagnostic("x")], 1, 64).len(), 1);
}

#[test]
fn work_has_one_owner() {
    assert_eq!(mailbox_capacity(0), 1);
    assert!(matches!(
        spawn_boxed(MailboxAnswer::Taken::<u8>(Some(TaskId(3)))),
        Ok(TaskId(3))
    ));
    assert!(matches!(
        spawn_boxed(MailboxAnswer::Taken::<u8>(None)),
        Err(SpawnReject::Orphaned)
    ));
    assert!(matches!(
        spawn_boxed(MailboxAnswer::Full(5u8)),
        Err(SpawnReject::Busy { future: 5 })
    ));
    assert!(matches!(
        spawn_boxed(MailboxAnswer::Closed(5u8)),
        Err(SpawnReject::Rejected { future: 5 })
    ));
    let mut retry = BusyRetry::new(1);
    assert!(matches!(retry.before_attempt(true, 5u8), Err(SpawnReject::Rejected { future: 5 })));
    assert!(matches!(
        retry.after_attempt(Err(SpawnReject::Busy { future: 5u8 })),
        RetryStep::Again(5)
    ));
    assert!(matches!(
        retry.after_attempt(Err(SpawnReject::Busy { future: 5u8 })),
        RetryStep::Done(Err(_))
    ));
}

#[test]
fn the_gateway_listener_stops_with_the_runtime() {
    assert_eq!(
        listener_step(RuntimeState::Accepting, ListenerEvent::Ready),
        ListenerAction::Wait
    );
    assert_eq!(
        listener_step(RuntimeState::Quiescing, ListenerEvent::Woken),
        ListenerAction::Stop
    );
    assert_eq!(request_reply(RequestRun::Answered), McpReply::Forward);
    assert!(matches!(request_reply(RequestRun::Dropped), McpReply::Unavailable(_)));
}

#[test]
fn completions_are_adapted_for_callbacks() {
    let end = end_event(
        TransactionId { value: 1 },
        String::from("llm"),
        Some(String::from("s")),
        TransactionEndKind::Completed,
        3,
    );
    let cleanup =
        CleanupStatus::Pending { owned_tasks: 0, owned_processes: 0, cooperative_tools: 0 };
    let ok = adapt_completion(build_completion(end, TerminalEventDelivery::Published, cleanup));
    assert_eq!(ok.emitted_events, 3);
    assert_eq!(ok.event_delivery, EventDeliveryOutcome::Accepted);
    assert_eq!(ok.kind, TransactionEndKind::Completed);
}

#[test]
fn tasks_are_told_to_stop_by_transaction() {
    let mut tasks = TaskSupervisor::new();
    let one = TransactionId { value: 1 };
    let a = tasks.spawn(TaskClass::TransactionCoordinator(one));
    let b = tasks.spawn(TaskClass::Finalizer(one));
    let c = tasks.spawn(TaskClass::EventPublisher(TransactionId { value: 2 }));
    assert_eq!(tasks.registered_count(), 3);
    let stopped = tasks.abort_transaction_except_finalizer(&one);
    assert_eq!(stopped, vec![a]);
    assert!(tasks.join_next(a, TaskExit::Cancelled).is_some());
    assert!(tasks.join_next(a, TaskExit::Cancelled).is_none());
    assert_eq!(tasks.tasks_for(&one), vec![b]);
    let rest = tasks.abort_all();
    assert_eq!(rest.len(), 2);
    assert!(rest.contains(&c));
    assert!(tasks.deregister(b).is_some());
    assert!(!tasks.is_empty(true));
}
