use monoloop_loop::json::JsonText;
use monoloop_loop::identity::{ExchangeId, TransactionId};
use monoloop_loop::transaction::dispatcher::{
    reject_input, DispatchAction, DispatchCall, DispatchInput, DispatchOutcome, DispatchRequest,
    DispatcherLimits, GiveBack, InputValidationFailure, StartOutcome, ToolCompletion, ToolFailure,
    TransactionToolDispatcher,
};
use monoloop_loop::transaction::host_tools::{
    AbortableAtYieldHandler, RegisteredTool, ToolCancellationPolicy, ToolExecutionClass,
    ToolHandler, ToolSpec,
};
use monoloop_loop::transaction::limits::ToolLimits;
use monoloop_loop::transaction::types::{
    CanonicalToolError, CanonicalToolOutput, CanonicalToolResultOutcome, SessionKey,
    ToolLifecycleEvent,
};

const SECOND: u128 = 1_000_000_000;

fn key(session: &str) -> SessionKey {
    SessionKey { channel_id: String::from("llm"), session_id: String::from(session) }
}

fn spec(class: ToolExecutionClass, cancellation: ToolCancellationPolicy) -> ToolSpec {
    ToolSpec {
        id: String::from("bash-id"),
        name: String::from("bash"),
        description: String::from("runs a command"),
        input_schema: JsonText::parse("{}").unwrap(),
        limits: ToolLimits {
            max_input_bytes: 100,
            max_output_bytes: 200,
            max_concurrent: 1,
            execution_deadline: 5 * SECOND,
        },
        execution_class: class,
        cancellation,
    }
}

fn handler() -> ToolHandler {
    ToolHandler {
        handle: 1,
        supports_abort: false,
        supports_isolated_kill: false,
        os_process_isolated: false,
        runtime_owns_abortable_drive: false,
    }
}

fn cooperative() -> RegisteredTool {
    RegisteredTool::try_new(
        spec(
            ToolExecutionClass::CooperativeInProcess { grace: SECOND },
            ToolCancellationPolicy::Cooperative { grace: SECOND },
        ),
        handler(),
    )
    .ok()
    .unwrap()
}

fn abortable() -> RegisteredTool {
    RegisteredTool::try_new_abortable(
        spec(
            ToolExecutionClass::AbortableAtYield { grace: SECOND },
            ToolCancellationPolicy::Abortable,
        ),
        AbortableAtYieldHandler {
            handler: ToolHandler {
                supports_abort: true,
                runtime_owns_abortable_drive: true,
                ..handler()
            },
        },
    )
    .ok()
    .unwrap()
}

fn dispatcher(tool: RegisteredTool) -> TransactionToolDispatcher {
    TransactionToolDispatcher::with_limits(
        TransactionId { value: 1 },
        key("s"),
        vec![tool],
        DispatcherLimits {
            max_concurrent_tools: 1,
            max_queued_tools: 1,
            max_tool_payload_bytes: 50,
            max_tool_output_bytes: 1000,
        },
    )
}

fn request(name: &str) -> DispatchRequest {
    DispatchRequest {
        exchange_id: ExchangeId { value: 2 },
        tool_action_id: String::from("a1"),
        tool_name: String::from(name),
        provider_tool_call_id: String::from("call_1"),
        request_ordinal: 3,
        arguments_json: String::from("{}"),
    }
}

fn begin(tool: RegisteredTool) -> DispatchCall {
    let (call, action) = dispatcher(tool).dispatch(request("bash")).ok().expect("allowed");
    assert!(matches!(action, DispatchAction::Enqueue));
    call
}

fn running(tool: RegisteredTool) -> DispatchCall {
    let mut call = begin(tool);
    assert!(matches!(
        call.step(DispatchInput::Enqueued(true)),
        DispatchAction::CheckInput { max_bytes: 50 }
    ));
    assert!(matches!(
        call.step(DispatchInput::InputChecked(Ok(()))),
        DispatchAction::Acquire { budget: 50_000_000 }
    ));
    assert!(matches!(call.step(DispatchInput::Acquired(true)), DispatchAction::Start));
    let started = StartOutcome::Running { has_kill: true };
    assert!(matches!(
        call.step(DispatchInput::Started(started)),
        DispatchAction::Await { deadline } if deadline == 5 * SECOND
    ));
    call
}

fn text(s: &str) -> ToolCompletion {
    ToolCompletion::Succeeded(CanonicalToolOutput::Text(String::from(s)))
}

#[test]
fn a_call_runs_to_its_result() {
    let mut call = running(cooperative());
    let completion = match call.step(DispatchInput::Completed(text("done"))) {
        DispatchAction::CheckOutput { completion, max_bytes } => {
            assert_eq!(max_bytes, 200);
            completion
        }
        _ => panic!("expected the output to be checked"),
    };
    match call.step(DispatchInput::OutputChecked(Some(completion), key("s"))) {
        DispatchAction::Finish {
            outcome: DispatchOutcome::Canonical { result, lifecycle },
            give_back,
        } => {
            assert_eq!(result.tool_id, "bash-id");
            assert_eq!(result.provider_tool_call_id, "call_1");
            assert_eq!(result.request_ordinal, 3);
            assert!(matches!(
                result.outcome,
                CanonicalToolResultOutcome::Succeeded(CanonicalToolOutput::Text(ref t)) if t == "done"
            ));
            assert!(matches!(lifecycle[0], ToolLifecycleEvent::Started { .. }));
            assert!(matches!(lifecycle[1], ToolLifecycleEvent::Completed { .. }));
            assert_eq!(lifecycle.len(), 2);
            assert_eq!(give_back, GiveBack::Nothing);
        }
        _ => panic!("expected a result"),
    }
    assert!(matches!(call.step(DispatchInput::Cancelled), DispatchAction::Ignore));
}

#[test]
fn a_tool_outside_the_set_is_rejected() {
    match dispatcher(cooperative()).dispatch(request("rm")) {
        Err(DispatchOutcome::Rejected { code, message, lifecycle, .. }) => {
            assert_eq!(code, "tool_not_allowed");
            assert_eq!(message, "tool not in resolved set");
            assert_eq!(lifecycle.len(), 0);
        }
        _ => panic!("expected a rejection"),
    }
}

#[test]
fn a_full_queue_and_missing_places_are_rejected() {
    let mut call = begin(cooperative());
    assert!(matches!(
        call.step(DispatchInput::Enqueued(false)),
        DispatchAction::Finish {
            outcome: DispatchOutcome::Rejected { code: "tool_queue_full", .. },
            give_back: GiveBack::Nothing,
        }
    ));
    let mut call = begin(cooperative());
    call.step(DispatchInput::Enqueued(true));
    call.step(DispatchInput::InputChecked(Ok(())));
    assert!(matches!(
        call.step(DispatchInput::Acquired(false)),
        DispatchAction::Finish {
            outcome: DispatchOutcome::Rejected { code: "tool_capacity_exceeded", .. },
            give_back: GiveBack::QueuePlace,
        }
    ));
}

#[test]
fn bad_input_is_rejected() {
    let mut call = begin(cooperative());
    call.step(DispatchInput::Enqueued(true));
    let code = reject_input(InputValidationFailure::InvalidJson).0;
    match call.step(DispatchInput::InputChecked(Err(InputValidationFailure::InvalidJson))) {
        DispatchAction::Finish {
            outcome: DispatchOutcome::Rejected { code: c, .. },
            give_back: GiveBack::QueuePlace,
        } => assert_eq!(c, code),
        _ => panic!("expected a rejection"),
    }
    assert_ne!(
        reject_input(InputValidationFailure::OversizedInput),
        reject_input(InputValidationFailure::SchemaInvalid)
    );
}

#[test]
fn a_start_that_fails_is_told() {
    let mut call = begin(cooperative());
    call.step(DispatchInput::Enqueued(true));
    call.step(DispatchInput::InputChecked(Ok(())));
    call.step(DispatchInput::Acquired(true));
    let refused = StartOutcome::Rejected(String::from("busy"));
    match call.step(DispatchInput::Started(refused)) {
        DispatchAction::Finish {
            outcome: DispatchOutcome::RuntimeFailed { code, lifecycle, .. },
            give_back,
        } => {
            assert_eq!(code, "start_rejected:busy");
            assert!(matches!(
                &lifecycle[1],
                ToolLifecycleEvent::RuntimeFailed { code, .. } if code == "tool_start_rejected"
            ));
            assert_eq!(give_back, GiveBack::RunPlace);
        }
        _ => panic!("expected a failure"),
    }
}

#[test]
fn a_cancelled_call_is_given_its_grace_then_fails() {
    let mut call = running(cooperative());
    assert!(matches!(
        call.step(DispatchInput::Cancelled),
        DispatchAction::Terminate { kill: false, budget } if budget == SECOND
    ));
    let completion = match call.step(DispatchInput::Expired) {
        DispatchAction::CheckOutput { completion, .. } => completion,
        _ => panic!("expected a failure to be checked"),
    };
    assert!(matches!(
        completion,
        ToolCompletion::RuntimeFailed(ToolFailure::DeadlineExceeded)
    ));
    assert!(matches!(
        call.step(DispatchInput::OutputChecked(Some(completion), key("s"))),
        DispatchAction::Finish { outcome: DispatchOutcome::RuntimeFailed { .. }, .. }
    ));
}

#[test]
fn an_abortable_call_is_killed_at_once() {
    let mut call = running(abortable());
    assert!(matches!(
        call.step(DispatchInput::Expired),
        DispatchAction::Terminate { kill: true, .. }
    ));
}

#[test]
fn a_call_without_a_kill_handle_is_joined_and_fails() {
    let mut call = begin(abortable());
    call.step(DispatchInput::Enqueued(true));
    call.step(DispatchInput::InputChecked(Ok(())));
    call.step(DispatchInput::Acquired(true));
    let started = StartOutcome::Running { has_kill: false };
    assert!(matches!(
        call.step(DispatchInput::Started(started)),
        DispatchAction::CancelAndJoin
    ));
    assert!(matches!(
        call.step(DispatchInput::Completed(text("late"))),
        DispatchAction::Finish { outcome: DispatchOutcome::RuntimeFailed { .. }, .. }
    ));
}

#[test]
fn output_against_the_contract_fails() {
    let mut call = running(cooperative());
    let failed = ToolCompletion::DomainFailed(CanonicalToolError {
        code: String::from("e"),
        message: String::from("m"),
        data: None,
    });
    call.step(DispatchInput::Completed(failed));
    match call.step(DispatchInput::OutputChecked(None, key("s"))) {
        DispatchAction::Finish {
            outcome: DispatchOutcome::RuntimeFailed { code, .. }, ..
        } => assert_eq!(code, "output_contract_violated"),
        _ => panic!("expected a failure"),
    }
}

#[test]
fn results_carry_the_session_that_was_bound_last() {
    let mut d = dispatcher(cooperative());
    assert_eq!(d.transaction_id(), TransactionId { value: 1 });
    assert_eq!(d.tools().len(), 1);
    d.rebind_session(key("claimed"));
    assert_eq!(d.session_key().session_id, "claimed");
    let (mut call, _) = d.dispatch(request("bash")).ok().unwrap();
    d.rebind_session(key("later"));
    call.step(DispatchInput::Enqueued(true));
    call.step(DispatchInput::InputChecked(Ok(())));
    call.step(DispatchInput::Acquired(true));
    call.step(DispatchInput::Started(StartOutcome::Running { has_kill: false }));
    let done = match call.step(DispatchInput::Completed(text("x"))) {
        DispatchAction::CheckOutput { completion, .. } => completion,
        _ => panic!("expected the output to be checked"),
    };
    match call.step(DispatchInput::OutputChecked(Some(done), d.session_key())) {
        DispatchAction::Finish {
            outcome: DispatchOutcome::Canonical { result, .. }, ..
        } => assert_eq!(result.session_key.session_id, "later"),
        _ => panic!("expected a result"),
    }
}
