//! What the outcome of a tool call says of the call.

use crate::transaction::dispatcher::{
    can_be_ended, carries_out, failure_code, input_refusal, is_subject, next, DispatchAction,
    DispatchInput, DispatchOutcome, DispatchPhase, DispatchRequest, DispatchSubject, GiveBack,
    InputValidationFailure, StartOutcome, ToolCompletion, ToolFailure, TransactionToolDispatcher,
    ACQUIRE_BUDGET_NANOS, JOIN_GRACE_NANOS,
};
use crate::transaction::host_tools::{RegisteredTool, ToolCancellationPolicy};
use crate::transaction::types::{
    CanonicalToolResult, CanonicalToolResultOutcome, SessionKey, ToolLifecycleEvent,
};
use vstd::prelude::*;

verus! {

/// Whether an action answers a report that a call got in a phase.
pub open spec fn answers(
    a: DispatchAction,
    s: DispatchSubject,
    phase: DispatchPhase,
    input: DispatchInput,
) -> bool {
    carries_out(a, s, phase, next(phase, s.policy, s.handler, input).1)
}

/// Whether events begin with the start of the call that a request asked for.
pub open spec fn begins_with_start(
    lifecycle: Seq<ToolLifecycleEvent>,
    s: DispatchSubject,
) -> bool {
    &&& lifecycle.len() > 0
    &&& lifecycle[0] matches ToolLifecycleEvent::Started {
        tool_action_id,
        tool_id,
        tool_name,
        provider_tool_call_id,
        request_ordinal,
    } && {
        &&& tool_action_id == s.request.tool_action_id
        &&& tool_id == s.tool_id
        &&& tool_name == s.request.tool_name
        &&& provider_tool_call_id == s.request.provider_tool_call_id
        &&& request_ordinal == s.request.request_ordinal
    }
}

/// Whether a result is correlated to the request that it answers.
pub open spec fn is_correlated(r: CanonicalToolResult, s: DispatchSubject) -> bool {
    &&& r.transaction_id == s.transaction_id
    &&& r.exchange_id == s.request.exchange_id
    &&& r.tool_action_id == s.request.tool_action_id
    &&& r.tool_id == s.tool_id
    &&& r.provider_tool_call_id == s.request.provider_tool_call_id
    &&& r.request_ordinal == s.request.request_ordinal
}

/// The outcome says how the call completed, and nothing else: it is a success
/// with an output if and only if the completion that passed the check is that
/// success, a failure of the tool's own with an error if and only if the
/// completion is that failure, and a failure of the runtime if and only if the
/// call could not be run to its end or its output is not what was declared.
pub proof fn outcome_tells_the_completion(
    a: DispatchAction,
    s: DispatchSubject,
    checked: Option<ToolCompletion>,
    session: SessionKey,
)
    requires
        answers(
            a,
            s,
            DispatchPhase::CheckingOutput,
            DispatchInput::OutputChecked(checked, session),
        ),
    ensures
        a is Finish,
        checked matches Some(ToolCompletion::Succeeded(o)) ==> a->outcome matches
            DispatchOutcome::Canonical { result, .. } && result.outcome
            == CanonicalToolResultOutcome::Succeeded(o),
        a->outcome matches DispatchOutcome::Canonical { result, .. } ==> (result.outcome matches
            CanonicalToolResultOutcome::Succeeded(o) ==> checked == Some(
            ToolCompletion::Succeeded(o),
        )),
        checked matches Some(ToolCompletion::DomainFailed(e)) ==> a->outcome matches
            DispatchOutcome::Canonical { result, .. } && result.outcome
            == CanonicalToolResultOutcome::DomainFailed(e),
        a->outcome matches DispatchOutcome::Canonical { result, .. } ==> (result.outcome matches
            CanonicalToolResultOutcome::DomainFailed(e) ==> checked == Some(
            ToolCompletion::DomainFailed(e),
        )),
        a->outcome is RuntimeFailed <==> (checked is None || checked->0 is RuntimeFailed),
        !(a->outcome is Rejected),
{
}

/// What the outcome tells is told to the outside too: a start, then the end, with
/// the very result, in the words of the request, for the session that the call
/// belongs to by now; or with the code of the failure.
pub proof fn outcome_is_told_in_events(
    a: DispatchAction,
    s: DispatchSubject,
    checked: Option<ToolCompletion>,
    session: SessionKey,
)
    requires
        answers(
            a,
            s,
            DispatchPhase::CheckingOutput,
            DispatchInput::OutputChecked(checked, session),
        ),
    ensures
        a->outcome matches DispatchOutcome::Canonical { result, lifecycle } ==> {
            &&& is_correlated(result, s)
            &&& result.session_key == session
            &&& lifecycle@.len() == 2
            &&& begins_with_start(lifecycle@, s)
            &&& lifecycle@[1] == (ToolLifecycleEvent::Completed { result })
        },
        a->outcome matches DispatchOutcome::RuntimeFailed {
            tool_action_id,
            tool_id,
            code,
            lifecycle,
        } ==> {
            &&& tool_action_id == s.request.tool_action_id
            &&& tool_id == Some(s.tool_id)
            &&& code@ == (match checked {
                Some(ToolCompletion::RuntimeFailed(f)) => failure_code(f),
                _ => "output_contract_violated"@,
            })
            &&& lifecycle@.len() == 2
            &&& begins_with_start(lifecycle@, s)
            &&& lifecycle@[1] matches ToolLifecycleEvent::RuntimeFailed {
                tool_action_id: failed_action,
                tool_id: failed_tool,
                code: told,
            } && failed_action == s.request.tool_action_id && failed_tool == s.tool_id && told@
                == code@
        },
{
}

/// Failures are told apart by their codes.
pub proof fn failures_are_told_apart(f: ToolFailure, g: ToolFailure)
    ensures
        failure_code(f) == failure_code(g) ==> f == g,
        failure_code(ToolFailure::Panicked) == "panicked"@,
        failure_code(ToolFailure::CompletionLost) == "completion_lost"@,
        failure_code(ToolFailure::OutputContractViolated) == "output_contract_violated"@,
        failure_code(ToolFailure::TerminationFailed) == "termination_failed"@,
        failure_code(ToolFailure::DeadlineExceeded) == "deadline_exceeded"@,
{
    reveal_strlit("panicked");
    reveal_strlit("completion_lost");
    reveal_strlit("output_contract_violated");
    reveal_strlit("termination_failed");
    reveal_strlit("deadline_exceeded");
    assert("panicked"@.len() == 8);
    assert("completion_lost"@.len() == 15);
    assert("output_contract_violated"@.len() == 24);
    assert("termination_failed"@.len() == 18);
    assert("deadline_exceeded"@.len() == 17);
}

/// A call that nothing stands against is run: it takes a place in the queue, its
/// arguments are checked within its bound, it takes a place to run, it is started,
/// it gets its time, and what it completes with is what is checked, within its
/// bound.
pub proof fn call_is_run(
    s: DispatchSubject,
    has_kill: bool,
    completion: ToolCompletion,
    a1: DispatchAction,
    a2: DispatchAction,
    a3: DispatchAction,
    a4: DispatchAction,
    a5: DispatchAction,
)
    requires
        can_be_ended(s.policy, s.handler),
        s.policy is Cooperative || has_kill,
        answers(a1, s, DispatchPhase::Enqueuing, DispatchInput::Enqueued(true)),
        answers(a2, s, DispatchPhase::CheckingInput, DispatchInput::InputChecked(Ok(()))),
        answers(a3, s, DispatchPhase::Acquiring, DispatchInput::Acquired(true)),
        answers(
            a4,
            s,
            DispatchPhase::Starting,
            DispatchInput::Started(StartOutcome::Running { has_kill }),
        ),
        answers(a5, s, DispatchPhase::Running, DispatchInput::Completed(completion)),
    ensures
        a1 == (DispatchAction::CheckInput { max_bytes: s.max_payload }),
        a2 == (DispatchAction::Acquire { budget: ACQUIRE_BUDGET_NANOS }),
        a3 == DispatchAction::Start,
        a4 == (DispatchAction::Await { deadline: s.deadline }),
        a5 == (DispatchAction::CheckOutput { completion, max_bytes: s.max_output }),
        next(DispatchPhase::Enqueuing, s.policy, s.handler, DispatchInput::Enqueued(true)).0
            == DispatchPhase::CheckingInput,
        next(
            DispatchPhase::CheckingInput,
            s.policy,
            s.handler,
            DispatchInput::InputChecked(Ok(())),
        ).0 == DispatchPhase::Acquiring,
        next(DispatchPhase::Acquiring, s.policy, s.handler, DispatchInput::Acquired(true)).0
            == DispatchPhase::Starting,
        next(
            DispatchPhase::Starting,
            s.policy,
            s.handler,
            DispatchInput::Started(StartOutcome::Running { has_kill }),
        ).0 == DispatchPhase::Running,
        next(
            DispatchPhase::Running,
            s.policy,
            s.handler,
            DispatchInput::Completed(completion),
        ).0 == DispatchPhase::CheckingOutput,
{
}

/// Whether a call was turned away with a code, and told nothing but perhaps its
/// start.
pub open spec fn turned_away(
    a: DispatchAction,
    s: DispatchSubject,
    why: &'static str,
    announced: bool,
    held: GiveBack,
) -> bool {
    a matches DispatchAction::Finish { outcome, give_back } && give_back == held && (
    outcome matches DispatchOutcome::Rejected { tool_action_id, code, lifecycle, .. } && {
        &&& tool_action_id == s.request.tool_action_id
        &&& code == why
        &&& lifecycle@.len() == (if announced {
            1int
        } else {
            0
        })
        &&& announced ==> begins_with_start(lifecycle@, s)
    })
}

/// A call for which there is no place, or whose arguments are refused, is turned
/// away without a failure of the transaction; it gives back what it holds, and it
/// was never started.
pub proof fn call_without_a_place_is_turned_away(
    a: DispatchAction,
    s: DispatchSubject,
    f: InputValidationFailure,
)
    ensures
        answers(a, s, DispatchPhase::Enqueuing, DispatchInput::Enqueued(false)) ==> turned_away(
            a,
            s,
            "tool_queue_full",
            false,
            GiveBack::Nothing,
        ),
        answers(a, s, DispatchPhase::CheckingInput, DispatchInput::InputChecked(Err(f)))
            ==> turned_away(a, s, input_refusal(f).0, false, GiveBack::QueuePlace),
        answers(a, s, DispatchPhase::Acquiring, DispatchInput::Acquired(false)) ==> turned_away(
            a,
            s,
            "tool_capacity_exceeded",
            false,
            GiveBack::QueuePlace,
        ),
        answers(
            a,
            s,
            DispatchPhase::Starting,
            DispatchInput::Started(StartOutcome::CapacityExceeded),
        ) ==> turned_away(a, s, "tool_capacity_exceeded", true, GiveBack::RunPlace),
{
}

/// Each fault of the arguments has its own code.
pub proof fn refusals_are_told_apart()
    ensures
        input_refusal(InputValidationFailure::OversizedInput).0 == "oversized_input",
        input_refusal(InputValidationFailure::InvalidJson).0 == "invalid_json",
        input_refusal(InputValidationFailure::DepthExceeded).0 == "json_depth_exceeded",
        input_refusal(InputValidationFailure::SchemaInvalid).0 == "schema_invalid",
{
}

/// Whether a call failed at the runtime with a code, and holds its place to run.
pub open spec fn failed_with(a: DispatchAction, s: DispatchSubject, why: Seq<char>) -> bool {
    a matches DispatchAction::Finish { outcome, give_back } && give_back == GiveBack::RunPlace && (
    outcome matches DispatchOutcome::RuntimeFailed { tool_action_id, tool_id, code, lifecycle } && {
        &&& tool_action_id == s.request.tool_action_id
        &&& tool_id == Some(s.tool_id)
        &&& code@ == why
        &&& lifecycle@.len() == 2
        &&& begins_with_start(lifecycle@, s)
        &&& lifecycle@[1] is RuntimeFailed
    })
}

/// A tool that refuses to start, or panics, fails at the runtime with its reason;
/// so does one that could not be ended, which is never started or is joined at
/// once.
pub proof fn failed_start_is_told(
    a: DispatchAction,
    s: DispatchSubject,
    reason: String,
    completion: ToolCompletion,
)
    ensures
        answers(
            a,
            s,
            DispatchPhase::Starting,
            DispatchInput::Started(StartOutcome::Rejected(reason)),
        ) ==> failed_with(a, s, "start_rejected:"@ + reason@),
        answers(
            a,
            s,
            DispatchPhase::Starting,
            DispatchInput::Started(StartOutcome::Panicked),
        ) ==> failed_with(a, s, "panicked"@),
        answers(a, s, DispatchPhase::Acquiring, DispatchInput::Acquired(true)) && !can_be_ended(
            s.policy,
            s.handler,
        ) ==> failed_with(a, s, "missing_kill_handle"@),
        answers(
            a,
            s,
            DispatchPhase::Starting,
            DispatchInput::Started(StartOutcome::Running { has_kill: false }),
        ) && !(s.policy is Cooperative) ==> a == DispatchAction::CancelAndJoin,
        answers(
            a,
            s,
            DispatchPhase::JoiningUnkillable,
            DispatchInput::Completed(completion),
        ) ==> failed_with(a, s, "missing_kill_handle"@),
{
}

/// Whether a tool can be ended goes by its policy: one that is to be aborted must
/// support that, one that is to be killed must support that, and one that
/// cooperates always can.
pub proof fn ending_goes_by_the_policy(s: DispatchSubject)
    ensures
        s.policy is Abortable ==> can_be_ended(s.policy, s.handler) == s.handler.supports_abort,
        s.policy is IsolatedKillable ==> can_be_ended(s.policy, s.handler)
            == s.handler.supports_isolated_kill,
        s.policy is Cooperative ==> can_be_ended(s.policy, s.handler),
{
}

/// A call that is cancelled or out of time is ended as its policy says: aborted at
/// once, or asked and given its grace; and if it is isolated and did not end, it
/// is killed.
pub proof fn call_is_ended_by_its_policy(a: DispatchAction, s: DispatchSubject, cancelled: bool)
    requires
        answers(
            a,
            s,
            DispatchPhase::Running,
            if cancelled {
                DispatchInput::Cancelled
            } else {
                DispatchInput::Expired
            },
        ),
    ensures
        s.policy is Abortable ==> a == (DispatchAction::Terminate {
            kill: true,
            budget: JOIN_GRACE_NANOS,
        }),
        s.policy matches ToolCancellationPolicy::Cooperative { grace } ==> a == (
        DispatchAction::Terminate { kill: false, budget: grace }),
        s.policy matches ToolCancellationPolicy::IsolatedKillable { grace } ==> a == (
        DispatchAction::Terminate { kill: false, budget: grace }),
{
}

/// A call that was told to end and completes is told by its completion; one that
/// does not end in time is killed where it can be, and else fails: out of time, or
/// as one that could not be ended.
pub proof fn call_told_to_end_is_told(
    a: DispatchAction,
    s: DispatchSubject,
    killed: bool,
    completion: ToolCompletion,
)
    ensures
        answers(
            a,
            s,
            DispatchPhase::Terminating { killed },
            DispatchInput::Completed(completion),
        ) ==> a == (DispatchAction::CheckOutput { completion, max_bytes: s.max_output }),
        answers(a, s, DispatchPhase::Terminating { killed }, DispatchInput::Expired) ==> {
            &&& s.policy is IsolatedKillable && !killed ==> a == (DispatchAction::KillAndAwait {
                budget: JOIN_GRACE_NANOS,
            })
            &&& s.policy is IsolatedKillable && killed ==> a == (DispatchAction::CheckOutput {
                completion: ToolCompletion::RuntimeFailed(ToolFailure::TerminationFailed),
                max_bytes: s.max_output,
            })
            &&& !(s.policy is IsolatedKillable) ==> a == (DispatchAction::CheckOutput {
                completion: ToolCompletion::RuntimeFailed(ToolFailure::DeadlineExceeded),
                max_bytes: s.max_output,
            })
        },
{
}

/// A call is about the tool that was asked for: its identity, its way to be ended,
/// its time; and its arguments and its output are bounded by the tool and by the
/// transaction, whichever is tighter.
pub proof fn call_is_about_its_tool(
    s: DispatchSubject,
    d: TransactionToolDispatcher,
    request: DispatchRequest,
    t: RegisteredTool,
)
    requires
        is_subject(s, d, request, t),
    ensures
        s.request == request,
        s.transaction_id == d.transaction(),
        s.session_key == d.session(),
        s.tool_id == t.tool().id,
        s.policy == t.tool().cancellation,
        s.handler == t.linked(),
        s.deadline == t.tool().limits.execution_deadline,
        s.max_payload <= t.tool().limits.max_input_bytes,
        s.max_payload <= d.payload_cap(),
        s.max_payload == t.tool().limits.max_input_bytes || s.max_payload == d.payload_cap(),
        s.max_output <= t.tool().limits.max_output_bytes,
        s.max_output <= d.output_cap(),
        s.max_output == t.tool().limits.max_output_bytes || s.max_output == d.output_cap(),
{
}

/// A tool is called if and only if it is among those of the transaction.
pub proof fn only_allowed_tools_are_called(
    d: TransactionToolDispatcher,
    request: DispatchRequest,
    r: Result<(crate::transaction::dispatcher::DispatchCall, DispatchAction), DispatchOutcome>,
)
    requires
        call_ensures(TransactionToolDispatcher::dispatch, (&d, request), r),
    ensures
        r is Ok <==> exists|i: int|
            0 <= i < d.allowed().len() && (#[trigger] d.allowed()[i]).tool().name@
                == request.tool_name@,
        r matches Ok(begun) ==> begun.1 == DispatchAction::Enqueue && begun.0.about().request
            == request && exists|i: int|
            0 <= i < d.allowed().len() && (#[trigger] d.allowed()[i]).tool().name@
                == request.tool_name@ && begun.0.about().tool_id == d.allowed()[i].tool().id
                && begun.0.about().handler == d.allowed()[i].linked(),
        r matches Err(o) ==> (o matches DispatchOutcome::Rejected { code, lifecycle, .. } && code
            == "tool_not_allowed" && lifecycle@.len() == 0),
{
    if r is Ok {
        let begun = r->Ok_0;
        let i = choose|i: int|
            #[trigger] crate::transaction::dispatcher::first_named(
                d.allowed(),
                request.tool_name@,
                i,
            ) && is_subject(begun.0.about(), d, request, d.allowed()[i]);
        assert(d.allowed()[i].tool().name@ == request.tool_name@);
    } else {
        assert(!crate::transaction::dispatcher::is_named(d.allowed(), request.tool_name@));
    }
}

} // verus!
