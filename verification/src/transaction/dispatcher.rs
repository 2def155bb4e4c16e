//! The one path on which a linked tool is run: allowlist, input check, place,
//! start, end, output check.
//!
//! [`DispatchCall::step`] is the machine of one call. The driver performs the
//! action that a step returns and reports what happened.

use crate::contracts::ToolActionId;
use crate::identity::{ExchangeId, TransactionId};
use crate::text::join;
use crate::transaction::host_tools::{
    RegisteredTool, ToolCancellationPolicy, ToolHandler, ToolSpec,
};
use crate::transaction::types::{
    CanonicalToolError, CanonicalToolOutput, CanonicalToolResult, CanonicalToolResultOutcome,
    ProviderToolCallId, SessionKey, ToolId, ToolLifecycleEvent, ToolName,
};
use vstd::prelude::*;
use vstd::string::StringExecFns;

verus! {

/// Time that a killed worker gets to end: 200 ms.
pub const JOIN_GRACE_NANOS: u128 = 200_000_000;

/// Time that a call waits for a place: 50 ms.
pub const ACQUIRE_BUDGET_NANOS: u128 = 50_000_000;

/// Most bytes of an error message that a tool may give.
pub const MAX_ERROR_MESSAGE_BYTES: usize = 1024;

/// Request to dispatch one complete tool call.
#[derive(Clone, Debug)]
pub struct DispatchRequest {
    /// Exchange owning this call.
    pub exchange_id: ExchangeId,
    /// Internal action id.
    pub tool_action_id: ToolActionId,
    /// Public tool name as requested.
    pub tool_name: ToolName,
    /// Provider correlation id preserved exactly.
    pub provider_tool_call_id: ProviderToolCallId,
    /// Model-declared order.
    pub request_ordinal: u32,
    /// Complete JSON argument payload.
    pub arguments_json: String,
}

/// Outcome of a dispatch attempt.
#[allow(inconsistent_fields)]
#[derive(Clone, Debug)]
pub enum DispatchOutcome {
    /// Success or declared domain failure.
    Canonical {
        /// Validated result.
        result: CanonicalToolResult,
        /// Events: started, completed.
        lifecycle: Vec<ToolLifecycleEvent>,
    },
    /// The call was not accepted; no failure of the transaction.
    Rejected {
        /// Action id.
        tool_action_id: ToolActionId,
        /// Reason code.
        code: &'static str,
        /// Message.
        message: &'static str,
        /// Events: started, where it was accepted at first.
        lifecycle: Vec<ToolLifecycleEvent>,
    },
    /// The call could not be run to its end.
    RuntimeFailed {
        /// Action id.
        tool_action_id: ToolActionId,
        /// Tool id.
        tool_id: Option<ToolId>,
        /// Failure code.
        code: String,
        /// Events: started, failed.
        lifecycle: Vec<ToolLifecycleEvent>,
    },
}

/// Capacity and payload bounds for one transaction dispatcher.
#[derive(Clone, Copy, Debug, PartialEq, Eq, Structural)]
pub struct DispatcherLimits {
    /// Max concurrent tool executions for this transaction.
    pub max_concurrent_tools: usize,
    /// Max queued tool starts for this transaction.
    pub max_queued_tools: usize,
    /// Transaction-wide payload cap; applied as min with per-tool limit.
    pub max_tool_payload_bytes: usize,
    /// Transaction-wide output cap; applied as min with per-tool limit.
    pub max_tool_output_bytes: usize,
}

impl Default for DispatcherLimits {
    fn default() -> (r: Self)
        ensures
            r == (DispatcherLimits {
                max_concurrent_tools: 16,
                max_queued_tools: 64,
                max_tool_payload_bytes: usize::MAX,
                max_tool_output_bytes: usize::MAX,
            }),
    {
        DispatcherLimits {
            max_concurrent_tools: 16,
            max_queued_tools: 64,
            max_tool_payload_bytes: usize::MAX,
            max_tool_output_bytes: usize::MAX,
        }
    }
}

/// Why arguments are refused.
#[derive(Clone, Copy, Debug, PartialEq, Eq, Structural)]
pub enum InputValidationFailure {
    /// Too many bytes.
    OversizedInput,
    /// No JSON.
    InvalidJson,
    /// Nested too deeply.
    DepthExceeded,
    /// Not what the schema asks for.
    SchemaInvalid,
}

/// Why a call could not be run to its end.
#[derive(Clone, Copy, Debug, PartialEq, Eq, Structural)]
pub enum ToolFailure {
    /// It panicked.
    Panicked,
    /// Its completion was lost.
    CompletionLost,
    /// Its output is not what it declared.
    OutputContractViolated,
    /// It could not be ended.
    TerminationFailed,
    /// Out of time.
    DeadlineExceeded,
}

/// How a call ended.
#[derive(Clone, Debug)]
pub enum ToolCompletion {
    /// It answered.
    Succeeded(CanonicalToolOutput),
    /// It failed in its own domain.
    DomainFailed(CanonicalToolError),
    /// It could not be run to its end.
    RuntimeFailed(ToolFailure),
}

/// How starting a call went.
#[derive(Clone, Debug)]
pub enum StartOutcome {
    /// It runs; with a handle to kill it or without.
    Running {
        /// Whether there is a handle to kill it.
        has_kill: bool,
    },
    /// The implementation has no place.
    CapacityExceeded,
    /// The implementation refused, in words.
    Rejected(String),
    /// The implementation panicked.
    Panicked,
}

/// What the machine of a call waits for.
#[derive(Clone, Copy, Debug, PartialEq, Eq, Structural)]
pub enum DispatchPhase {
    /// A place in the queue.
    Enqueuing,
    /// The input check.
    CheckingInput,
    /// A place to run.
    Acquiring,
    /// The start.
    Starting,
    /// The end of a worker that cannot be killed though it should be.
    JoiningUnkillable,
    /// The completion.
    Running,
    /// The completion, after the worker was told to end.
    Terminating {
        /// Whether it was killed.
        killed: bool,
    },
    /// The output check.
    CheckingOutput,
    /// Nothing.
    Done,
}

/// What the driver reports.
pub enum DispatchInput {
    /// Whether there was a place in the queue.
    Enqueued(bool),
    /// The input check.
    InputChecked(Result<(), InputValidationFailure>),
    /// Whether there was a place to run.
    Acquired(bool),
    /// The start.
    Started(StartOutcome),
    /// The worker ended.
    Completed(ToolCompletion),
    /// The caller cancelled.
    Cancelled,
    /// The time of the pending action is over.
    Expired,
    /// The output check, with the session that the dispatcher is bound to by
    /// now; `None` means that the output is not what was declared.
    OutputChecked(Option<ToolCompletion>, SessionKey),
}

/// What the driver has to do.
pub enum DispatchAction {
    /// Take a place in the queue.
    Enqueue,
    /// Check the arguments against schema and bound.
    CheckInput {
        /// Most bytes.
        max_bytes: usize,
    },
    /// Leave the queue for a place to run.
    Acquire {
        /// Time for it.
        budget: u128,
    },
    /// Start the implementation.
    Start,
    /// Tell the worker to end, and wait for it without a bound.
    CancelAndJoin,
    /// Wait for the worker, the caller's cancellation or the deadline.
    Await {
        /// Time for the call.
        deadline: u128,
    },
    /// Tell the worker to end, kill it or not, and wait.
    Terminate {
        /// Whether to kill it.
        kill: bool,
        /// How long to wait.
        budget: u128,
    },
    /// Kill the worker and wait.
    KillAndAwait {
        /// How long to wait.
        budget: u128,
    },
    /// Give the place back, then check the completion against contract and bound.
    CheckOutput {
        /// The completion.
        completion: ToolCompletion,
        /// Most bytes.
        max_bytes: usize,
    },
    /// Give back what is held, and stop.
    Finish {
        /// Outcome.
        outcome: DispatchOutcome,
        /// What is held.
        give_back: GiveBack,
    },
    /// Nothing: the report answers no pending action.
    Ignore,
}

/// What a finished call still holds.
#[derive(Clone, Copy, Debug, PartialEq, Eq, Structural)]
pub enum GiveBack {
    /// Nothing.
    Nothing,
    /// A place in the queue.
    QueuePlace,
    /// A place to run.
    RunPlace,
}

/// What a call holds in each phase.
pub open spec fn held_in(phase: DispatchPhase) -> GiveBack {
    match phase {
        DispatchPhase::Enqueuing => GiveBack::Nothing,
        DispatchPhase::CheckingInput => GiveBack::QueuePlace,
        DispatchPhase::Acquiring => GiveBack::QueuePlace,
        DispatchPhase::Starting => GiveBack::RunPlace,
        DispatchPhase::JoiningUnkillable => GiveBack::RunPlace,
        DispatchPhase::Running => GiveBack::RunPlace,
        DispatchPhase::Terminating { .. } => GiveBack::RunPlace,
        DispatchPhase::CheckingOutput => GiveBack::Nothing,
        DispatchPhase::Done => GiveBack::Nothing,
    }
}

/// How a call ends, before it is put into an outcome.
pub enum DispatchVerdict {
    /// Not accepted, with code and message; after the start was announced or before.
    Rejected(&'static str, &'static str, bool),
    /// Not run to its end, with the code of the outcome and that of the event.
    Failed(Seq<char>, Seq<char>),
    /// With a result.
    Result(CanonicalToolResultOutcome, SessionKey),
}

/// What a step decides.
pub enum DispatchDecision {
    /// Check the input.
    CheckInput,
    /// Wait for a place to run.
    Acquire,
    /// Start.
    Start,
    /// Tell the worker to end, and join it.
    CancelAndJoin,
    /// Wait for the worker.
    Await,
    /// Tell the worker to end.
    Terminate(bool, u128),
    /// Kill the worker.
    KillAndAwait(u128),
    /// Check the output.
    CheckOutput(ToolCompletion),
    /// Finish.
    Finish(DispatchVerdict),
    /// Nothing.
    Ignore,
}

/// Code and message for refused arguments.
pub open spec fn input_refusal(f: InputValidationFailure) -> (&'static str, &'static str) {
    match f {
        InputValidationFailure::OversizedInput => ("oversized_input", "tool input exceeds limit"),
        InputValidationFailure::InvalidJson => (
            "invalid_json",
            "tool arguments are not valid JSON",
        ),
        InputValidationFailure::DepthExceeded => (
            "json_depth_exceeded",
            "tool arguments too deep",
        ),
        InputValidationFailure::SchemaInvalid => (
            "schema_invalid",
            "tool arguments fail input schema",
        ),
    }
}

/// Code of a failure.
pub open spec fn failure_code(f: ToolFailure) -> Seq<char> {
    match f {
        ToolFailure::Panicked => "panicked"@,
        ToolFailure::CompletionLost => "completion_lost"@,
        ToolFailure::OutputContractViolated => "output_contract_violated"@,
        ToolFailure::TerminationFailed => "termination_failed"@,
        ToolFailure::DeadlineExceeded => "deadline_exceeded"@,
    }
}

/// Whether an implementation can be ended as its policy asks.
pub open spec fn can_be_ended(policy: ToolCancellationPolicy, handler: ToolHandler) -> bool {
    match policy {
        ToolCancellationPolicy::Abortable => handler.supports_abort,
        ToolCancellationPolicy::IsolatedKillable { .. } => handler.supports_isolated_kill,
        ToolCancellationPolicy::Cooperative { .. } => true,
    }
}

/// How a running call is told to end.
pub open spec fn termination(policy: ToolCancellationPolicy) -> (DispatchPhase, DispatchDecision) {
    match policy {
        ToolCancellationPolicy::Abortable => (
            DispatchPhase::Terminating { killed: true },
            DispatchDecision::Terminate(true, JOIN_GRACE_NANOS),
        ),
        ToolCancellationPolicy::Cooperative { grace } => (
            DispatchPhase::Terminating { killed: false },
            DispatchDecision::Terminate(false, grace),
        ),
        ToolCancellationPolicy::IsolatedKillable { grace } => (
            DispatchPhase::Terminating { killed: false },
            DispatchDecision::Terminate(false, grace),
        ),
    }
}

/// A worker that was told to end did not end in time.
pub open spec fn not_ended(policy: ToolCancellationPolicy, killed: bool) -> (
    DispatchPhase,
    DispatchDecision,
) {
    if policy is IsolatedKillable && !killed {
        (
            DispatchPhase::Terminating { killed: true },
            DispatchDecision::KillAndAwait(JOIN_GRACE_NANOS),
        )
    } else {
        (
            DispatchPhase::CheckingOutput,
            DispatchDecision::CheckOutput(
                ToolCompletion::RuntimeFailed(
                    if policy is IsolatedKillable {
                        ToolFailure::TerminationFailed
                    } else {
                        ToolFailure::DeadlineExceeded
                    },
                ),
            ),
        )
    }
}

/// A finished call.
pub open spec fn finished(v: DispatchVerdict) -> (DispatchPhase, DispatchDecision) {
    (DispatchPhase::Done, DispatchDecision::Finish(v))
}

/// The whole machine of a call: next phase and decision for each report.
pub open spec fn next(
    phase: DispatchPhase,
    policy: ToolCancellationPolicy,
    handler: ToolHandler,
    input: DispatchInput,
) -> (DispatchPhase, DispatchDecision) {
    match (phase, input) {
        (DispatchPhase::Enqueuing, DispatchInput::Enqueued(ok)) => if ok {
            (DispatchPhase::CheckingInput, DispatchDecision::CheckInput)
        } else {
            finished(
                DispatchVerdict::Rejected(
                    "tool_queue_full",
                    "per-transaction tool queue full",
                    false,
                ),
            )
        },
        (DispatchPhase::CheckingInput, DispatchInput::InputChecked(r)) => match r {
            Ok(()) => (DispatchPhase::Acquiring, DispatchDecision::Acquire),
            Err(f) => finished(
                DispatchVerdict::Rejected(input_refusal(f).0, input_refusal(f).1, false),
            ),
        },
        (DispatchPhase::Acquiring, DispatchInput::Acquired(ok)) => if !ok {
            finished(
                DispatchVerdict::Rejected(
                    "tool_capacity_exceeded",
                    "tool concurrency capacity exceeded",
                    false,
                ),
            )
        } else if !can_be_ended(policy, handler) {
            finished(
                DispatchVerdict::Failed("missing_kill_handle"@, "missing_kill_handle"@),
            )
        } else {
            (DispatchPhase::Starting, DispatchDecision::Start)
        },
        (DispatchPhase::Starting, DispatchInput::Started(s)) => match s {
            StartOutcome::CapacityExceeded => finished(
                DispatchVerdict::Rejected(
                    "tool_capacity_exceeded",
                    "handler capacity exceeded",
                    true,
                ),
            ),
            StartOutcome::Rejected(reason) => finished(
                DispatchVerdict::Failed("start_rejected:"@ + reason@, "tool_start_rejected"@),
            ),
            StartOutcome::Panicked => finished(
                DispatchVerdict::Failed("panicked"@, "tool_panicked"@),
            ),
            StartOutcome::Running { has_kill } => if policy is Cooperative || has_kill {
                (DispatchPhase::Running, DispatchDecision::Await)
            } else {
                (DispatchPhase::JoiningUnkillable, DispatchDecision::CancelAndJoin)
            },
        },
        (DispatchPhase::JoiningUnkillable, DispatchInput::Completed(_)) => finished(
            DispatchVerdict::Failed("missing_kill_handle"@, "missing_kill_handle"@),
        ),
        (DispatchPhase::Running, DispatchInput::Completed(c)) => (
            DispatchPhase::CheckingOutput,
            DispatchDecision::CheckOutput(c),
        ),
        (DispatchPhase::Running, DispatchInput::Cancelled) => termination(policy),
        (DispatchPhase::Running, DispatchInput::Expired) => termination(policy),
        (DispatchPhase::Terminating { .. }, DispatchInput::Completed(c)) => (
            DispatchPhase::CheckingOutput,
            DispatchDecision::CheckOutput(c),
        ),
        (DispatchPhase::Terminating { killed }, DispatchInput::Expired) => not_ended(
            policy,
            killed,
        ),
        (DispatchPhase::CheckingOutput, DispatchInput::OutputChecked(r, session)) => match r {
            None => finished(
                DispatchVerdict::Failed(
                    "output_contract_violated"@,
                    "output_contract_violated"@,
                ),
            ),
            Some(ToolCompletion::Succeeded(o)) => finished(
                DispatchVerdict::Result(CanonicalToolResultOutcome::Succeeded(o), session),
            ),
            Some(ToolCompletion::DomainFailed(e)) => finished(
                DispatchVerdict::Result(CanonicalToolResultOutcome::DomainFailed(e), session),
            ),
            Some(ToolCompletion::RuntimeFailed(f)) => finished(
                DispatchVerdict::Failed(failure_code(f), failure_code(f)),
            ),
        },
        _ => (phase, DispatchDecision::Ignore),
    }
}

/// What a call is about.
pub struct DispatchSubject {
    /// Transaction.
    pub transaction_id: TransactionId,
    /// Session.
    pub session_key: SessionKey,
    /// Request.
    pub request: DispatchRequest,
    /// Tool.
    pub tool_id: ToolId,
    /// How a running call is ended.
    pub policy: ToolCancellationPolicy,
    /// Implementation.
    pub handler: ToolHandler,
    /// Time for the call.
    pub deadline: u128,
    /// Most bytes of the arguments.
    pub max_payload: usize,
    /// Most bytes of the output.
    pub max_output: usize,
}

/// Whether an event announces the start of a call.
pub open spec fn announces_start(ev: ToolLifecycleEvent, s: DispatchSubject) -> bool {
    ev == (ToolLifecycleEvent::Started {
        tool_action_id: s.request.tool_action_id,
        tool_id: s.tool_id,
        tool_name: s.request.tool_name,
        provider_tool_call_id: s.request.provider_tool_call_id,
        request_ordinal: s.request.request_ordinal,
    })
}

/// Whether an event announces the failure of a call.
pub open spec fn announces_failure(
    ev: ToolLifecycleEvent,
    s: DispatchSubject,
    event_code: Seq<char>,
) -> bool {
    match ev {
        ToolLifecycleEvent::RuntimeFailed { tool_action_id, tool_id, code } => tool_action_id
            == s.request.tool_action_id && tool_id == s.tool_id && code@ == event_code,
        _ => false,
    }
}

/// Result of a call.
pub open spec fn result_of(
    s: DispatchSubject,
    outcome: CanonicalToolResultOutcome,
    session_key: SessionKey,
) -> CanonicalToolResult {
    CanonicalToolResult {
        transaction_id: s.transaction_id,
        session_key,
        exchange_id: s.request.exchange_id,
        tool_action_id: s.request.tool_action_id,
        tool_id: s.tool_id,
        provider_tool_call_id: s.request.provider_tool_call_id,
        request_ordinal: s.request.request_ordinal,
        outcome,
    }
}

/// Whether an outcome says what a verdict says.
pub open spec fn says(o: DispatchOutcome, s: DispatchSubject, v: DispatchVerdict) -> bool {
    match (v, o) {
        (
            DispatchVerdict::Rejected(c, m, announced),
            DispatchOutcome::Rejected { tool_action_id, code, message, lifecycle },
        ) => {
            &&& tool_action_id == s.request.tool_action_id
            &&& code == c
            &&& message == m
            &&& lifecycle@.len() == (if announced {
                1int
            } else {
                0
            })
            &&& announced ==> announces_start(lifecycle@[0], s)
        },
        (
            DispatchVerdict::Failed(c, ec),
            DispatchOutcome::RuntimeFailed { tool_action_id, tool_id, code, lifecycle },
        ) => {
            &&& tool_action_id == s.request.tool_action_id
            &&& tool_id == Some(s.tool_id)
            &&& code@ == c
            &&& lifecycle@.len() == 2
            &&& announces_start(lifecycle@[0], s)
            &&& announces_failure(lifecycle@[1], s, ec)
        },
        (
            DispatchVerdict::Result(outcome, session),
            DispatchOutcome::Canonical { result, lifecycle },
        ) => {
            &&& result == result_of(s, outcome, session)
            &&& lifecycle@.len() == 2
            &&& announces_start(lifecycle@[0], s)
            &&& lifecycle@[1] == (ToolLifecycleEvent::Completed { result })
        },
        _ => false,
    }
}

/// Whether an action carries out a decision that was taken in a phase.
pub open spec fn carries_out(
    a: DispatchAction,
    s: DispatchSubject,
    phase: DispatchPhase,
    d: DispatchDecision,
) -> bool {
    match d {
        DispatchDecision::CheckInput => a == (DispatchAction::CheckInput {
            max_bytes: s.max_payload,
        }),
        DispatchDecision::Acquire => a == (DispatchAction::Acquire { budget: ACQUIRE_BUDGET_NANOS }),
        DispatchDecision::Start => a == DispatchAction::Start,
        DispatchDecision::CancelAndJoin => a == DispatchAction::CancelAndJoin,
        DispatchDecision::Await => a == (DispatchAction::Await { deadline: s.deadline }),
        DispatchDecision::Terminate(kill, budget) => a == (DispatchAction::Terminate {
            kill,
            budget,
        }),
        DispatchDecision::KillAndAwait(budget) => a == (DispatchAction::KillAndAwait { budget }),
        DispatchDecision::CheckOutput(completion) => a == (DispatchAction::CheckOutput {
            completion,
            max_bytes: s.max_output,
        }),
        DispatchDecision::Finish(v) => match a {
            DispatchAction::Finish { outcome, give_back } => says(outcome, s, v) && give_back
                == finish_holds(phase, v),
            _ => false,
        },
        DispatchDecision::Ignore => a == DispatchAction::Ignore,
    }
}

/// What a call that finishes in a phase still holds: once it got a place to
/// run, that place.
pub open spec fn finish_holds(phase: DispatchPhase, v: DispatchVerdict) -> GiveBack {
    if phase == DispatchPhase::Acquiring && v is Failed {
        GiveBack::RunPlace
    } else {
        held_in(phase)
    }
}

/// The machine of one call.
pub struct DispatchCall {
    subject: DispatchSubject,
    phase: DispatchPhase,
}

impl DispatchCall {
    /// What the call is about.
    pub closed spec fn about(&self) -> DispatchSubject {
        self.subject
    }

    /// What the call waits for.
    pub closed spec fn waits_for(&self) -> DispatchPhase {
        self.phase
    }

    fn started_event(&self) -> (r: ToolLifecycleEvent)
        ensures
            announces_start(r, self.about()),
    {
        ToolLifecycleEvent::Started {
            tool_action_id: self.subject.request.tool_action_id.clone(),
            tool_id: self.subject.tool_id.clone(),
            tool_name: self.subject.request.tool_name.clone(),
            provider_tool_call_id: self.subject.request.provider_tool_call_id.clone(),
            request_ordinal: self.subject.request.request_ordinal,
        }
    }

    fn reject(
        &mut self,
        code: &'static str,
        message: &'static str,
        announced: bool,
        give_back: GiveBack,
    ) -> (r: DispatchAction)
        ensures
            final(self).about() == old(self).about(),
            final(self).waits_for() == DispatchPhase::Done,
            r matches DispatchAction::Finish { outcome, give_back: g } && says(
                outcome,
                old(self).about(),
                DispatchVerdict::Rejected(code, message, announced),
            ) && g == give_back,
    {
        let mut lifecycle: Vec<ToolLifecycleEvent> = Vec::new();
        if announced {
            lifecycle.push(self.started_event());
        }
        self.phase = DispatchPhase::Done;
        DispatchAction::Finish {
            outcome: DispatchOutcome::Rejected {
                tool_action_id: self.subject.request.tool_action_id.clone(),
                code,
                message,
                lifecycle,
            },
            give_back,
        }
    }

    fn fail(&mut self, code: String, event_code: &'static str, give_back: GiveBack) -> (r:
        DispatchAction)
        ensures
            final(self).about() == old(self).about(),
            final(self).waits_for() == DispatchPhase::Done,
            r matches DispatchAction::Finish { outcome, give_back: g } && says(
                outcome,
                old(self).about(),
                DispatchVerdict::Failed(code@, event_code@),
            ) && g == give_back,
    {
        let mut lifecycle: Vec<ToolLifecycleEvent> = Vec::new();
        lifecycle.push(self.started_event());
        lifecycle.push(
            ToolLifecycleEvent::RuntimeFailed {
                tool_action_id: self.subject.request.tool_action_id.clone(),
                tool_id: self.subject.tool_id.clone(),
                code: String::from_str(event_code),
            },
        );
        self.phase = DispatchPhase::Done;
        DispatchAction::Finish {
            outcome: DispatchOutcome::RuntimeFailed {
                tool_action_id: self.subject.request.tool_action_id.clone(),
                tool_id: Some(self.subject.tool_id.clone()),
                code,
                lifecycle,
            },
            give_back,
        }
    }

    fn answer(
        &mut self,
        outcome: CanonicalToolResultOutcome,
        session_key: SessionKey,
    ) -> (r: DispatchAction)
        ensures
            final(self).about() == old(self).about(),
            final(self).waits_for() == DispatchPhase::Done,
            r matches DispatchAction::Finish { outcome: o, give_back } && says(
                o,
                old(self).about(),
                DispatchVerdict::Result(outcome, session_key),
            ) && give_back == GiveBack::Nothing,
    {
        let result = CanonicalToolResult {
            transaction_id: self.subject.transaction_id,
            session_key,
            exchange_id: self.subject.request.exchange_id,
            tool_action_id: self.subject.request.tool_action_id.clone(),
            tool_id: self.subject.tool_id.clone(),
            provider_tool_call_id: self.subject.request.provider_tool_call_id.clone(),
            request_ordinal: self.subject.request.request_ordinal,
            outcome,
        };
        let mut lifecycle: Vec<ToolLifecycleEvent> = Vec::new();
        lifecycle.push(self.started_event());
        lifecycle.push(ToolLifecycleEvent::Completed { result: result.clone() });
        self.phase = DispatchPhase::Done;
        DispatchAction::Finish {
            outcome: DispatchOutcome::Canonical { result, lifecycle },
            give_back: GiveBack::Nothing,
        }
    }

    fn check_output(&mut self, completion: ToolCompletion) -> (r: DispatchAction)
        ensures
            final(self).about() == old(self).about(),
            final(self).waits_for() == DispatchPhase::CheckingOutput,
            r == (DispatchAction::CheckOutput {
                completion,
                max_bytes: old(self).about().max_output,
            }),
    {
        self.phase = DispatchPhase::CheckingOutput;
        DispatchAction::CheckOutput { completion, max_bytes: self.subject.max_output }
    }

    /// One step of the machine.
    pub fn step(&mut self, input: DispatchInput) -> (r: DispatchAction)
        ensures
            final(self).about() == old(self).about(),
            final(self).waits_for() == next(
                old(self).waits_for(),
                old(self).about().policy,
                old(self).about().handler,
                input,
            ).0,
            carries_out(
                r,
                old(self).about(),
                old(self).waits_for(),
                next(
                    old(self).waits_for(),
                    old(self).about().policy,
                    old(self).about().handler,
                    input,
                ).1,
            ),
    {
        match (self.phase, input) {
            (DispatchPhase::Enqueuing, DispatchInput::Enqueued(ok)) => {
                if ok {
                    self.phase = DispatchPhase::CheckingInput;
                    DispatchAction::CheckInput { max_bytes: self.subject.max_payload }
                } else {
                    self.reject(
                        "tool_queue_full",
                        "per-transaction tool queue full",
                        false,
                        GiveBack::Nothing,
                    )
                }
            },
            (DispatchPhase::CheckingInput, DispatchInput::InputChecked(checked)) => match checked {
                Ok(()) => {
                    self.phase = DispatchPhase::Acquiring;
                    DispatchAction::Acquire { budget: ACQUIRE_BUDGET_NANOS }
                },
                Err(f) => {
                    let (code, message) = reject_input(f);
                    self.reject(code, message, false, GiveBack::QueuePlace)
                },
            },
            (DispatchPhase::Acquiring, DispatchInput::Acquired(ok)) => {
                if !ok {
                    return self.reject(
                        "tool_capacity_exceeded",
                        "tool concurrency capacity exceeded",
                        false,
                        GiveBack::QueuePlace,
                    );
                }
                let endable: bool = match self.subject.policy {
                    ToolCancellationPolicy::Abortable => self.subject.handler.supports_abort,
                    ToolCancellationPolicy::IsolatedKillable {
                        ..
                    } => self.subject.handler.supports_isolated_kill,
                    ToolCancellationPolicy::Cooperative { .. } => true,
                };
                if !endable {
                    return self.fail(
                        String::from_str("missing_kill_handle"),
                        "missing_kill_handle",
                        GiveBack::RunPlace,
                    );
                }
                self.phase = DispatchPhase::Starting;
                DispatchAction::Start
            },
            (DispatchPhase::Starting, DispatchInput::Started(started)) => match started {
                StartOutcome::CapacityExceeded => self.reject(
                    "tool_capacity_exceeded",
                    "handler capacity exceeded",
                    true,
                    GiveBack::RunPlace,
                ),
                StartOutcome::Rejected(reason) => {
                    let code: String = join("start_rejected:", reason.as_str());
                    self.fail(code, "tool_start_rejected", GiveBack::RunPlace)
                },
                StartOutcome::Panicked => self.fail(
                    String::from_str("panicked"),
                    "tool_panicked",
                    GiveBack::RunPlace,
                ),
                StartOutcome::Running { has_kill } => {
                    let cooperative: bool = match self.subject.policy {
                        ToolCancellationPolicy::Cooperative { .. } => true,
                        _ => false,
                    };
                    if cooperative || has_kill {
                        self.phase = DispatchPhase::Running;
                        DispatchAction::Await { deadline: self.subject.deadline }
                    } else {
                        self.phase = DispatchPhase::JoiningUnkillable;
                        DispatchAction::CancelAndJoin
                    }
                },
            },
            (DispatchPhase::JoiningUnkillable, DispatchInput::Completed(_)) => self.fail(
                String::from_str("missing_kill_handle"),
                "missing_kill_handle",
                GiveBack::RunPlace,
            ),
            (DispatchPhase::Running, DispatchInput::Completed(c)) => self.check_output(c),
            (DispatchPhase::Running, DispatchInput::Cancelled) => self.terminate(),
            (DispatchPhase::Running, DispatchInput::Expired) => self.terminate(),
            (DispatchPhase::Terminating { .. }, DispatchInput::Completed(c)) => self.check_output(
                c,
            ),
            (DispatchPhase::Terminating { killed }, DispatchInput::Expired) => {
                let isolated: bool = match self.subject.policy {
                    ToolCancellationPolicy::IsolatedKillable { .. } => true,
                    _ => false,
                };
                if isolated && !killed {
                    self.phase = DispatchPhase::Terminating { killed: true };
                    DispatchAction::KillAndAwait { budget: JOIN_GRACE_NANOS }
                } else if isolated {
                    self.check_output(ToolCompletion::RuntimeFailed(ToolFailure::TerminationFailed))
                } else {
                    self.check_output(ToolCompletion::RuntimeFailed(ToolFailure::DeadlineExceeded))
                }
            },
            (
                DispatchPhase::CheckingOutput,
                DispatchInput::OutputChecked(checked, session),
            ) => match checked {
                None => self.fail(
                    String::from_str("output_contract_violated"),
                    "output_contract_violated",
                    GiveBack::Nothing,
                ),
                Some(ToolCompletion::Succeeded(o)) => self.answer(
                    CanonicalToolResultOutcome::Succeeded(o),
                    session,
                ),
                Some(ToolCompletion::DomainFailed(e)) => self.answer(
                    CanonicalToolResultOutcome::DomainFailed(e),
                    session,
                ),
                Some(ToolCompletion::RuntimeFailed(f)) => {
                    let code: &'static str = code_of(f);
                    self.fail(String::from_str(code), code, GiveBack::Nothing)
                },
            },
            _ => DispatchAction::Ignore,
        }
    }

    fn terminate(&mut self) -> (r: DispatchAction)
        ensures
            final(self).about() == old(self).about(),
            final(self).waits_for() == termination(old(self).about().policy).0,
            carries_out(
                r,
                old(self).about(),
                old(self).waits_for(),
                termination(old(self).about().policy).1,
            ),
    {
        match self.subject.policy {
            ToolCancellationPolicy::Abortable => {
                self.phase = DispatchPhase::Terminating { killed: true };
                DispatchAction::Terminate { kill: true, budget: JOIN_GRACE_NANOS }
            },
            ToolCancellationPolicy::Cooperative { grace } => {
                self.phase = DispatchPhase::Terminating { killed: false };
                DispatchAction::Terminate { kill: false, budget: grace }
            },
            ToolCancellationPolicy::IsolatedKillable { grace } => {
                self.phase = DispatchPhase::Terminating { killed: false };
                DispatchAction::Terminate { kill: false, budget: grace }
            },
        }
    }
}

/// Code and message for refused arguments.
pub fn reject_input(f: InputValidationFailure) -> (r: (&'static str, &'static str))
    ensures
        r == input_refusal(f),
{
    match f {
        InputValidationFailure::OversizedInput => ("oversized_input", "tool input exceeds limit"),
        InputValidationFailure::InvalidJson => (
            "invalid_json",
            "tool arguments are not valid JSON",
        ),
        InputValidationFailure::DepthExceeded => (
            "json_depth_exceeded",
            "tool arguments too deep",
        ),
        InputValidationFailure::SchemaInvalid => (
            "schema_invalid",
            "tool arguments fail input schema",
        ),
    }
}

fn code_of(f: ToolFailure) -> (r: &'static str)
    ensures
        r@ == failure_code(f),
{
    match f {
        ToolFailure::Panicked => "panicked",
        ToolFailure::CompletionLost => "completion_lost",
        ToolFailure::OutputContractViolated => "output_contract_violated",
        ToolFailure::TerminationFailed => "termination_failed",
        ToolFailure::DeadlineExceeded => "deadline_exceeded",
    }
}

/// Position of the first tool with a name.
pub open spec fn first_named(tools: Seq<RegisteredTool>, name: Seq<char>, i: int) -> bool {
    &&& 0 <= i < tools.len()
    &&& tools[i].tool().name@ == name
    &&& forall|j: int| 0 <= j < i ==> (#[trigger] tools[j]).tool().name@ != name
}

/// Whether a tool with a name is among those that may be called.
pub open spec fn is_named(tools: Seq<RegisteredTool>, name: Seq<char>) -> bool {
    exists|i: int| 0 <= i < tools.len() && (#[trigger] tools[i]).tool().name@ == name
}

/// Smaller of two sizes.
pub open spec fn smaller(a: usize, b: usize) -> usize {
    if a < b {
        a
    } else {
        b
    }
}

/// Whether a call is about a request for a tool of a dispatcher.
pub open spec fn is_subject(
    s: DispatchSubject,
    d: TransactionToolDispatcher,
    request: DispatchRequest,
    t: RegisteredTool,
) -> bool {
    &&& s.transaction_id == d.transaction()
    &&& s.session_key == d.session()
    &&& s.request == request
    &&& s.tool_id == t.tool().id
    &&& s.policy == t.tool().cancellation
    &&& s.handler == t.linked()
    &&& s.deadline == t.tool().limits.execution_deadline
    &&& s.max_payload == smaller(t.tool().limits.max_input_bytes, d.payload_cap())
    &&& s.max_output == smaller(t.tool().limits.max_output_bytes, d.output_cap())
}

/// Tools of one transaction, with its bounds.
pub struct TransactionToolDispatcher {
    transaction_id: TransactionId,
    session_key: SessionKey,
    tools: Vec<RegisteredTool>,
    max_tool_payload_bytes: usize,
    max_tool_output_bytes: usize,
}

impl TransactionToolDispatcher {
    /// Transaction.
    pub closed spec fn transaction(&self) -> TransactionId {
        self.transaction_id
    }

    /// Session.
    pub closed spec fn session(&self) -> SessionKey {
        self.session_key
    }

    /// Tools that may be called.
    pub closed spec fn allowed(&self) -> Seq<RegisteredTool> {
        self.tools@
    }

    /// Most bytes of any call's arguments.
    pub closed spec fn payload_cap(&self) -> usize {
        self.max_tool_payload_bytes
    }

    /// Most bytes of any call's output.
    pub closed spec fn output_cap(&self) -> usize {
        self.max_tool_output_bytes
    }

    /// Build a dispatcher without caps of its own.
    pub fn new(
        transaction_id: TransactionId,
        session_key: SessionKey,
        tools: Vec<RegisteredTool>,
        max_concurrent_tools: usize,
        max_queued_tools: usize,
    ) -> (r: Self)
        ensures
            r.transaction() == transaction_id,
            r.session() == session_key,
            r.allowed() == tools@,
            r.payload_cap() == usize::MAX,
            r.output_cap() == usize::MAX,
    {
        Self::with_limits(
            transaction_id,
            session_key,
            tools,
            DispatcherLimits {
                max_concurrent_tools,
                max_queued_tools,
                max_tool_payload_bytes: usize::MAX,
                max_tool_output_bytes: usize::MAX,
            },
        )
    }

    /// Build with explicit caps; 0 counts as 1.
    pub fn with_limits(
        transaction_id: TransactionId,
        session_key: SessionKey,
        tools: Vec<RegisteredTool>,
        limits: DispatcherLimits,
    ) -> (r: Self)
        ensures
            r.transaction() == transaction_id,
            r.session() == session_key,
            r.allowed() == tools@,
            r.payload_cap() == (if limits.max_tool_payload_bytes == 0 {
                1
            } else {
                limits.max_tool_payload_bytes
            }),
            r.output_cap() == (if limits.max_tool_output_bytes == 0 {
                1
            } else {
                limits.max_tool_output_bytes
            }),
    {
        let max_tool_payload_bytes: usize = if limits.max_tool_payload_bytes == 0 {
            1
        } else {
            limits.max_tool_payload_bytes
        };
        let max_tool_output_bytes: usize = if limits.max_tool_output_bytes == 0 {
            1
        } else {
            limits.max_tool_output_bytes
        };
        TransactionToolDispatcher {
            transaction_id,
            session_key,
            tools,
            max_tool_payload_bytes,
            max_tool_output_bytes,
        }
    }

    /// Tools that may be called.
    pub fn tools(&self) -> (r: &Vec<RegisteredTool>)
        ensures
            r@ == self.allowed(),
    {
        &self.tools
    }

    /// Transaction identity.
    pub fn transaction_id(&self) -> (r: TransactionId)
        ensures
            r == self.transaction(),
    {
        self.transaction_id
    }

    /// Session key.
    pub fn session_key(&self) -> (r: SessionKey)
        ensures
            r == self.session(),
    {
        self.session_key.clone()
    }

    /// Replace a provisional key with the claimed one.
    pub fn rebind_session(&mut self, session_key: SessionKey)
        ensures
            final(self).session() == session_key,
            final(self).transaction() == old(self).transaction(),
            final(self).allowed() == old(self).allowed(),
            final(self).payload_cap() == old(self).payload_cap(),
            final(self).output_cap() == old(self).output_cap(),
    {
        self.session_key = session_key;
    }

    /// Begins a call. A name that is not allowed is rejected at once; else the
    /// machine of the call begins with a place in the queue.
    pub fn dispatch(&self, request: DispatchRequest) -> (r: Result<
        (DispatchCall, DispatchAction),
        DispatchOutcome,
    >)
        ensures
            r is Ok <==> is_named(self.allowed(), request.tool_name@),
            match r {
                Ok(begun) => {
                    &&& begun.1 == DispatchAction::Enqueue
                    &&& begun.0.waits_for() == DispatchPhase::Enqueuing
                    &&& exists|i: int| #[trigger]
                        first_named(self.allowed(), request.tool_name@, i) && is_subject(
                            begun.0.about(),
                            *self,
                            request,
                            self.allowed()[i],
                        )
                },
                Err(o) => {
                    &&& forall|i: int|
                        0 <= i < self.allowed().len() ==> (
                        #[trigger] self.allowed()[i]).tool().name@ != request.tool_name@
                    &&& o matches DispatchOutcome::Rejected {
                        tool_action_id,
                        code,
                        message,
                        lifecycle,
                    } && tool_action_id == request.tool_action_id && code == "tool_not_allowed"
                        && message == "tool not in resolved set" && lifecycle@.len() == 0
                },
            },
    {
        let mut i: usize = 0;
        while i < self.tools.len()
            invariant
                i <= self.tools.len(),
                forall|j: int|
                    0 <= j < i ==> (#[trigger] self.allowed()[j]).tool().name@
                        != request.tool_name@,
            decreases self.tools.len() - i,
        {
            let spec: &ToolSpec = self.tools[i].spec();
            if spec.name == request.tool_name {
                let max_payload: usize = if spec.limits.max_input_bytes
                    < self.max_tool_payload_bytes {
                    spec.limits.max_input_bytes
                } else {
                    self.max_tool_payload_bytes
                };
                let max_output: usize = if spec.limits.max_output_bytes
                    < self.max_tool_output_bytes {
                    spec.limits.max_output_bytes
                } else {
                    self.max_tool_output_bytes
                };
                let subject = DispatchSubject {
                    transaction_id: self.transaction_id,
                    session_key: self.session_key.clone(),
                    request,
                    tool_id: spec.id.clone(),
                    policy: spec.cancellation,
                    handler: *self.tools[i].handler(),
                    deadline: spec.limits.execution_deadline,
                    max_payload,
                    max_output,
                };
                assert(first_named(self.allowed(), request.tool_name@, i as int));
                return Ok(
                    (
                        DispatchCall { subject, phase: DispatchPhase::Enqueuing },
                        DispatchAction::Enqueue,
                    ),
                );
            }
            i = i + 1;
        }
        Err(
            DispatchOutcome::Rejected {
                tool_action_id: request.tool_action_id,
                code: "tool_not_allowed",
                message: "tool not in resolved set",
                lifecycle: Vec::new(),
            },
        )
    }
}

/// What a call holds once a report has come in, before the step answers it.
pub open spec fn holds_after(phase: DispatchPhase, input: DispatchInput) -> GiveBack {
    match (phase, input) {
        (DispatchPhase::Enqueuing, DispatchInput::Enqueued(true)) => GiveBack::QueuePlace,
        (DispatchPhase::Acquiring, DispatchInput::Acquired(true)) => GiveBack::RunPlace,
        _ => held_in(phase),
    }
}

/// Places balance: a call that finishes gives back exactly what it holds, the
/// output check is preceded by giving back the place to run, and every other
/// step keeps what is held.
pub proof fn places_balance(
    phase: DispatchPhase,
    policy: ToolCancellationPolicy,
    handler: ToolHandler,
    input: DispatchInput,
)
    ensures
        ({
            let s = next(phase, policy, handler, input);
            match s.1 {
                DispatchDecision::Finish(v) => finish_holds(phase, v) == holds_after(phase, input)
                    && s.0 == DispatchPhase::Done,
                DispatchDecision::CheckOutput(_) => holds_after(phase, input) == GiveBack::RunPlace
                    && held_in(s.0) == GiveBack::Nothing,
                DispatchDecision::Ignore => s.0 == phase,
                _ => held_in(s.0) == holds_after(phase, input),
            }
        }),
{
}

/// An implementation is started only where it can be ended as its policy asks.
pub proof fn only_endable_tools_start(
    phase: DispatchPhase,
    policy: ToolCancellationPolicy,
    handler: ToolHandler,
    input: DispatchInput,
)
    requires
        next(phase, policy, handler, input).1 is Start,
    ensures
        can_be_ended(policy, handler),
        phase == DispatchPhase::Acquiring,
{
}

/// A call that runs ends by its own completion or by being told to end.
pub proof fn running_call_is_ended(
    policy: ToolCancellationPolicy,
    handler: ToolHandler,
    input: DispatchInput,
)
    ensures
        ({
            let s = next(DispatchPhase::Running, policy, handler, input);
            &&& !(s.1 is Finish)
            &&& (input is Cancelled || input is Expired) ==> s.1 is Terminate
            &&& policy is Abortable && (input is Cancelled || input is Expired) ==> s.1
                == DispatchDecision::Terminate(true, JOIN_GRACE_NANOS)
        }),
{
}

/// How often a run of the machine finishes.
pub open spec fn finish_count(
    phase: DispatchPhase,
    policy: ToolCancellationPolicy,
    handler: ToolHandler,
    inputs: Seq<DispatchInput>,
) -> nat
    decreases inputs.len(),
{
    if inputs.len() == 0 {
        0
    } else {
        let s = next(phase, policy, handler, inputs[0]);
        finish_count(s.0, policy, handler, inputs.drop_first()) + if s.1 is Finish {
            1nat
        } else {
            0nat
        }
    }
}

/// A call has at most one outcome.
pub proof fn outcome_is_unique(
    phase: DispatchPhase,
    policy: ToolCancellationPolicy,
    handler: ToolHandler,
    inputs: Seq<DispatchInput>,
)
    ensures
        finish_count(phase, policy, handler, inputs) <= 1,
        phase == DispatchPhase::Done ==> finish_count(phase, policy, handler, inputs) == 0,
    decreases inputs.len(),
{
    if inputs.len() > 0 {
        outcome_is_unique(
            next(phase, policy, handler, inputs[0]).0,
            policy,
            handler,
            inputs.drop_first(),
        );
    }
}

} // verus!
