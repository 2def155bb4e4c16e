//! What a transaction gets from its actor: its session, its exchanges, every tool
//! call, its continuations, and the terminal that the course came to.

use crate::transaction::active_registry::{ClaimSessionError, ControlMessage};
use crate::transaction::actor::{
    child_kind, claim_kind, control_kind, next, settlement, ActorAction, ActorExchange, ActorInput,
    ActorPhase, ActorSetting, ActorState, ChildEnd, RaceEnd, ToolOutcomeKind,
};
use crate::transaction::channel_registry::{ContinuationPolicy, ToolExecutionMode};
use crate::transaction::exchange::{failure_kind, ExchangeFailure};
use crate::transaction::types::TransactionEndKind;
use vstd::prelude::*;

verus! {

/// Whether an action ends the work with a kind.
pub open spec fn ends_as(a: ActorAction, kind: TransactionEndKind) -> bool {
    a matches ActorAction::Finish { kind: k, .. } && k == kind
}

/// A transaction whose channel keeps no sessions is asked at once, with all of its
/// budget; one whose session is generated claims it and announces it first.
pub proof fn start_goes_by_the_channel(s: ActorState, c: ActorSetting)
    requires
        s.phase == ActorPhase::AwaitingStart,
        c.schema_bytes <= c.max_tool_schema_bytes,
        !c.has_adapter,
    ensures
        ({
            let a = next(s, c, ActorInput::Gate(true));
            &&& !c.provisional_external ==> a.1 == ActorAction::SpawnFanOut && a.0.phase
                == ActorPhase::SpawningFanOut
            &&& c.provisional_external ==> ({
                let b = next(a.0, c, ActorInput::Claimed);
                let d = next(b.0, c, ActorInput::Emitted(true));
                &&& a.1 == ActorAction::ClaimGenerated
                &&& b.1 == ActorAction::Announce
                &&& b.0.session_known
                &&& d.1 == ActorAction::SpawnFanOut
                &&& d.0.session_known
            })
        }),
        next(s, c, ActorInput::Gate(false)).1 == ActorAction::Abandon,
{
}

/// A transaction with schemas over the bound is turned away before anything is
/// done.
pub proof fn oversized_schemas_are_turned_away(s: ActorState, c: ActorSetting)
    requires
        s.phase == ActorPhase::AwaitingStart,
        c.schema_bytes > c.max_tool_schema_bytes,
    ensures
        next(s, c, ActorInput::Gate(true)).1 == ActorAction::RejectStart(
            TransactionEndKind::LimitExceeded,
        ),
{
}

/// A session that an adapter loads is claimed where it was not known, and is
/// announced; a session that is not the one that was expected breaks a rule; one
/// that is created comes with the first exchange.
pub proof fn attached_session_is_announced(s: ActorState, c: ActorSetting, expected: bool)
    requires
        s.phase == ActorPhase::Attaching,
    ensures
        ({
            let loaded = next(s, c, ActorInput::Attached { create_mode: false, expected });
            let created = next(s, c, ActorInput::Attached { create_mode: true, expected });
            &&& s.session_known && expected ==> loaded.1 == ActorAction::Announce
            &&& s.session_known && !expected ==> ends_as(
                loaded.1,
                TransactionEndKind::InvariantFailed,
            )
            &&& !s.session_known ==> loaded.1 == ActorAction::Claim && next(
                loaded.0,
                c,
                ActorInput::Claimed,
            ).1 == ActorAction::Announce && next(loaded.0, c, ActorInput::Claimed).0.session_known
            &&& created.1 == ActorAction::SpawnFanOut
            &&& created.0.create_mode
            &&& ends_as(
                next(s, c, ActorInput::AttachFailed).1,
                TransactionEndKind::ChannelOpenFailed,
            )
        }),
{
}

/// A session that could not be claimed is told as what it was: one too many is a
/// limit, anything else breaks a rule. One that could not be announced was not
/// delivered.
pub proof fn unclaimed_session_is_told(s: ActorState, c: ActorSetting, e: ClaimSessionError)
    ensures
        e == ClaimSessionError::CapacityExceeded <==> claim_kind(e)
            == TransactionEndKind::LimitExceeded,
        e != ClaimSessionError::CapacityExceeded <==> claim_kind(e)
            == TransactionEndKind::InvariantFailed,
        s.phase == ActorPhase::ClaimingLoaded || s.phase == ActorPhase::ClaimingGenerated
            ==> ends_as(next(s, c, ActorInput::NotClaimed(e)).1, claim_kind(e)),
        s.phase == ActorPhase::AnnouncingLoaded || s.phase == ActorPhase::AnnouncingGenerated
            ==> ends_as(
            next(s, c, ActorInput::Emitted(false)).1,
            TransactionEndKind::EventDeliveryFailed,
        ),
{
}

/// A control message ends the work: force terminates, anything else cancels.
pub proof fn control_is_told(m: Option<ControlMessage>)
    ensures
        m == Some(ControlMessage::ForceTerminate) <==> control_kind(m)
            == TransactionEndKind::Terminated,
        m != Some(ControlMessage::ForceTerminate) <==> control_kind(m)
            == TransactionEndKind::Cancelled,
{
}

/// The first exchange runs with what is left of both budgets, once the task that
/// hands units on is there, and the task that claims the session where the exchange
/// creates it.
pub proof fn first_exchange_is_run(s: ActorState, c: ActorSetting)
    requires
        s.phase == ActorPhase::SpawningFanOut,
        s.input_bytes <= c.max_input_bytes,
        s.output_bytes <= c.max_output_bytes,
    ensures
        ({
            let a = next(s, c, ActorInput::Spawned(true));
            let b = next(a.0, c, ActorInput::Spawned(true));
            let run = ActorAction::RunExchange {
                remaining_input: (c.max_input_bytes - s.input_bytes) as usize,
                remaining_output: (c.max_output_bytes - s.output_bytes) as usize,
            };
            &&& !s.create_mode ==> a.1 == run && a.0.phase == ActorPhase::Exchanging
            &&& s.create_mode ==> a.1 == ActorAction::SpawnClaim && b.1 == run && b.0.phase
                == ActorPhase::Exchanging
            &&& ends_as(
                next(s, c, ActorInput::Spawned(false)).1,
                TransactionEndKind::InvariantFailed,
            )
        }),
{
}

/// What an exchange used is added up: one more exchange, and the bytes that were
/// sent and received; more than the output allows is a limit.
pub proof fn first_exchange_is_counted(s: ActorState, c: ActorSetting, r: ActorExchange)
    requires
        s.phase == ActorPhase::Exchanging,
        !s.create_mode,
        s.exchanges_done < usize::MAX,
        s.input_bytes + r.request_bytes <= usize::MAX,
        s.output_bytes + r.unit_bytes <= usize::MAX,
    ensures
        ({
            let a = next(s, c, ActorInput::Exchanged(r));
            &&& a.0.exchanges_done == s.exchanges_done + 1
            &&& a.0.input_bytes == s.input_bytes + r.request_bytes
            &&& a.0.output_bytes == s.output_bytes + r.unit_bytes
            &&& s.output_bytes + r.unit_bytes > c.max_output_bytes ==> ends_as(
                a.1,
                TransactionEndKind::LimitExceeded,
            )
            &&& s.output_bytes + r.unit_bytes <= c.max_output_bytes ==> a.1
                == ActorAction::JoinFanOut && a.0.phase == ActorPhase::JoiningFanOut(r)
        }),
{
}

/// Once its units are handed on, an exchange decides: a failure is told, tools that
/// the model asked for are called, the first one first, and else the transaction is
/// complete.
pub proof fn exchange_decides_what_follows(s: ActorState, c: ActorSetting, r: ActorExchange)
    requires
        s.phase == ActorPhase::JoiningFanOut(r),
    ensures
        ({
            let a = next(s, c, ActorInput::Joined(ChildEnd::Fine));
            let wants = c.tool_mode == ToolExecutionMode::ModelToolCalls && r.ready > 0;
            &&& r.failure matches Some(f) ==> ends_as(a.1, failure_kind(f))
            &&& r.failure is None && !wants ==> ends_as(a.1, TransactionEndKind::Completed)
            &&& r.failure is None && wants && s.session_known ==> a.1
                == ActorAction::DispatchTool(0) && a.0.phase == ActorPhase::Dispatching(r.ready, 0)
            &&& r.failure is None && wants && !s.session_known ==> ends_as(
                a.1,
                TransactionEndKind::InvariantFailed,
            )
        }),
{
}

/// A child that failed is told by its kind, and one that was lost breaks a rule.
pub proof fn lost_child_is_told(
    s: ActorState,
    c: ActorSetting,
    e: ChildEnd,
    k: TransactionEndKind,
)
    ensures
        child_kind(ChildEnd::Failed(k)) == k,
        child_kind(ChildEnd::Lost) == TransactionEndKind::InvariantFailed,
        e != ChildEnd::Fine && (s.phase is JoiningFanOut || s.phase is JoiningContinuationFanOut
            || s.phase is JoiningClaim || s.phase is JoiningClaimAfterFailure) ==> ends_as(
            next(s, c, ActorInput::Joined(e)).1,
            child_kind(e),
        ),
{
}

/// A failed exchange is told by its failure; where the session was to come with it,
/// what the claim came to is told first.
pub proof fn failed_exchange_is_told(s: ActorState, c: ActorSetting, f: ExchangeFailure)
    ensures
        s.phase == ActorPhase::Exchanging && !s.create_mode ==> ends_as(
            next(s, c, ActorInput::ExchangeFailed(f)).1,
            failure_kind(f),
        ),
        s.phase == ActorPhase::Continuing ==> ends_as(
            next(s, c, ActorInput::ExchangeFailed(f)).1,
            failure_kind(f),
        ),
        s.phase == ActorPhase::Exchanging && s.create_mode ==> ({
            let a = next(s, c, ActorInput::ExchangeFailed(f));
            &&& a.1 == (ActorAction::JoinClaim { abort_fan_out: true })
            &&& ends_as(next(a.0, c, ActorInput::Joined(ChildEnd::Fine)).1, failure_kind(f))
        }),
{
}

/// State once a number of tool calls were run to their results.
pub open spec fn after_calls(s: ActorState, c: ActorSetting, calls: nat) -> ActorState
    decreases calls,
{
    if calls == 0 {
        s
    } else {
        let before = after_calls(s, c, (calls - 1) as nat);
        let done = next(before, c, ActorInput::ToolDone(ToolOutcomeKind::Canonical)).0;
        next(done, c, ActorInput::Emitted(true)).0
    }
}

/// What the actor does once a number of tool calls, at least one, were run to their
/// results.
pub open spec fn action_after_calls(s: ActorState, c: ActorSetting, calls: nat) -> ActorAction {
    let before = after_calls(s, c, (calls - 1) as nat);
    let done = next(before, c, ActorInput::ToolDone(ToolOutcomeKind::Canonical)).0;
    next(done, c, ActorInput::Emitted(true)).1
}

proof fn lemma_calls(s: ActorState, c: ActorSetting, n: usize, k: nat)
    requires
        s.phase == ActorPhase::Dispatching(n, 0),
        k < n,
    ensures
        after_calls(s, c, k) == (ActorState { phase: ActorPhase::Dispatching(n, k as usize), ..s }),
        k > 0 ==> action_after_calls(s, c, k) == ActorAction::DispatchTool(k as usize),
    decreases k,
{
    if k > 0 {
        lemma_calls(s, c, n, (k - 1) as nat);
    }
}

/// Every tool that the model asked for is called, in order and once, and only then
/// is it decided how to go on: the caller is asked, or the model again within the
/// bounds.
pub proof fn every_tool_is_called(s: ActorState, c: ActorSetting, n: usize)
    requires
        s.phase == ActorPhase::Dispatching(n, 0),
        n > 0,
    ensures
        forall|k: nat|
            0 < k < n ==> #[trigger] action_after_calls(s, c, k) == ActorAction::DispatchTool(
                k as usize,
            ),
        ({
            let last = action_after_calls(s, c, n as nat);
            let bound = if c.max_provider_exchanges == 0 {
                1
            } else {
                c.max_provider_exchanges
            };
            let room = s.continuations_done < c.max_continuations && s.exchanges_done < bound;
            &&& c.policy == ContinuationPolicy::CallerControlled ==> ends_as(
                last,
                TransactionEndKind::ContinuationRequired,
            )
            &&& c.policy == ContinuationPolicy::InlineToolContinuation && !room ==> ends_as(
                last,
                TransactionEndKind::LimitExceeded,
            )
            &&& c.policy == ContinuationPolicy::InlineToolContinuation && room ==> last
                == ActorAction::Append
        }),
{
    assert forall|k: nat| 0 < k < n implies #[trigger] action_after_calls(s, c, k)
        == ActorAction::DispatchTool(k as usize) by {
        lemma_calls(s, c, n, k);
    }
    lemma_calls(s, c, n, (n - 1) as nat);
}

/// Tools that a run calls before it goes on or ends.
pub open spec fn calls_until_decided(
    s: ActorState,
    c: ActorSetting,
    inputs: Seq<ActorInput>,
) -> Seq<usize>
    decreases inputs.len(),
{
    if inputs.len() == 0 {
        Seq::empty()
    } else {
        let t = next(s, c, inputs[0]);
        match t.1 {
            ActorAction::DispatchTool(i) => seq![i] + calls_until_decided(
                t.0,
                c,
                inputs.drop_first(),
            ),
            ActorAction::Append | ActorAction::Finish { .. } => Seq::empty(),
            _ => calls_until_decided(t.0, c, inputs.drop_first()),
        }
    }
}

/// Whether a run goes on with a continuation, or asks its caller to, after the
/// tools.
pub open spec fn goes_on(s: ActorState, c: ActorSetting, inputs: Seq<ActorInput>) -> bool
    decreases inputs.len(),
{
    if inputs.len() == 0 {
        false
    } else {
        let t = next(s, c, inputs[0]);
        match t.1 {
            ActorAction::Append => true,
            ActorAction::Finish { kind, .. } => kind == TransactionEndKind::ContinuationRequired
                || kind == TransactionEndKind::Completed,
            _ => goes_on(t.0, c, inputs.drop_first()),
        }
    }
}

/// Whether a state is at a call.
pub open spec fn is_at_call(p: ActorPhase) -> bool {
    p is Dispatching || p is EmittingOutcome || p is EmittingRejection
}

/// Number of calls that a state is at one of.
pub open spec fn calls_in(p: ActorPhase) -> usize {
    match p {
        ActorPhase::Dispatching(n, _) => n,
        ActorPhase::EmittingOutcome(n, _, _) => n,
        ActorPhase::EmittingRejection(n, _) => n,
        _ => 0,
    }
}

/// Position of the call that a state is at.
pub open spec fn call_at(p: ActorPhase) -> usize {
    match p {
        ActorPhase::Dispatching(_, at) => at,
        ActorPhase::EmittingOutcome(_, at, _) => at,
        ActorPhase::EmittingRejection(_, at) => at,
        _ => 0,
    }
}

/// Whatever comes of the calls, in whatever run: no call is left out and none is
/// made twice, and the transaction goes on only once the last one is done.
pub proof fn nothing_is_decided_before_the_last_tool(
    s: ActorState,
    c: ActorSetting,
    inputs: Seq<ActorInput>,
)
    requires
        is_at_call(s.phase),
        call_at(s.phase) < calls_in(s.phase),
    ensures
        ({
            let n = calls_in(s.phase);
            let at = call_at(s.phase);
            let said = calls_until_decided(s, c, inputs);
            &&& forall|k: int| 0 <= k < said.len() ==> #[trigger] said[k] == at + 1 + k
            &&& at + 1 + said.len() <= n
            &&& goes_on(s, c, inputs) ==> at + 1 + said.len() == n
        }),
    decreases inputs.len(),
{
    if inputs.len() > 0 {
        let t = next(s, c, inputs[0]);
        let rest = inputs.drop_first();
        match t.1 {
            ActorAction::Append | ActorAction::Finish { .. } => {},
            _ => {
                nothing_is_decided_before_the_last_tool(t.0, c, rest);
                let later = calls_until_decided(t.0, c, rest);
                let said = calls_until_decided(s, c, inputs);
                assert forall|k: int| 0 <= k < said.len() implies #[trigger] said[k]
                    == call_at(s.phase) + 1 + k by {
                    if t.1 is DispatchTool {
                        if k > 0 {
                            assert(said[k] == later[k - 1]);
                        }
                    }
                }
            },
        }
    }
}

/// A tool call is told: its events first, then, where it was rejected, its
/// rejection; one that could not be run ends the transaction, and so does an event
/// that is not delivered.
pub proof fn tool_call_is_told(
    s: ActorState,
    c: ActorSetting,
    n: usize,
    at: usize,
    o: ToolOutcomeKind,
)
    ensures
        s.phase == ActorPhase::Dispatching(n, at) ==> next(s, c, ActorInput::ToolDone(o)) == (
            ActorState { phase: ActorPhase::EmittingOutcome(n, at, o), ..s },
            ActorAction::EmitOutcome,
        ) && ends_as(next(s, c, ActorInput::ToolsCancelled).1, TransactionEndKind::Cancelled),
        s.phase == ActorPhase::EmittingOutcome(n, at, o) ==> ({
            let told = next(s, c, ActorInput::Emitted(true)).1;
            &&& ends_as(
                next(s, c, ActorInput::Emitted(false)).1,
                TransactionEndKind::EventDeliveryFailed,
            )
            &&& o == ToolOutcomeKind::Rejected ==> told == ActorAction::EmitRejection
            &&& o == ToolOutcomeKind::RuntimeFailed ==> ends_as(
                told,
                TransactionEndKind::ToolExchangeFailed,
            )
        }),
        s.phase == ActorPhase::EmittingRejection(n, at) ==> ends_as(
            next(s, c, ActorInput::Emitted(false)).1,
            TransactionEndKind::EventDeliveryFailed,
        ),
        s.phase == ActorPhase::EmittingRejection(n, at) && at + 1 < n ==> next(
            s,
            c,
            ActorInput::Emitted(true),
        ).1 == ActorAction::DispatchTool((at + 1) as usize),
{
}

/// A continuation is asked with what is left, once the transcript was appended to
/// and encoded within its bounds.
pub proof fn continuation_is_asked(s: ActorState, c: ActorSetting, size: usize, bytes: usize)
    requires
        s.phase == ActorPhase::Appending,
        size <= c.max_context_bytes,
        bytes <= c.max_context_bytes,
        bytes <= c.max_encoded_bytes,
        s.input_bytes <= c.max_input_bytes,
        s.output_bytes <= c.max_output_bytes,
    ensures
        ({
            let a = next(s, c, ActorInput::Appended(Some(size)));
            let b = next(a.0, c, ActorInput::Encoded(Some(bytes)));
            let d = next(b.0, c, ActorInput::Spawned(true));
            &&& a.1 == ActorAction::Encode
            &&& b.1 == ActorAction::SpawnFanOut
            &&& d.1 == (ActorAction::RunExchange {
                remaining_input: (c.max_input_bytes - s.input_bytes) as usize,
                remaining_output: (c.max_output_bytes - s.output_bytes) as usize,
            })
            &&& d.0.phase == ActorPhase::Continuing
        }),
{
}

/// A continuation that cannot be is told: what cannot be encoded, and what is over a
/// bound.
pub proof fn continuation_that_cannot_be_is_told(
    s: ActorState,
    c: ActorSetting,
    size: usize,
)
    ensures
        s.phase == ActorPhase::Appending ==> ends_as(
            next(s, c, ActorInput::Appended(None)).1,
            TransactionEndKind::EncodingFailed,
        ),
        s.phase == ActorPhase::Appending && size > c.max_context_bytes ==> ends_as(
            next(s, c, ActorInput::Appended(Some(size))).1,
            TransactionEndKind::LimitExceeded,
        ),
        s.phase == ActorPhase::Encoding ==> ends_as(
            next(s, c, ActorInput::Encoded(None)).1,
            TransactionEndKind::EncodingFailed,
        ),
        s.phase == ActorPhase::Encoding && (size > c.max_context_bytes || size
            > c.max_encoded_bytes) ==> ends_as(
            next(s, c, ActorInput::Encoded(Some(size))).1,
            TransactionEndKind::LimitExceeded,
        ),
{
}

/// A continuation is counted like the first exchange, and decides like it.
pub proof fn continuation_is_counted(s: ActorState, c: ActorSetting, r: ActorExchange)
    requires
        s.phase == ActorPhase::JoiningContinuationFanOut(r),
        s.exchanges_done < usize::MAX,
        s.continuations_done < usize::MAX,
        s.input_bytes + r.request_bytes <= usize::MAX,
        s.output_bytes + r.unit_bytes <= c.max_output_bytes,
    ensures
        ({
            let a = next(s, c, ActorInput::Joined(ChildEnd::Fine));
            let wants = c.tool_mode == ToolExecutionMode::ModelToolCalls && r.ready > 0;
            &&& a.0.exchanges_done == s.exchanges_done + 1
            &&& a.0.continuations_done == s.continuations_done + 1
            &&& a.0.input_bytes == s.input_bytes + r.request_bytes
            &&& a.0.output_bytes == s.output_bytes + r.unit_bytes
            &&& r.failure matches Some(f) ==> ends_as(a.1, failure_kind(f))
            &&& r.failure is None && !wants ==> ends_as(a.1, TransactionEndKind::Completed)
            &&& r.failure is None && wants && s.session_known ==> a.1
                == ActorAction::DispatchTool(0)
        }),
{
}

/// The end goes by what won the race: a delivery that failed, the deadline, or what
/// the work came to; and work that lost is cancelled.
pub proof fn end_goes_by_the_race(s: ActorState, c: ActorSetting, k: TransactionEndKind)
    ensures
        settlement(s, c, RaceEnd::Work(k)).kind == k,
        !settlement(s, c, RaceEnd::Work(k)).cancel_work,
        settlement(s, c, RaceEnd::Deadline).kind == TransactionEndKind::DeadlineExceeded,
        settlement(s, c, RaceEnd::Deadline).cancel_work,
        settlement(s, c, RaceEnd::Delivery { failed: true }).kind
            == TransactionEndKind::EventDeliveryFailed,
        settlement(s, c, RaceEnd::Delivery { failed: true }).cancel_work,
        settlement(s, c, RaceEnd::Delivery { failed: false }).cancel_work,
{
}

} // verus!
