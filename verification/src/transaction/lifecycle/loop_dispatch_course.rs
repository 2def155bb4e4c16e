//! What a tool pass over an exchange owes: every unit fed, every result told, and
//! the end that the loop came to.

use crate::contracts::{
    CanonicalUnit, CanonicalUnitEvent, LoopEndKind, OutboundToolOutcome, OutboundToolResult,
};
use crate::identity::ExchangeId;
use crate::json::JsonText;
use crate::text::utf8_len;
use crate::transaction::lifecycle::loop_dispatch::{
    counts_as_completed, failure_message, is_ready, is_scoped_event, next, provider_identity,
    result_for_parsed, scoped_action, InlineDrive, Interruptible, LoopDispatchError, PassAction,
    PassInput, PassPhase, PassResult, PassSetting, PassSpawn,
};
use crate::transaction::lifecycle::session_identity::exchange_action;
use crate::transaction::types::{
    CanonicalToolOutput, CanonicalToolResult, CanonicalToolResultOutcome,
};
use vstd::prelude::*;

verus! {

/// Phase after the loop was handed over and a number of units were fed.
pub open spec fn after_feeding(count: usize, fed: nat) -> PassPhase
    decreases fed,
{
    if fed == 0 {
        next(PassPhase::Spawning, count, PassInput::Spawned(PassSpawn::Taken)).0
    } else {
        next(
            after_feeding(count, (fed - 1) as nat),
            count,
            PassInput::Fed(Interruptible::Done),
        ).0
    }
}

/// What the pass does once a number of units were fed.
pub open spec fn action_after_feeding(count: usize, fed: nat) -> PassAction {
    if fed == 0 {
        next(PassPhase::Spawning, count, PassInput::Spawned(PassSpawn::Taken)).1
    } else {
        next(
            after_feeding(count, (fed - 1) as nat),
            count,
            PassInput::Fed(Interruptible::Done),
        ).1
    }
}

proof fn lemma_feeding(count: usize, i: nat)
    requires
        i < count,
    ensures
        after_feeding(count, i) == PassPhase::Feeding(i as usize),
        action_after_feeding(count, i) == PassAction::Feed(i as usize),
    decreases i,
{
    if i > 0 {
        lemma_feeding(count, (i - 1) as nat);
    }
}

/// Every unit of the exchange is fed to the loop, in order and once; only then is
/// the feed closed and the output read.
pub proof fn every_unit_is_fed(count: usize)
    ensures
        forall|i: nat|
            i < count ==> #[trigger] action_after_feeding(count, i) == PassAction::Feed(i as usize),
        action_after_feeding(count, count as nat) == PassAction::CheckCancel,
        next(
            after_feeding(count, count as nat),
            count,
            PassInput::CancelState(false),
        ).1 == PassAction::Read,
{
    assert forall|i: nat| i < count implies #[trigger] action_after_feeding(count, i)
        == PassAction::Feed(i as usize) by {
        lemma_feeding(count, i);
    }
    if count > 0 {
        lemma_feeding(count, (count - 1) as nat);
    }
}

/// The output is read until it ends, and then the end of the loop decides: a
/// drained loop makes the report stand, a cancelled one cancels, any other fails.
pub proof fn pass_goes_by_the_end_of_its_loop(count: usize, end: Option<LoopEndKind>)
    ensures
        next(PassPhase::Reading, count, PassInput::OutputIgnored) == (
            PassPhase::Reading,
            PassAction::Read,
        ),
        next(PassPhase::Publishing, count, PassInput::Published(Interruptible::Done)) == (
            PassPhase::Reading,
            PassAction::Read,
        ),
        next(PassPhase::Reading, count, PassInput::OutputEnded).1 == PassAction::AwaitEnd,
        ({
            let a = next(
                next(PassPhase::Reading, count, PassInput::OutputEnded).0,
                count,
                PassInput::Ended(end),
            ).1;
            &&& end == Some(LoopEndKind::Drained) <==> a == PassAction::Finish(
                PassResult::Reported,
            )
            &&& end is None || end == Some(LoopEndKind::Cancelled) <==> a == PassAction::Finish(
                PassResult::Failed(LoopDispatchError::Cancelled),
            )
            &&& a is Finish
            &&& a matches PassAction::Finish(PassResult::Failed(e)) ==> e
                == LoopDispatchError::Cancelled || e == LoopDispatchError::LoopFailed
        }),
{
}

/// What stopped a pass is told as what it was, and its loop is cancelled and waited
/// for first.
pub proof fn stopped_pass_is_told(count: usize, i: usize, d: InlineDrive, end: Option<LoopEndKind>)
    ensures
        ({
            let fed = next(PassPhase::Feeding(i), count, PassInput::Fed(Interruptible::Failed));
            let fed_cancel = next(
                PassPhase::Feeding(i),
                count,
                PassInput::Fed(Interruptible::Cancelled),
            );
            let published = next(
                PassPhase::Publishing,
                count,
                PassInput::Published(Interruptible::Failed),
            );
            let published_cancel = next(
                PassPhase::Publishing,
                count,
                PassInput::Published(Interruptible::Cancelled),
            );
            let reading = next(PassPhase::Reading, count, PassInput::Cancelled);
            let checked = next(PassPhase::CheckingCancel, count, PassInput::CancelState(true));
            let told = |p: PassPhase| next(p, count, PassInput::Ended(end)).1;
            let failed = |e: LoopDispatchError| PassAction::Finish(PassResult::Failed(e));
            &&& fed.1 == PassAction::CancelAndAwait && told(fed.0) == failed(
                LoopDispatchError::PublishFailed,
            )
            &&& published.1 == PassAction::CancelAndAwait && told(published.0) == failed(
                LoopDispatchError::PublishFailed,
            )
            &&& fed_cancel.1 == PassAction::CancelAndAwait && told(fed_cancel.0) == failed(
                LoopDispatchError::Cancelled,
            )
            &&& published_cancel.1 == PassAction::CancelAndAwait && told(published_cancel.0)
                == failed(LoopDispatchError::Cancelled)
            &&& reading.1 == PassAction::CancelAndAwait && told(reading.0) == failed(
                LoopDispatchError::Cancelled,
            )
            &&& checked.1 == PassAction::CancelAndAwait && told(checked.0) == failed(
                LoopDispatchError::Cancelled,
            )
        }),
        ({
            let a = next(PassPhase::Driving, count, PassInput::Drove(d)).1;
            a == PassAction::CheckCancel <==> !d.saw_cancel && d.fed == Some(Interruptible::Done)
        }),
{
}

/// A loop that cannot be handed over is driven here where the supervisor is only
/// busy; else the pass fails, or is cancelled where that was why.
pub proof fn loop_that_is_not_taken_is_told(count: usize)
    ensures
        next(PassPhase::Spawning, count, PassInput::Spawned(PassSpawn::Busy)).1
            == PassAction::DriveInline,
        next(
            PassPhase::Spawning,
            count,
            PassInput::Spawned(PassSpawn::Rejected { cancelled: true }),
        ).1 == PassAction::CancelAndFinish(LoopDispatchError::Cancelled),
        next(
            PassPhase::Spawning,
            count,
            PassInput::Spawned(PassSpawn::Rejected { cancelled: false }),
        ).1 == PassAction::CancelAndFinish(LoopDispatchError::StartFailed),
        next(PassPhase::Spawning, count, PassInput::Spawned(PassSpawn::Orphaned)).1
            == PassAction::CancelAndFinish(LoopDispatchError::StartFailed),
{
}

/// A unit is ready exactly where it is a tool's, its request is complete, and it has
/// name and payload.
pub proof fn ready_is_complete_with_name_and_payload(u: CanonicalUnitEvent)
    ensures
        is_ready(u) <==> (u.unit_snapshot().unit matches CanonicalUnit::Tool(t)
            && t.request_state == crate::contracts::ToolRequestState::Ready && t.tool_name is Some
            && t.request_payload is Some),
{
}

/// Scoping changes nothing of a unit but the identity of its action, which then is
/// of the exchange, and from which the provider's identity can be read.
pub proof fn scoping_changes_the_action_only(
    after: CanonicalUnitEvent,
    before: CanonicalUnitEvent,
    exchange_id: ExchangeId,
    provider: Seq<char>,
)
    requires
        is_scoped_event(after, before, exchange_id),
    ensures
        ({
            let a = after.unit_snapshot();
            let b = before.unit_snapshot();
            &&& a.unit_id == b.unit_id
            &&& a.interpretation_id == b.interpretation_id
            &&& a.connection_id == b.connection_id
            &&& a.external_session_id == b.external_session_id
            &&& a.flow_id == b.flow_id
            &&& a.lane_id == b.lane_id
            &&& a.lane_ordinal == b.lane_ordinal
            &&& a.unit_generation == b.unit_generation
            &&& !(b.unit is Tool) ==> a.unit == b.unit
            &&& b.unit matches CanonicalUnit::Tool(t) ==> (a.unit matches CanonicalUnit::Tool(s)
                && s.tool_name == t.tool_name && s.request_state == t.request_state
                && s.request_payload == t.request_payload && s.result_payload == t.result_payload
                && s.tool_action_id@ == scoped_action(exchange_id, t.tool_action_id@))
        }),
        is_ready(after) == is_ready(before),
        provider_identity(exchange_id, exchange_action(exchange_id, provider)) == provider,
        scoped_action(exchange_id, exchange_action(exchange_id, provider)) == exchange_action(
            exchange_id,
            provider,
        ),
{
    crate::transaction::lifecycle::session_identity::provider_identity_is_recoverable(
        exchange_id,
        provider,
    );
}

/// A result of the loop is told as what it is: it belongs to the transaction, the
/// session, the exchange and the action that asked, in its place. Where a linked
/// tool answered, that very answer is told; where only a payload came, a success
/// is told with the payload and a failure with its head.
pub proof fn result_is_told_as_what_it_is(
    s: PassSetting,
    r: OutboundToolResult,
    decoded: Option<CanonicalToolResult>,
    parsed: Option<JsonText>,
    ordinal: u32,
    result: CanonicalToolResult,
)
    requires
        call_ensures(result_for_parsed, (&s, &r, decoded, parsed, ordinal), result),
    ensures
        result.transaction_id == s.transaction_id,
        result.session_key == s.session_key,
        result.exchange_id == s.exchange_id,
        result.tool_action_id == r.tool_action_id,
        result.request_ordinal == ordinal,
        ({
            let ran = r.outcome == OutboundToolOutcome::Success || r.outcome
                == OutboundToolOutcome::ExecutionFailed;
            &&& ran && decoded is Some ==> result.outcome == decoded->0.outcome && result.tool_id
                == decoded->0.tool_id
            &&& r.outcome == OutboundToolOutcome::Success && decoded is None && parsed is None ==> (
            result.outcome matches CanonicalToolResultOutcome::Succeeded(
                CanonicalToolOutput::Text(t),
            ) && t == r.payload)
            &&& r.outcome == OutboundToolOutcome::Success && decoded is None && parsed is Some ==> (
            result.outcome matches CanonicalToolResultOutcome::Succeeded(
                CanonicalToolOutput::Json(t),
            ) && t@ == parsed->0@)
            &&& r.outcome == OutboundToolOutcome::ToolUnavailable ==> (result.outcome matches
                CanonicalToolResultOutcome::DomainFailed(e) && e.code@ == "tool_unavailable"@
                && e.message@ == "no_registered_tool"@ && e.data is None)
            &&& !ran && r.outcome != OutboundToolOutcome::ToolUnavailable ==> (
            result.outcome matches CanonicalToolResultOutcome::DomainFailed(e) && e.code@
                == "tool_execution_failed"@ && e.data is None && e.message@ == failure_message(
                r.payload@,
            ))
            &&& r.outcome == OutboundToolOutcome::ExecutionFailed && decoded is None ==> (
            result.outcome matches CanonicalToolResultOutcome::DomainFailed(e) && e.code@
                == "tool_execution_failed"@ && e.message@ == failure_message(r.payload@))
            &&& !(ran && decoded is Some) ==> result.provider_tool_call_id@ == provider_identity(
                s.exchange_id,
                r.tool_action_id@,
            )
            &&& ran && decoded is Some && decoded->0.provider_tool_call_id@.len() > 0 ==> (
            result.provider_tool_call_id@ == decoded->0.provider_tool_call_id@)
        }),
{
}

/// The message of a failure is its payload, or the head of it, where that is short;
/// else a word.
pub proof fn failure_is_told_by_its_head(payload: Seq<char>)
    ensures
        payload.len() <= 128 && utf8_len(payload) <= 256 ==> failure_message(payload) == payload,
        payload.len() > 128 && utf8_len(payload.take(128)) <= 256 ==> failure_message(payload)
            == payload.take(128),
        utf8_len(failure_message(payload)) <= 256 || failure_message(payload) == "failed"@,
{
}

/// A tool counts as completed exactly where it succeeded.
pub proof fn completed_is_succeeded(r: OutboundToolResult, decoded: Option<CanonicalToolResult>)
    ensures
        counts_as_completed(r, decoded) ==> r.outcome == OutboundToolOutcome::Success || r.outcome
            == OutboundToolOutcome::ExecutionFailed,
        (r.outcome == OutboundToolOutcome::Success || r.outcome
            == OutboundToolOutcome::ExecutionFailed) && decoded is Some ==> counts_as_completed(
            r,
            decoded,
        ) == (decoded->0.outcome is Succeeded),
        decoded is None ==> counts_as_completed(r, decoded) == (r.outcome
            == OutboundToolOutcome::Success),
{
}

} // verus!
