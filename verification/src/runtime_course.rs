//! What a loop owes to every tool request, whatever it did before.

use crate::contracts::{
    CanonicalUnitEvent, CanonicalUnitSnapshot, LoopEndKind, LoopLimits, LoopOutputEvent, LoopScope,
    OutboundToolOutcome, ToolRequestState, ToolUnavailableReason, ToolUnit,
};
use crate::registry::{ToolRegistryError, ToolResolution};
use crate::runtime::{
    action_key, admits, carries_out, counters_have_room, next, ActionState, LoopAction, LoopInput,
    LoopModel, LoopPhase, LoopSetting, LoopVerdict, PendingDispatch,
};
use crate::runtime_laws::{run, unavailable_course};
use crate::subscription::{DeliveredEvent, SubscriptionStatus};
use crate::text::texts;
use vstd::prelude::*;

verus! {

/// The unit of a delivery.
pub open spec fn delivered_unit(d: DeliveredEvent) -> CanonicalUnitSnapshot {
    d.event->Unit_0.unit_snapshot()
}

/// The tool of a delivery.
pub open spec fn delivered_tool(d: DeliveredEvent) -> ToolUnit {
    delivered_unit(d).unit->Tool_0
}

/// Key of the action of a delivery.
pub open spec fn delivered_key(d: DeliveredEvent) -> Seq<char> {
    delivered_unit(d).interpretation_id@ + ":"@ + delivered_tool(d).tool_action_id@
}

/// Whether a delivery is the next one of its subscription.
pub open spec fn in_sequence(m: LoopModel, d: DeliveredEvent) -> bool {
    m.last_seq == 0 || d.delivery_sequence == m.last_seq + 1
}

/// Whether a delivery is a complete tool request, with name and payload, that a
/// scope admits.
pub open spec fn is_complete_request(scope: LoopScope, d: DeliveredEvent) -> bool {
    &&& d.event is Unit
    &&& delivered_unit(d).unit is Tool
    &&& admits(scope, delivered_unit(d))
    &&& delivered_tool(d).request_state == ToolRequestState::Ready
    &&& delivered_tool(d).tool_name is Some
    &&& delivered_tool(d).request_payload is Some
}

/// Whether a request is still to be answered: this version of it was not seen,
/// its action was not dispatched, and nothing newer of the action is known.
pub open spec fn is_unanswered(m: LoopModel, d: DeliveredEvent) -> bool {
    let key = delivered_key(d);
    &&& !m.seen.contains((key, delivered_unit(d).unit_generation))
    &&& m.actions.dom().contains(key) ==> !m.actions[key].dispatched
        && m.actions[key].last_generation <= delivered_unit(d).unit_generation
}

/// Whether a loop has room to remember a number of further requests.
pub open spec fn has_room_for(m: LoopModel, limits: LoopLimits, n: nat) -> bool {
    &&& m.seen.len() + n <= limits.max_dedup_entries
    &&& m.actions.dom().len() + n <= limits.max_tool_actions
}

/// The dispatch that a request gets.
pub open spec fn dispatch_of(d: DeliveredEvent) -> PendingDispatch {
    PendingDispatch {
        tool_action_id: delivered_tool(d).tool_action_id,
        unit_id: delivered_unit(d).unit_id,
        generation: delivered_unit(d).unit_generation,
        tool_name: delivered_tool(d).tool_name->0,
        request_payload: delivered_tool(d).request_payload->0,
        interpretation_id: delivered_unit(d).interpretation_id,
        connection_id: delivered_unit(d).connection_id,
        external_session_id: delivered_unit(d).external_session_id,
    }
}

/// A unit event is about its unit, whatever happened to it.
pub proof fn event_is_about_its_unit(s: CanonicalUnitSnapshot)
    ensures
        CanonicalUnitEvent::Created(s).unit_snapshot() == s,
        CanonicalUnitEvent::Advanced(s).unit_snapshot() == s,
        CanonicalUnitEvent::Completed(s).unit_snapshot() == s,
        CanonicalUnitEvent::Incomplete(s).unit_snapshot() == s,
{
}

/// A scope admits a unit unless it names interpretations, connections or outside
/// sessions and the unit's is not among those named; a scope over the whole run
/// admits every unit.
pub proof fn scope_excludes_only_what_it_does_not_name(
    scope: LoopScope,
    snap: CanonicalUnitSnapshot,
)
    ensures
        scope.accept_all_in_run ==> admits(scope, snap),
        !scope.accept_all_in_run ==> (admits(scope, snap) <==> {
            &&& scope.accepted_interpretation_ids@.len() > 0 ==> exists|i: int|
                0 <= i < scope.accepted_interpretation_ids@.len() && (
                #[trigger] scope.accepted_interpretation_ids@[i])@ == snap.interpretation_id@
            &&& scope.accepted_connection_ids@.len() > 0 ==> exists|i: int|
                0 <= i < scope.accepted_connection_ids@.len() && (
                #[trigger] scope.accepted_connection_ids@[i])@ == snap.connection_id@
            &&& scope.accepted_external_session_ids@.len() > 0 ==> snap.external_session_id is Some
                && exists|i: int|
                0 <= i < scope.accepted_external_session_ids@.len() && (
                #[trigger] scope.accepted_external_session_ids@[i])@
                    == snap.external_session_id->0@
        }),
{
    if !scope.accept_all_in_run {
        lemma_named(scope.accepted_interpretation_ids@, snap.interpretation_id@);
        lemma_named(scope.accepted_connection_ids@, snap.connection_id@);
        if snap.external_session_id is Some {
            lemma_named(scope.accepted_external_session_ids@, snap.external_session_id->0@);
        }
    }
}

proof fn lemma_named(list: Seq<String>, id: Seq<char>)
    ensures
        texts(list).contains(id) <==> exists|i: int|
            0 <= i < list.len() && (#[trigger] list[i])@ == id,
{
    if texts(list).contains(id) {
        let i = choose|i: int| 0 <= i < texts(list).len() && texts(list)[i] == id;
        assert(list[i]@ == id);
    }
    if exists|i: int| 0 <= i < list.len() && (#[trigger] list[i])@ == id {
        let i = choose|i: int| 0 <= i < list.len() && (#[trigger] list[i])@ == id;
        assert(texts(list)[i] == id);
    }
}

/// Actions are told apart by their interpretation and their own identity.
pub proof fn actions_are_told_apart(i: Seq<char>, a: Seq<char>, b: Seq<char>)
    ensures
        action_key(i, a) == i + ":"@ + a,
        action_key(i, a) == action_key(i, b) ==> a == b,
{
    let n = (i + ":"@).len() as int;
    assert(action_key(i, a).skip(n) =~= a);
    assert(action_key(i, b).skip(n) =~= b);
}

/// A delivery is dispatched if and only if it is owed: it is the next one, it is
/// a complete request that the scope admits, it is still to be answered, and
/// there is room to remember it. What else the loop has dispatched or answered
/// before does not matter.
pub proof fn request_is_dispatched_iff_owed(
    m: LoopModel,
    scope: LoopScope,
    limits: LoopLimits,
    d: DeliveredEvent,
)
    requires
        m.phase is Receiving,
    ensures
        ({
            let v = next(m, scope, limits, LoopInput::Received(Some(Ok(d)))).1;
            let owed = {
                &&& in_sequence(m, d)
                &&& is_complete_request(scope, d)
                &&& is_unanswered(m, d)
                &&& m.seen.len() < limits.max_dedup_entries
                &&& m.actions.dom().contains(delivered_key(d)) || m.actions.dom().len()
                    < limits.max_tool_actions
            };
            &&& v is AnnounceDispatch <==> owed
            &&& v is AnnounceDispatch ==> v == LoopVerdict::AnnounceDispatch(dispatch_of(d))
        }),
{
}

/// Verdicts of a run, in order.
pub open spec fn verdicts(
    m: LoopModel,
    scope: LoopScope,
    limits: LoopLimits,
    inputs: Seq<LoopInput>,
) -> Seq<LoopVerdict>
    decreases inputs.len(),
{
    if inputs.len() == 0 {
        Seq::empty()
    } else {
        let s = next(m, scope, limits, inputs[0]);
        seq![s.1] + verdicts(s.0, scope, limits, inputs.drop_first())
    }
}

/// Reports about a request whose tool does not exist, where every send works.
pub open spec fn reports(d: DeliveredEvent, reason: ToolUnavailableReason) -> Seq<LoopInput> {
    seq![
        LoopInput::Received(Some(Ok(d))),
        LoopInput::Sent(true),
        LoopInput::Resolved(Ok(ToolResolution::Unavailable(reason))),
        LoopInput::Sent(true),
        LoopInput::Sent(true),
    ]
}

/// Reports about requests, one after another.
pub open spec fn all_reports(
    requests: Seq<DeliveredEvent>,
    reason: ToolUnavailableReason,
) -> Seq<LoopInput>
    decreases requests.len(),
{
    if requests.len() == 0 {
        Seq::empty()
    } else {
        reports(requests[0], reason) + all_reports(requests.drop_first(), reason)
    }
}

/// The whole course of a request whose tool does not exist.
pub open spec fn whole_course(d: DeliveredEvent, reason: ToolUnavailableReason) -> Seq<
    LoopVerdict,
> {
    seq![
        LoopVerdict::AnnounceDispatch(dispatch_of(d)),
        LoopVerdict::Resolve(dispatch_of(d)),
        LoopVerdict::AnnounceUnavailable(dispatch_of(d), reason),
        LoopVerdict::Result(dispatch_of(d), OutboundToolOutcome::ToolUnavailable, reason.text()),
        LoopVerdict::Receive,
    ]
}

/// The whole courses of requests, one after another.
pub open spec fn whole_courses(
    requests: Seq<DeliveredEvent>,
    reason: ToolUnavailableReason,
) -> Seq<LoopVerdict>
    decreases requests.len(),
{
    if requests.len() == 0 {
        Seq::empty()
    } else {
        whole_course(requests[0], reason) + whole_courses(requests.drop_first(), reason)
    }
}

proof fn lemma_run_split(
    m: LoopModel,
    scope: LoopScope,
    limits: LoopLimits,
    a: Seq<LoopInput>,
    b: Seq<LoopInput>,
)
    ensures
        run(m, scope, limits, a + b) == run(run(m, scope, limits, a), scope, limits, b),
        verdicts(m, scope, limits, a + b) == verdicts(m, scope, limits, a) + verdicts(
            run(m, scope, limits, a),
            scope,
            limits,
            b,
        ),
    decreases a.len(),
{
    if a.len() == 0 {
        assert(a + b =~= b);
        assert(verdicts(m, scope, limits, a) + verdicts(m, scope, limits, b) =~= verdicts(
            m,
            scope,
            limits,
            b,
        ));
    } else {
        let s = next(m, scope, limits, a[0]);
        assert((a + b)[0] == a[0]);
        assert((a + b).drop_first() =~= a.drop_first() + b);
        lemma_run_split(s.0, scope, limits, a.drop_first(), b);
        assert(verdicts(m, scope, limits, a + b) =~= verdicts(m, scope, limits, a) + verdicts(
            run(m, scope, limits, a),
            scope,
            limits,
            b,
        ));
    }
}

proof fn lemma_run_one(m: LoopModel, scope: LoopScope, limits: LoopLimits, input: LoopInput)
    ensures
        run(m, scope, limits, seq![input]) == next(m, scope, limits, input).0,
        verdicts(m, scope, limits, seq![input]) == seq![next(m, scope, limits, input).1],
{
    let one = seq![input];
    let s = next(m, scope, limits, input);
    assert(one.drop_first() =~= Seq::<LoopInput>::empty());
    assert(run(s.0, scope, limits, one.drop_first()) == s.0);
    assert(verdicts(s.0, scope, limits, one.drop_first()) =~= Seq::<LoopVerdict>::empty());
    assert(seq![s.1] + Seq::<LoopVerdict>::empty() =~= seq![s.1]);
}

/// Every request that is owed an answer gets the whole of it, not a part: where
/// its tool does not exist and every send works, there is one dispatch, one
/// question, one notice and one result, and the loop waits for the next delivery.
/// Nothing changes for any other action, so what they are owed stays owed.
pub proof fn owed_request_is_answered_in_full(
    m: LoopModel,
    scope: LoopScope,
    limits: LoopLimits,
    d: DeliveredEvent,
    reason: ToolUnavailableReason,
)
    requires
        m.phase is Receiving,
        counters_have_room(m),
        in_sequence(m, d),
        is_complete_request(scope, d),
        is_unanswered(m, d),
        has_room_for(m, limits, 1),
    ensures
        verdicts(m, scope, limits, reports(d, reason)) == whole_course(d, reason),
        ({
            let after = run(m, scope, limits, reports(d, reason));
            let key = delivered_key(d);
            &&& after.phase is Receiving
            &&& after.last_seq == d.delivery_sequence
            &&& after.seen == m.seen.insert((key, delivered_unit(d).unit_generation))
            &&& after.actions.dom() == m.actions.dom().insert(key)
            &&& after.actions[key].dispatched
            &&& after.actions[key].state == ActionState::Unavailable
            &&& forall|k: Seq<char>|
                k != key && m.actions.dom().contains(k) ==> #[trigger] after.actions[k]
                    == m.actions[k]
            &&& after.delivery_events == m.delivery_events + 1
            &&& after.tools_unavailable == m.tools_unavailable + 1
            &&& after.outbound_results == m.outbound_results + 1
            &&& after.duplicates == m.duplicates
            &&& after.diagnostics == m.diagnostics
        }),
{
    let i0 = LoopInput::Received(Some(Ok(d)));
    let i2 = LoopInput::Resolved(Ok(ToolResolution::Unavailable(reason)));
    let sent = LoopInput::Sent(true);
    let a = next(m, scope, limits, i0).0;
    let b = next(a, scope, limits, sent).0;
    let c = next(b, scope, limits, i2).0;
    let e = next(c, scope, limits, sent).0;
    lemma_run_one(m, scope, limits, i0);
    lemma_run_one(a, scope, limits, sent);
    lemma_run_one(b, scope, limits, i2);
    lemma_run_one(c, scope, limits, sent);
    lemma_run_one(e, scope, limits, sent);
    let all = reports(d, reason);
    assert(all =~= seq![i0] + (seq![sent] + (seq![i2] + (seq![sent] + seq![sent]))));
    lemma_run_split(c, scope, limits, seq![sent], seq![sent]);
    lemma_run_split(b, scope, limits, seq![i2], seq![sent] + seq![sent]);
    lemma_run_split(a, scope, limits, seq![sent], seq![i2] + (seq![sent] + seq![sent]));
    lemma_run_split(
        m,
        scope,
        limits,
        seq![i0],
        seq![sent] + (seq![i2] + (seq![sent] + seq![sent])),
    );
    assert(verdicts(m, scope, limits, all) =~= whole_course(d, reason));
    let after = run(m, scope, limits, all);
    assert(after.actions.dom() =~= m.actions.dom().insert(delivered_key(d)));
}

/// Whether requests come one after another and each is owed an answer, with
/// different actions.
pub open spec fn all_owed(
    m: LoopModel,
    scope: LoopScope,
    requests: Seq<DeliveredEvent>,
) -> bool {
    &&& requests.len() > 0 ==> in_sequence(m, requests[0])
    &&& forall|i: int|
        0 <= i < requests.len() ==> is_complete_request(scope, #[trigger] requests[i])
            && is_unanswered(m, requests[i])
    &&& forall|i: int|
        0 < i < requests.len() ==> (#[trigger] requests[i]).delivery_sequence == requests[i
            - 1].delivery_sequence + 1
    &&& forall|i: int, j: int|
        0 <= i < j < requests.len() ==> delivered_key(#[trigger] requests[i]) != delivered_key(
            #[trigger] requests[j],
        )
}

/// However many requests come one after another: each gets the whole of its
/// answer, and the account counts every one of them.
pub proof fn every_owed_request_is_answered(
    m: LoopModel,
    scope: LoopScope,
    limits: LoopLimits,
    requests: Seq<DeliveredEvent>,
    reason: ToolUnavailableReason,
)
    requires
        m.phase is Receiving,
        m.seen.finite(),
        m.actions.dom().finite(),
        all_owed(m, scope, requests),
        has_room_for(m, limits, requests.len()),
        forall|i: int|
            0 <= i < requests.len() ==> (#[trigger] requests[i]).delivery_sequence < u64::MAX,
        m.last_seq < u64::MAX,
        m.duplicates < u64::MAX,
        m.delivery_events + requests.len() < u64::MAX,
        m.tools_unavailable + requests.len() < u64::MAX,
        m.outbound_results + requests.len() < u64::MAX,
    ensures
        verdicts(m, scope, limits, all_reports(requests, reason)) == whole_courses(
            requests,
            reason,
        ),
        ({
            let after = run(m, scope, limits, all_reports(requests, reason));
            &&& after.phase is Receiving
            &&& after.tools_unavailable == m.tools_unavailable + requests.len()
            &&& after.outbound_results == m.outbound_results + requests.len()
            &&& after.delivery_events == m.delivery_events + requests.len()
            &&& after.duplicates == m.duplicates
        }),
    decreases requests.len(),
{
    if requests.len() > 0 {
        let d = requests[0];
        let rest = requests.drop_first();
        let key = delivered_key(d);
        let first = reports(d, reason);
        let after = run(m, scope, limits, first);
        owed_request_is_answered_in_full(m, scope, limits, d, reason);
        assert forall|i: int| 0 <= i < rest.len() implies is_complete_request(
            scope,
            #[trigger] rest[i],
        ) && is_unanswered(after, rest[i]) by {
            assert(rest[i] == requests[i + 1]);
            assert(delivered_key(requests[0]) != delivered_key(requests[i + 1]));
            let k = delivered_key(rest[i]);
            assert(is_unanswered(m, requests[i + 1]));
            if after.actions.dom().contains(k) {
                assert(m.actions.dom().contains(k));
                assert(after.actions[k] == m.actions[k]);
            }
        }
        assert forall|i: int| 0 < i < rest.len() implies (#[trigger] rest[i]).delivery_sequence
            == rest[i - 1].delivery_sequence + 1 by {
            assert(rest[i] == requests[i + 1]);
            assert(rest[i - 1] == requests[i]);
        }
        if rest.len() > 0 {
            assert(rest[0] == requests[1]);
            assert(requests[1].delivery_sequence == requests[0].delivery_sequence + 1);
        }
        assert forall|i: int, j: int| 0 <= i < j < rest.len() implies delivered_key(
            #[trigger] rest[i],
        ) != delivered_key(#[trigger] rest[j]) by {
            assert(rest[i] == requests[i + 1]);
            assert(rest[j] == requests[j + 1]);
        }
        assert forall|i: int| 0 <= i < rest.len() implies (#[trigger] rest[i]).delivery_sequence
            < u64::MAX by {
            assert(rest[i] == requests[i + 1]);
        }
        every_owed_request_is_answered(after, scope, limits, rest, reason);
        lemma_run_split(m, scope, limits, first, all_reports(rest, reason));
    }
}

/// What a course says is what its action says: dispatch, question, notice and
/// result are about one and the same request.
pub proof fn courses_agree(d: DeliveredEvent, reason: ToolUnavailableReason)
    ensures
        whole_course(d, reason) == unavailable_course(dispatch_of(d), reason).push(
            LoopVerdict::Receive,
        ),
{
    assert(whole_course(d, reason) =~= unavailable_course(dispatch_of(d), reason).push(
        LoopVerdict::Receive,
    ));
}

/// A loop ends for the reason that was reported: a closed subscription is
/// drained, a lost one or one with a gap is lost, a cancellation is one, an output
/// that takes nothing fails, and a registry that fails breaks the loop.
pub proof fn end_is_told_as_what_it_is(
    m: LoopModel,
    scope: LoopScope,
    limits: LoopLimits,
    status: SubscriptionStatus,
    error: ToolRegistryError,
)
    ensures
        m.phase is Receiving ==> {
            &&& next(m, scope, limits, LoopInput::Cancelled).1 == LoopVerdict::Finish(
                LoopEndKind::Cancelled,
            )
            &&& next(m, scope, limits, LoopInput::Received(None)).1 == LoopVerdict::Finish(
                LoopEndKind::Drained,
            )
            &&& status is Gap || status is Lost ==> next(
                m,
                scope,
                limits,
                LoopInput::Received(Some(Err(status))),
            ).1 == LoopVerdict::Finish(LoopEndKind::SubscriptionLost)
            &&& !(status is Gap || status is Lost) ==> next(
                m,
                scope,
                limits,
                LoopInput::Received(Some(Err(status))),
            ) == (m, LoopVerdict::Receive)
        },
        m.phase is SendingDispatch || m.phase is SendingUnavailable || m.phase is SendingResult
            ==> next(m, scope, limits, LoopInput::Sent(false)).1 == LoopVerdict::Finish(
            LoopEndKind::OutputFailed,
        ),
        m.phase is Resolving ==> next(m, scope, limits, LoopInput::Resolved(Err(error))).1
            == LoopVerdict::Finish(LoopEndKind::InvariantFailed),
{
}

/// Units that ask for nothing change nothing but the sequence and the count of
/// deliveries: texts and the like, and the end of an interpretation.
pub proof fn other_deliveries_are_counted_only(
    m: LoopModel,
    scope: LoopScope,
    limits: LoopLimits,
    d: DeliveredEvent,
)
    requires
        m.phase is Receiving,
        counters_have_room(m),
        in_sequence(m, d),
        d.event is Ended || !(delivered_unit(d).unit is Tool) || !admits(
            scope,
            delivered_unit(d),
        ),
    ensures
        next(m, scope, limits, LoopInput::Received(Some(Ok(d)))) == (
            LoopModel {
                last_seq: d.delivery_sequence,
                delivery_events: (m.delivery_events + 1) as u64,
                ..m
            },
            LoopVerdict::Receive,
        ),
{
}

/// A request that is not complete is remembered with its newest generation, and
/// never dispatched: one that still streams waits, one that cannot be complete is
/// noted as such.
pub proof fn incomplete_request_is_remembered(
    m: LoopModel,
    scope: LoopScope,
    limits: LoopLimits,
    d: DeliveredEvent,
)
    requires
        m.phase is Receiving,
        in_sequence(m, d),
        d.event is Unit,
        delivered_unit(d).unit is Tool,
        admits(scope, delivered_unit(d)),
        delivered_tool(d).request_state != ToolRequestState::Ready,
        is_unanswered(m, d),
        m.seen.len() < limits.max_dedup_entries,
    ensures
        ({
            let s = next(m, scope, limits, LoopInput::Received(Some(Ok(d))));
            let key = delivered_key(d);
            &&& s.1 == LoopVerdict::Receive
            &&& s.0.seen == m.seen.insert((key, delivered_unit(d).unit_generation))
            &&& s.0.actions.dom().contains(key)
            &&& s.0.actions[key].last_generation == delivered_unit(d).unit_generation
            &&& !s.0.actions[key].dispatched
            &&& delivered_tool(d).request_state != ToolRequestState::Assembling ==> (
            s.0.actions[key].state == ActionState::Incomplete)
            &&& forall|k: Seq<char>|
                k != key && m.actions.dom().contains(k) ==> #[trigger] s.0.actions[k]
                    == m.actions[k]
        }),
{
}

/// A request that the loop has no room to remember breaks it.
pub proof fn request_without_room_breaks_the_loop(
    m: LoopModel,
    scope: LoopScope,
    limits: LoopLimits,
    d: DeliveredEvent,
)
    requires
        m.phase is Receiving,
        in_sequence(m, d),
        is_complete_request(scope, d),
        is_unanswered(m, d),
        m.seen.len() >= limits.max_dedup_entries || (m.actions.dom().len()
            >= limits.max_tool_actions && !m.actions.dom().contains(delivered_key(d))),
    ensures
        next(m, scope, limits, LoopInput::Received(Some(Ok(d)))).1 == LoopVerdict::Finish(
            LoopEndKind::InvariantFailed,
        ),
{
}

/// What the loop puts out is what its verdict says, in the words of the request:
/// the result goes to the interpretation, connection, session, unit, action and
/// generation that asked, and the end gives the account as it stands.
pub proof fn output_is_that_of_the_request(
    action: LoopAction,
    setting: LoopSetting,
    m: LoopModel,
    v: LoopVerdict,
    id: Seq<char>,
)
    requires
        carries_out(action, setting, m, v, id),
    ensures
        v matches LoopVerdict::AnnounceDispatch(p) ==> action == LoopAction::Send(
            LoopOutputEvent::ToolDispatchRequested {
                tool_action_id: p.tool_action_id,
                request_generation: p.generation,
            },
        ),
        v matches LoopVerdict::Resolve(p) ==> action matches LoopAction::Resolve(q) && {
            &&& q.tool_action_id == p.tool_action_id
            &&& q.tool_name == p.tool_name
            &&& q.request_payload == p.request_payload
        },
        v matches LoopVerdict::AnnounceUnavailable(p, reason) ==> action == LoopAction::Send(
            LoopOutputEvent::ToolUnavailable { tool_action_id: p.tool_action_id, reason },
        ),
        v matches LoopVerdict::Result(p, outcome, payload) ==> action matches LoopAction::Send(
            LoopOutputEvent::OutboundToolResult(r),
        ) && {
            &&& r.outbound_result_id@ == id
            &&& r.monoloop_run_id == setting.monoloop_run_id
            &&& r.loop_id == setting.loop_id
            &&& r.source_interpretation_id == p.interpretation_id
            &&& r.source_connection_id == p.connection_id
            &&& r.external_session_id == p.external_session_id
            &&& r.source_unit_id == p.unit_id
            &&& r.tool_action_id == p.tool_action_id
            &&& r.request_generation == p.generation
            &&& r.tool_execution_id is None
            &&& r.outcome == outcome
            &&& r.payload@ == payload
        },
        v matches LoopVerdict::Finish(kind) ==> action matches LoopAction::Finish(end) && {
            &&& end.kind == kind
            &&& end.monoloop_run_id == setting.monoloop_run_id
            &&& end.loop_id == setting.loop_id
            &&& end.delivery_events_received == m.delivery_events
            &&& end.duplicate_events == m.duplicates
            &&& end.tools_unavailable == m.tools_unavailable
            &&& end.outbound_results_emitted == m.outbound_results
            &&& texts(end.safe_diagnostics@) == m.diagnostics
        },
{
}

/// A tool that exists is answered as rejected, once, and the loop goes on.
pub proof fn available_tool_is_answered_as_rejected(
    m: LoopModel,
    scope: LoopScope,
    limits: LoopLimits,
    p: PendingDispatch,
    resolution: ToolResolution,
)
    requires
        m.phase == LoopPhase::Resolving(p),
        resolution is Available,
    ensures
        ({
            let a = next(m, scope, limits, LoopInput::Resolved(Ok(resolution)));
            let b = next(a.0, scope, limits, LoopInput::Sent(true));
            &&& a.1 matches LoopVerdict::Result(q, outcome, _) && q == p && outcome
                == OutboundToolOutcome::DispatchRejected
            &&& a.0.tools_unavailable == m.tools_unavailable
            &&& a.0.actions == m.actions
            &&& b.1 == LoopVerdict::Receive
            &&& b.0.phase is Receiving
        }),
{
}

} // verus!
