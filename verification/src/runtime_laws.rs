//! What holds of every run of a loop.

use crate::contracts::{
    CanonicalUnit, CanonicalUnitSnapshot, LoopEndKind, LoopLimits, LoopScope, OutboundToolOutcome,
    ToolUnavailableReason, ToolUnit,
};
use crate::registry::{ToolRegistryError, ToolResolution};
use crate::runtime::{
    action_key, admits, after_ready, after_unit, counters_have_room, initial, next, ActionRecord,
    LoopInput, LoopModel, LoopPhase, LoopVerdict, PendingDispatch, MAX_DIAGNOSTICS,
};
use crate::subscription::DeliveredEvent;
use vstd::prelude::*;

verus! {

/// State after a sequence of reports.
pub open spec fn run(
    m: LoopModel,
    scope: LoopScope,
    limits: LoopLimits,
    inputs: Seq<LoopInput>,
) -> LoopModel
    decreases inputs.len(),
{
    if inputs.len() == 0 {
        m
    } else {
        run(next(m, scope, limits, inputs[0]).0, scope, limits, inputs.drop_first())
    }
}

/// Whether an action was dispatched.
pub open spec fn dispatched(m: LoopModel, key: Seq<char>) -> bool {
    m.actions.dom().contains(key) && m.actions[key].dispatched
}

/// Whether a verdict announces the dispatch of an action.
pub open spec fn announces(v: LoopVerdict, key: Seq<char>) -> bool {
    match v {
        LoopVerdict::AnnounceDispatch(p) => action_key(p.interpretation_id@, p.tool_action_id@)
            == key,
        _ => false,
    }
}

/// How often an action is dispatched in a run.
pub open spec fn dispatch_count(
    m: LoopModel,
    scope: LoopScope,
    limits: LoopLimits,
    inputs: Seq<LoopInput>,
    key: Seq<char>,
) -> nat
    decreases inputs.len(),
{
    if inputs.len() == 0 {
        0
    } else {
        let s = next(m, scope, limits, inputs[0]);
        dispatch_count(s.0, scope, limits, inputs.drop_first(), key) + if announces(s.1, key) {
            1nat
        } else {
            0nat
        }
    }
}

/// How often a run ends.
pub open spec fn end_count(
    m: LoopModel,
    scope: LoopScope,
    limits: LoopLimits,
    inputs: Seq<LoopInput>,
) -> nat
    decreases inputs.len(),
{
    if inputs.len() == 0 {
        0
    } else {
        let s = next(m, scope, limits, inputs[0]);
        end_count(s.0, scope, limits, inputs.drop_first()) + if s.1 is Finish {
            1nat
        } else {
            0nat
        }
    }
}

/// An action that was dispatched stays so, and only one that was not is dispatched.
pub proof fn dispatch_is_permanent(
    m: LoopModel,
    scope: LoopScope,
    limits: LoopLimits,
    input: LoopInput,
    key: Seq<char>,
)
    ensures
        dispatched(m, key) ==> dispatched(next(m, scope, limits, input).0, key),
        announces(next(m, scope, limits, input).1, key) ==> !dispatched(m, key) && dispatched(
            next(m, scope, limits, input).0,
            key,
        ),
{
}

/// In any run, each tool action is dispatched at most once.
pub proof fn dispatch_is_at_most_once(
    m: LoopModel,
    scope: LoopScope,
    limits: LoopLimits,
    inputs: Seq<LoopInput>,
    key: Seq<char>,
)
    ensures
        dispatch_count(m, scope, limits, inputs, key) <= 1,
        dispatched(m, key) ==> dispatch_count(m, scope, limits, inputs, key) == 0,
    decreases inputs.len(),
{
    if inputs.len() > 0 {
        dispatch_is_permanent(m, scope, limits, inputs[0], key);
        dispatch_is_at_most_once(
            next(m, scope, limits, inputs[0]).0,
            scope,
            limits,
            inputs.drop_first(),
            key,
        );
    }
}

/// In any run the loop ends at most once, and what comes after changes nothing.
pub proof fn end_is_unique(
    m: LoopModel,
    scope: LoopScope,
    limits: LoopLimits,
    inputs: Seq<LoopInput>,
)
    ensures
        end_count(m, scope, limits, inputs) <= 1,
        m.phase is Ended ==> end_count(m, scope, limits, inputs) == 0 && run(
            m,
            scope,
            limits,
            inputs,
        ) == m,
    decreases inputs.len(),
{
    if inputs.len() > 0 {
        end_is_unique(next(m, scope, limits, inputs[0]).0, scope, limits, inputs.drop_first());
    }
}

/// A delivery out of sequence ends the loop as lost and touches no action.
pub proof fn gap_loses_subscription(
    m: LoopModel,
    scope: LoopScope,
    limits: LoopLimits,
    delivered: DeliveredEvent,
)
    requires
        m.phase is Receiving,
        m.last_seq > 0,
        delivered.delivery_sequence != m.last_seq + 1,
    ensures
        ({
            let s = next(m, scope, limits, LoopInput::Received(Some(Ok(delivered))));
            &&& s.1 == LoopVerdict::Finish(LoopEndKind::SubscriptionLost)
            &&& s.0.actions == m.actions
            &&& s.0.delivery_events == m.delivery_events
        }),
{
}

/// A delivery in sequence is counted once and moves the sequence by one.
pub proof fn delivery_in_sequence_is_counted(
    m: LoopModel,
    scope: LoopScope,
    limits: LoopLimits,
    delivered: DeliveredEvent,
)
    requires
        m.phase is Receiving,
        counters_have_room(m),
        m.last_seq == 0 || delivered.delivery_sequence == m.last_seq + 1,
    ensures
        ({
            let s = next(m, scope, limits, LoopInput::Received(Some(Ok(delivered))));
            &&& s.0.delivery_events == m.delivery_events + 1
            &&& s.0.last_seq == delivered.delivery_sequence
        }),
{
}

/// A unit outside the scope moves the sequence only.
pub proof fn out_of_scope_is_inert(
    m: LoopModel,
    scope: LoopScope,
    limits: LoopLimits,
    snap: CanonicalUnitSnapshot,
)
    requires
        !admits(scope, snap),
    ensures
        after_unit(m, scope, limits, snap) == (m, Ok::<(), LoopEndKind>(())),
{
}

/// A generation that was handled before is counted as a repeat and changes nothing else.
pub proof fn repeat_is_inert(
    m: LoopModel,
    scope: LoopScope,
    limits: LoopLimits,
    snap: CanonicalUnitSnapshot,
)
    requires
        admits(scope, snap),
        m.duplicates < u64::MAX,
        snap.unit matches CanonicalUnit::Tool(tool) && m.seen.contains(
            (action_key(snap.interpretation_id@, tool.tool_action_id@), snap.unit_generation),
        ),
    ensures
        after_unit(m, scope, limits, snap) == (
            LoopModel { duplicates: (m.duplicates + 1) as u64, ..m },
            Ok::<(), LoopEndKind>(()),
        ),
{
}

/// Key of the action of a dispatch.
pub open spec fn key_of(p: PendingDispatch) -> Seq<char> {
    action_key(p.interpretation_id@, p.tool_action_id@)
}

/// Whether a verdict is about an action: its dispatch, the question to the
/// registry, or an answer.
pub open spec fn is_about(v: LoopVerdict, key: Seq<char>) -> bool {
    match v {
        LoopVerdict::AnnounceDispatch(p) => key_of(p) == key,
        LoopVerdict::Resolve(p) => key_of(p) == key,
        LoopVerdict::AnnounceUnavailable(p, _) => key_of(p) == key,
        LoopVerdict::Result(p, _, _) => key_of(p) == key,
        _ => false,
    }
}

/// Verdicts about an action in a run, in order.
pub open spec fn verdicts_about(
    m: LoopModel,
    scope: LoopScope,
    limits: LoopLimits,
    inputs: Seq<LoopInput>,
    key: Seq<char>,
) -> Seq<LoopVerdict>
    decreases inputs.len(),
{
    if inputs.len() == 0 {
        Seq::empty()
    } else {
        let s = next(m, scope, limits, inputs[0]);
        let rest = verdicts_about(s.0, scope, limits, inputs.drop_first(), key);
        if is_about(s.1, key) {
            seq![s.1] + rest
        } else {
            rest
        }
    }
}

/// Whether the registry knows no tool: each of its answers is this one.
pub open spec fn answers_unavailable(inputs: Seq<LoopInput>, reason: ToolUnavailableReason) -> bool {
    forall|i: int|
        0 <= i < inputs.len() ==> match #[trigger] inputs[i] {
            LoopInput::Resolved(answer) => answer == Ok::<
                ToolResolution,
                ToolRegistryError,
            >(ToolResolution::Unavailable(reason)),
            _ => true,
        }
}

/// What an action comes to whose tool is unavailable: one dispatch, one
/// question, one notice and one result, in this order.
pub open spec fn unavailable_course(
    p: PendingDispatch,
    reason: ToolUnavailableReason,
) -> Seq<LoopVerdict> {
    seq![
        LoopVerdict::AnnounceDispatch(p),
        LoopVerdict::Resolve(p),
        LoopVerdict::AnnounceUnavailable(p, reason),
        LoopVerdict::Result(p, OutboundToolOutcome::ToolUnavailable, reason.text()),
    ]
}

/// How far the course of an action has come in a state; `None` before its
/// dispatch.
pub open spec fn course_so_far(m: LoopModel, key: Seq<char>) -> Option<(PendingDispatch, int)> {
    match m.phase {
        LoopPhase::SendingDispatch(p) => if key_of(p) == key {
            Some((p, 1))
        } else {
            None
        },
        LoopPhase::Resolving(p) => if key_of(p) == key {
            Some((p, 2))
        } else {
            None
        },
        LoopPhase::SendingUnavailable(p, _) => if key_of(p) == key {
            Some((p, 3))
        } else {
            None
        },
        _ => None,
    }
}

/// Whether a sequence begins another one.
pub open spec fn begins(part: Seq<LoopVerdict>, whole: Seq<LoopVerdict>) -> bool {
    part.len() <= whole.len() && part == whole.take(part.len() as int)
}

proof fn lemma_course(
    m: LoopModel,
    scope: LoopScope,
    limits: LoopLimits,
    inputs: Seq<LoopInput>,
    key: Seq<char>,
    reason: ToolUnavailableReason,
)
    requires
        answers_unavailable(inputs, reason),
        course_so_far(m, key) is Some ==> dispatched(m, key),
        m.phase matches LoopPhase::SendingUnavailable(p, r) ==> key_of(p) == key ==> r == reason,
    ensures
        ({
            let said = verdicts_about(m, scope, limits, inputs, key);
            match course_so_far(m, key) {
                Some(c) => begins(said, unavailable_course(c.0, reason).skip(c.1)),
                None => if dispatched(m, key) {
                    said.len() == 0
                } else {
                    said.len() == 0 || exists|p: PendingDispatch|
                        key_of(p) == key && #[trigger] begins(said, unavailable_course(p, reason))
                },
            }
        }),
    decreases inputs.len(),
{
    let said = verdicts_about(m, scope, limits, inputs, key);
    if inputs.len() == 0 {
        if let Some(c) = course_so_far(m, key) {
            assert(said =~= unavailable_course(c.0, reason).skip(c.1).take(0));
        }
    } else {
        let input = inputs[0];
        let rest = inputs.drop_first();
        let s = next(m, scope, limits, input);
        assert forall|i: int| 0 <= i < rest.len() implies match #[trigger] rest[i] {
            LoopInput::Resolved(answer) => answer == Ok::<
                ToolResolution,
                ToolRegistryError,
            >(ToolResolution::Unavailable(reason)),
            _ => true,
        } by {
            assert(rest[i] == inputs[i + 1]);
        }
        assert(inputs[0] == input);
        dispatch_is_permanent(m, scope, limits, input, key);
        lemma_step_of_course(m, scope, limits, input, key, reason);
        lemma_course(s.0, scope, limits, rest, key, reason);
        let later = verdicts_about(s.0, scope, limits, rest, key);
        match course_so_far(m, key) {
            Some(c) => {
                let whole = unavailable_course(c.0, reason).skip(c.1);
                if is_about(s.1, key) {
                    assert(said == seq![s.1] + later);
                    let then = unavailable_course(c.0, reason).skip(c.1 + 1);
                    assert(later =~= then.take(later.len() as int));
                    assert(said =~= whole.take(said.len() as int));
                } else {
                    assert(said =~= later);
                    if course_so_far(s.0, key) is None {
                        assert(said =~= whole.take(0));
                    }
                }
            },
            None => {
                if !dispatched(m, key) && is_about(s.1, key) {
                    let p = s.1->AnnounceDispatch_0;
                    let whole = unavailable_course(p, reason);
                    assert(said == seq![s.1] + later);
                    assert(later =~= whole.skip(1).take(later.len() as int));
                    assert(said =~= whole.take(said.len() as int));
                    assert(begins(said, whole));
                }
            },
        }
    }
}

/// How a step moves the course of an action on.
proof fn lemma_step_of_course(
    m: LoopModel,
    scope: LoopScope,
    limits: LoopLimits,
    input: LoopInput,
    key: Seq<char>,
    reason: ToolUnavailableReason,
)
    requires
        input matches LoopInput::Resolved(answer) ==> answer == Ok::<
            ToolResolution,
            ToolRegistryError,
        >(ToolResolution::Unavailable(reason)),
        course_so_far(m, key) is Some ==> dispatched(m, key),
        m.phase matches LoopPhase::SendingUnavailable(p, r) ==> key_of(p) == key ==> r == reason,
    ensures
        ({
            let s = next(m, scope, limits, input);
            &&& course_so_far(s.0, key) is Some ==> dispatched(s.0, key)
            &&& s.0.phase matches LoopPhase::SendingUnavailable(p, r) ==> key_of(p) == key ==> r
                == reason
            &&& match course_so_far(m, key) {
                Some(c) => if is_about(s.1, key) {
                    &&& s.1 == unavailable_course(c.0, reason)[c.1]
                    &&& c.1 < 3 ==> course_so_far(s.0, key) == Some((c.0, c.1 + 1))
                    &&& c.1 == 3 ==> course_so_far(s.0, key) is None
                } else {
                    course_so_far(s.0, key) is None || course_so_far(s.0, key) == Some(c)
                },
                None => if is_about(s.1, key) {
                    &&& s.1 is AnnounceDispatch
                    &&& course_so_far(s.0, key) == Some((s.1->AnnounceDispatch_0, 1int))
                } else {
                    course_so_far(s.0, key) is None
                },
            }
        }),
{
}

/// In any run in which the registry knows no tool, an action that was not
/// dispatched before gets, whatever comes and how often: at most one dispatch,
/// then one question to the registry, one unavailable notice and one unavailable
/// result, in this order and nothing else.
pub proof fn unavailable_action_is_answered_once(
    m: LoopModel,
    scope: LoopScope,
    limits: LoopLimits,
    inputs: Seq<LoopInput>,
    key: Seq<char>,
    reason: ToolUnavailableReason,
)
    requires
        m.phase is Receiving,
        !dispatched(m, key),
        answers_unavailable(inputs, reason),
    ensures
        ({
            let said = verdicts_about(m, scope, limits, inputs, key);
            said.len() == 0 || exists|p: PendingDispatch|
                key_of(p) == key && #[trigger] begins(said, unavailable_course(p, reason))
        }),
{
    lemma_course(m, scope, limits, inputs, key, reason);
}

/// A further complete request of an action that was dispatched, no older than
/// what was seen of it, is counted as a repeat; but for the newest generation
/// nothing else changes.
pub proof fn repeated_request_is_counted(
    m: LoopModel,
    limits: LoopLimits,
    key: Seq<char>,
    tool: ToolUnit,
    snap: CanonicalUnitSnapshot,
)
    requires
        dispatched(m, key),
        m.actions[key].last_generation <= snap.unit_generation,
        m.duplicates < u64::MAX,
    ensures
        after_ready(m, limits, key, tool, snap) == (
            LoopModel {
                duplicates: (m.duplicates + 1) as u64,
                actions: m.actions.insert(
                    key,
                    ActionRecord { last_generation: snap.unit_generation, ..m.actions[key] },
                ),
                ..m
            },
            Ok::<(), LoopEndKind>(()),
        ),
{
}

/// A dispatched request for a tool that does not exist is answered with one
/// unavailable result, and the loop goes back to receiving. The counts go up by
/// one, while the counters have room.
pub proof fn unavailable_request_is_answered(
    m: LoopModel,
    scope: LoopScope,
    limits: LoopLimits,
    p: PendingDispatch,
    reason: ToolUnavailableReason,
)
    requires
        m.phase == LoopPhase::SendingDispatch(p),
    ensures
        ({
            let a = next(m, scope, limits, LoopInput::Sent(true));
            let b = next(
                a.0,
                scope,
                limits,
                LoopInput::Resolved(Ok(ToolResolution::Unavailable(reason))),
            );
            let c = next(b.0, scope, limits, LoopInput::Sent(true));
            let d = next(c.0, scope, limits, LoopInput::Sent(true));
            &&& a.1 == LoopVerdict::Resolve(p)
            &&& b.1 == LoopVerdict::AnnounceUnavailable(p, reason)
            &&& c.1 == LoopVerdict::Result(p, OutboundToolOutcome::ToolUnavailable, reason.text())
            &&& d.1 == LoopVerdict::Receive
            &&& d.0.phase is Receiving
            &&& counters_have_room(m) ==> d.0.tools_unavailable == m.tools_unavailable + 1
                && d.0.outbound_results == m.outbound_results + 1
        }),
{
}

/// What the counters and the diagnostics of a loop never leave.
pub open spec fn accounted(m: LoopModel) -> bool {
    &&& m.diagnostics.len() <= MAX_DIAGNOSTICS
    &&& m.outbound_results <= m.tools_unavailable
    &&& m.tools_unavailable <= m.delivery_events
    &&& m.duplicates <= m.delivery_events
    &&& (m.phase is SendingDispatch || m.phase is Resolving) ==> m.tools_unavailable
        < m.delivery_events
    &&& m.phase is SendingUnavailable ==> m.outbound_results < m.tools_unavailable
}

/// Every step keeps the account: results are no more than unavailable
/// requests, those and the repeats are no more than deliveries, and the
/// diagnostics stay bounded.
pub proof fn account_is_kept(
    m: LoopModel,
    scope: LoopScope,
    limits: LoopLimits,
    input: LoopInput,
)
    requires
        accounted(m),
        counters_have_room(m),
    ensures
        accounted(next(m, scope, limits, input).0),
{
}

/// A fresh loop keeps its account.
pub proof fn account_starts()
    ensures
        accounted(initial()),
{
}

} // verus!
