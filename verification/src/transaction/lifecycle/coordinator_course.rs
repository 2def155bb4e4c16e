//! What a transaction gets from its coordinator: every unit in order, tools and
//! continuations when they are due, and the terminal that the course came to.

use crate::transaction::channel_registry::{ChannelKind, ContinuationPolicy, ToolExecutionMode};
use crate::transaction::lifecycle::coordinator::{
    next, CoordinatorAction, CoordinatorInput, CoordinatorPhase, CoordinatorSetting,
    CoordinatorState, ExchangeReport,
};
use crate::transaction::lifecycle::loop_dispatch::{Interruptible, LoopDispatchError};
use crate::transaction::types::TransactionEndKind;
use vstd::prelude::*;

verus! {

/// State after an exchange ended and a number of sends were reported as done.
pub open spec fn after_sends(
    s: CoordinatorState,
    c: CoordinatorSetting,
    r: ExchangeReport,
    sends: nat,
) -> CoordinatorState
    decreases sends,
{
    if sends == 0 {
        next(s, c, CoordinatorInput::ExchangeEnded(r)).0
    } else {
        next(
            after_sends(s, c, r, (sends - 1) as nat),
            c,
            CoordinatorInput::Sent(Interruptible::Done),
        ).0
    }
}

/// What the coordinator does once an exchange ended and a number of sends were
/// reported as done.
pub open spec fn action_after_sends(
    s: CoordinatorState,
    c: CoordinatorSetting,
    r: ExchangeReport,
    sends: nat,
) -> CoordinatorAction {
    if sends == 0 {
        next(s, c, CoordinatorInput::ExchangeEnded(r)).1
    } else {
        next(
            after_sends(s, c, r, (sends - 1) as nat),
            c,
            CoordinatorInput::Sent(Interruptible::Done),
        ).1
    }
}

/// Sends before the first unit: the announcement of an outside session.
pub open spec fn announcements(r: ExchangeReport) -> nat {
    if r.unannounced_session {
        1
    } else {
        0
    }
}

proof fn lemma_first_publishing(
    s: CoordinatorState,
    c: CoordinatorSetting,
    r: ExchangeReport,
    i: nat,
)
    requires
        s.phase == CoordinatorPhase::Exchanging,
        i < r.units,
    ensures
        after_sends(s, c, r, announcements(r) + i).phase == CoordinatorPhase::Publishing(
            r,
            i as usize,
        ),
        after_sends(s, c, r, announcements(r) + i).route == s.route,
        action_after_sends(s, c, r, announcements(r) + i) == CoordinatorAction::PublishUnit(
            i as usize,
        ),
    decreases i,
{
    if i == 0 {
        if r.unannounced_session {
            let told = after_sends(s, c, r, 0);
            assert(told.phase == CoordinatorPhase::Announcing(r));
            assert(after_sends(s, c, r, 1) == next(
                told,
                c,
                CoordinatorInput::Sent(Interruptible::Done),
            ).0);
        }
    } else {
        lemma_first_publishing(s, c, r, (i - 1) as nat);
    }
}

/// A first exchange with `n` units has each of them published, in order and
/// once: when every send is reported as done, the session is announced where
/// that is due, then come exactly the units 0 to `n - 1`, and only then the
/// decision. The decision is to run the tools where the exchange succeeded, asks
/// for them, and no gateway runs them; else it is the kind that the exchange came
/// to.
pub proof fn first_exchange_is_published_in_full(
    s: CoordinatorState,
    c: CoordinatorSetting,
    r: ExchangeReport,
)
    requires
        s.phase == CoordinatorPhase::Exchanging,
    ensures
        r.unannounced_session ==> action_after_sends(s, c, r, 0)
            == CoordinatorAction::AnnounceSession,
        forall|i: nat|
            i < r.units ==> #[trigger] action_after_sends(s, c, r, announcements(r) + i)
                == CoordinatorAction::PublishUnit(i as usize),
        ({
            let last = action_after_sends(s, c, r, announcements(r) + r.units as nat);
            let wants_tools = r.has_ready && c.tool_mode != ToolExecutionMode::McpGateway && (
            r.terminal == TransactionEndKind::Completed || r.terminal
                == TransactionEndKind::ContinuationRequired);
            if wants_tools {
                last == CoordinatorAction::RunTools
            } else {
                last == (CoordinatorAction::Propose { kind: r.terminal, revoke: s.route })
            }
        }),
{
    assert forall|i: nat| i < r.units implies #[trigger] action_after_sends(
        s,
        c,
        r,
        announcements(r) + i,
    ) == CoordinatorAction::PublishUnit(i as usize) by {
        lemma_first_publishing(s, c, r, i);
    }
    if r.units > 0 {
        lemma_first_publishing(s, c, r, (r.units - 1) as nat);
    } else if r.unannounced_session {
        let told = after_sends(s, c, r, 0);
        assert(told.phase == CoordinatorPhase::Announcing(r));
    }
}

proof fn lemma_further_publishing(
    s: CoordinatorState,
    c: CoordinatorSetting,
    r: ExchangeReport,
    i: nat,
)
    requires
        s.phase == CoordinatorPhase::Continuing,
        r.terminal == TransactionEndKind::Completed,
        i < r.units,
    ensures
        after_sends(s, c, r, i).phase == CoordinatorPhase::ContinuationPublishing(r, i as usize),
        after_sends(s, c, r, i).route == s.route,
        action_after_sends(s, c, r, i) == CoordinatorAction::PublishUnit(i as usize),
    decreases i,
{
    if i > 0 {
        lemma_further_publishing(s, c, r, (i - 1) as nat);
    }
}

/// A continuation with `n` units has each of them published, in order and once,
/// before the decision: tools where it asks for them, else the transaction is
/// complete. A continuation that failed publishes nothing and its kind is
/// proposed.
pub proof fn continuation_is_published_in_full(
    s: CoordinatorState,
    c: CoordinatorSetting,
    r: ExchangeReport,
)
    requires
        s.phase == CoordinatorPhase::Continuing,
    ensures
        r.terminal != TransactionEndKind::Completed ==> action_after_sends(s, c, r, 0) == (
        CoordinatorAction::Propose { kind: r.terminal, revoke: s.route }),
        r.terminal == TransactionEndKind::Completed ==> forall|i: nat|
            i < r.units ==> #[trigger] action_after_sends(s, c, r, i)
                == CoordinatorAction::PublishUnit(i as usize),
        r.terminal == TransactionEndKind::Completed ==> action_after_sends(s, c, r, r.units as nat)
            == (if r.has_ready {
            CoordinatorAction::RunTools
        } else {
            CoordinatorAction::Propose {
                kind: TransactionEndKind::Completed,
                revoke: s.route,
            }
        }),
{
    if r.terminal == TransactionEndKind::Completed {
        assert forall|i: nat| i < r.units implies #[trigger] action_after_sends(s, c, r, i)
            == CoordinatorAction::PublishUnit(i as usize) by {
            lemma_further_publishing(s, c, r, i);
        }
        if r.units > 0 {
            lemma_further_publishing(s, c, r, (r.units - 1) as nat);
        }
    }
}

/// Units that a run publishes before it runs tools or proposes a terminal.
pub open spec fn units_until_decided(
    s: CoordinatorState,
    c: CoordinatorSetting,
    inputs: Seq<CoordinatorInput>,
) -> Seq<usize>
    decreases inputs.len(),
{
    if inputs.len() == 0 {
        Seq::empty()
    } else {
        let t = next(s, c, inputs[0]);
        match t.1 {
            CoordinatorAction::PublishUnit(i) => seq![i] + units_until_decided(
                t.0,
                c,
                inputs.drop_first(),
            ),
            CoordinatorAction::RunTools => Seq::empty(),
            CoordinatorAction::Propose { .. } => Seq::empty(),
            _ => units_until_decided(t.0, c, inputs.drop_first()),
        }
    }
}

/// The first time that a run runs tools or proposes a terminal.
pub open spec fn decision(
    s: CoordinatorState,
    c: CoordinatorSetting,
    inputs: Seq<CoordinatorInput>,
) -> Option<CoordinatorAction>
    decreases inputs.len(),
{
    if inputs.len() == 0 {
        None
    } else {
        let t = next(s, c, inputs[0]);
        match t.1 {
            CoordinatorAction::RunTools => Some(t.1),
            CoordinatorAction::Propose { .. } => Some(t.1),
            _ => decision(t.0, c, inputs.drop_first()),
        }
    }
}

/// Whether a decision says that the exchange went through.
pub open spec fn goes_through(d: Option<CoordinatorAction>) -> bool {
    match d {
        Some(CoordinatorAction::RunTools) => true,
        Some(CoordinatorAction::Propose { kind, .. }) => kind == TransactionEndKind::Completed
            || kind == TransactionEndKind::ContinuationRequired,
        _ => false,
    }
}

/// The numbers from one to below another.
pub open spec fn numbers(from: int, to: int) -> Seq<usize> {
    Seq::new((to - from) as nat, |k: int| (from + k) as usize)
}

/// Whether units follow one another without a gap from a number on.
pub open spec fn in_order_from(units: Seq<usize>, from: int) -> bool {
    units == numbers(from, from + units.len())
}

proof fn lemma_units_in_order(
    s: CoordinatorState,
    c: CoordinatorSetting,
    inputs: Seq<CoordinatorInput>,
    r: ExchangeReport,
    i: usize,
)
    requires
        s.phase == CoordinatorPhase::Publishing(r, i) || s.phase
            == CoordinatorPhase::ContinuationPublishing(r, i),
        i < r.units,
    ensures
        in_order_from(units_until_decided(s, c, inputs), i + 1),
        i + 1 + units_until_decided(s, c, inputs).len() <= r.units,
        goes_through(decision(s, c, inputs)) ==> i + 1 + units_until_decided(s, c, inputs).len()
            == r.units,
    decreases inputs.len(),
{
    let said = units_until_decided(s, c, inputs);
    if inputs.len() > 0 {
        let t = next(s, c, inputs[0]);
        let rest = inputs.drop_first();
        match t.1 {
            CoordinatorAction::PublishUnit(j) => {
                assert(j == i + 1);
                lemma_units_in_order(t.0, c, rest, r, j);
                let later = units_until_decided(t.0, c, rest);
                assert(said =~= numbers(i + 1, i + 1 + said.len()));
            },
            CoordinatorAction::Ignore => {
                assert(t.0 == s);
                lemma_units_in_order(s, c, rest, r, i);
            },
            _ => {
                assert(said =~= numbers(i + 1, i + 1));
            },
        }
    } else {
        assert(said =~= numbers(i + 1, i + 1));
    }
}

proof fn lemma_units_after_announcement(
    s: CoordinatorState,
    c: CoordinatorSetting,
    inputs: Seq<CoordinatorInput>,
    r: ExchangeReport,
)
    requires
        s.phase == CoordinatorPhase::Announcing(r),
    ensures
        in_order_from(units_until_decided(s, c, inputs), 0),
        units_until_decided(s, c, inputs).len() <= r.units,
        goes_through(decision(s, c, inputs)) ==> units_until_decided(s, c, inputs).len()
            == r.units,
    decreases inputs.len(),
{
    let said = units_until_decided(s, c, inputs);
    if inputs.len() > 0 {
        let t = next(s, c, inputs[0]);
        let rest = inputs.drop_first();
        match t.1 {
            CoordinatorAction::PublishUnit(j) => {
                lemma_units_in_order(t.0, c, rest, r, j);
                assert(said =~= numbers(0, said.len() as int));
            },
            CoordinatorAction::Ignore => {
                assert(t.0 == s);
                lemma_units_after_announcement(s, c, rest, r);
            },
            _ => {
                assert(said =~= numbers(0, 0));
            },
        }
    } else {
        assert(said =~= numbers(0, 0));
    }
}

/// Whatever is reported after an exchange with `n` units, in whatever run: the
/// units that are published before the decision are 0, 1, 2 and so on without a
/// gap or a repeat, and never more than `n`. Tools are run, and a terminal that
/// says that all went well is proposed, only once all `n` are published.
pub proof fn nothing_is_decided_before_the_last_unit(
    s: CoordinatorState,
    c: CoordinatorSetting,
    r: ExchangeReport,
    later: Seq<CoordinatorInput>,
)
    requires
        s.phase == CoordinatorPhase::Exchanging || s.phase == CoordinatorPhase::Continuing,
    ensures
        ({
            let inputs = seq![CoordinatorInput::ExchangeEnded(r)] + later;
            let said = units_until_decided(s, c, inputs);
            &&& forall|k: int| 0 <= k < said.len() ==> #[trigger] said[k] == k
            &&& said.len() <= r.units
            &&& goes_through(decision(s, c, inputs)) && (s.phase == CoordinatorPhase::Exchanging
                || r.terminal == TransactionEndKind::Completed) ==> said.len() == r.units
        }),
{
    let inputs = seq![CoordinatorInput::ExchangeEnded(r)] + later;
    let said = units_until_decided(s, c, inputs);
    assert(inputs.drop_first() =~= later);
    let t = next(s, c, inputs[0]);
    match t.1 {
        CoordinatorAction::PublishUnit(j) => {
            lemma_units_in_order(t.0, c, later, r, j);
            assert(said =~= numbers(0, said.len() as int));
        },
        CoordinatorAction::AnnounceSession => {
            lemma_units_after_announcement(t.0, c, later, r);
        },
        _ => {
            assert(said =~= numbers(0, 0));
        },
    }
}

/// A send that failed, or that a cancellation interrupted, ends the transaction
/// with that cause, whatever the exchange came to.
pub proof fn failed_send_is_told(s: CoordinatorState, c: CoordinatorSetting)
    requires
        s.phase is Announcing || s.phase is Publishing || s.phase is ContinuationPublishing,
    ensures
        next(s, c, CoordinatorInput::Sent(Interruptible::Failed)).1 == (
        CoordinatorAction::Propose {
            kind: TransactionEndKind::EventDeliveryFailed,
            revoke: s.route,
        }),
        next(s, c, CoordinatorInput::Sent(Interruptible::Cancelled)).1 == (
        CoordinatorAction::Propose { kind: TransactionEndKind::Cancelled, revoke: s.route }),
{
}

/// A channel to a model is asked at once; an agent is attached to first, through
/// a route where its tools need one, and asked behind the barrier.
pub proof fn start_goes_by_the_channel(s: CoordinatorState, c: CoordinatorSetting)
    requires
        s.phase == CoordinatorPhase::Idle,
        c.channel_known,
        c.config_ok,
        c.max_provider_exchanges > 0,
    ensures
        ({
            let t = next(s, c, CoordinatorInput::Start);
            &&& c.kind == ChannelKind::DirectLlm ==> t.1 == (CoordinatorAction::RunExchange {
                gated: false,
            }) && t.0.phase == CoordinatorPhase::Exchanging
            &&& c.kind == ChannelKind::ExternalAgent && c.has_sessions && (!c.has_tools
                || c.tool_mode != ToolExecutionMode::McpGateway) ==> t.1 == (
            CoordinatorAction::BeginAttach { with_route: false }) && ({
                let u = next(t.0, c, CoordinatorInput::AttachBegun(true));
                let v = next(u.0, c, CoordinatorInput::Attached(true));
                &&& u.1 == CoordinatorAction::AwaitAttach
                &&& v.1 == (CoordinatorAction::RunExchange { gated: true })
                &&& v.0.phase == CoordinatorPhase::Exchanging
            })
            &&& c.kind == ChannelKind::ExternalAgent && !c.has_sessions ==> t.1 == (
            CoordinatorAction::Propose {
                kind: TransactionEndKind::InvariantFailed,
                revoke: s.route,
            })
            &&& t.1 == CoordinatorAction::InstallRoute ==> ({
                let u = next(t.0, c, CoordinatorInput::RouteInstalled(true));
                let v = next(u.0, c, CoordinatorInput::AttachBegun(true));
                let w = next(v.0, c, CoordinatorInput::Attached(true));
                &&& c.has_gateway && c.has_tools
                &&& u.1 == (CoordinatorAction::BeginAttach { with_route: true })
                &&& u.0.route
                &&& v.1 == CoordinatorAction::AwaitAttach
                &&& w.1 == (CoordinatorAction::RunExchange { gated: true })
            })
        }),
{
}

/// A transaction that cannot run is refused for its reason: an unknown channel or
/// a configuration that cannot be merged, or no exchange allowed.
pub proof fn start_that_cannot_run_is_refused(s: CoordinatorState, c: CoordinatorSetting)
    requires
        s.phase == CoordinatorPhase::Idle,
        !s.route,
    ensures
        !c.channel_known || !c.config_ok ==> next(s, c, CoordinatorInput::Start).1 == (
        CoordinatorAction::Propose { kind: TransactionEndKind::InvariantFailed, revoke: false }),
        c.channel_known && c.config_ok && c.max_provider_exchanges == 0 ==> next(
            s,
            c,
            CoordinatorInput::Start,
        ).1 == (CoordinatorAction::Propose {
            kind: TransactionEndKind::LimitExceeded,
            revoke: false,
        }),
{
}

/// An agent that does not attach ends the transaction; a cancellation while it
/// does is a cancellation.
pub proof fn failed_attachment_is_told(s: CoordinatorState, c: CoordinatorSetting)
    ensures
        s.phase == CoordinatorPhase::Attaching ==> next(s, c, CoordinatorInput::Cancelled).1 == (
        CoordinatorAction::Propose { kind: TransactionEndKind::Cancelled, revoke: s.route }),
        s.phase == CoordinatorPhase::Attaching ==> next(
            s,
            c,
            CoordinatorInput::Attached(false),
        ).1 == (CoordinatorAction::Propose {
            kind: TransactionEndKind::InvariantFailed,
            revoke: s.route,
        }),
        s.phase == CoordinatorPhase::BeginningAttach ==> next(
            s,
            c,
            CoordinatorInput::AttachBegun(false),
        ).1 == (CoordinatorAction::Propose {
            kind: TransactionEndKind::InvariantFailed,
            revoke: s.route,
        }),
        s.phase == CoordinatorPhase::InstallingRoute ==> next(
            s,
            c,
            CoordinatorInput::RouteInstalled(false),
        ).1 == (CoordinatorAction::Propose {
            kind: TransactionEndKind::InvariantFailed,
            revoke: s.route,
        }),
{
}

/// Whether a state waits for tools after which the transaction may go on.
pub open spec fn may_go_on(s: CoordinatorState, c: CoordinatorSetting) -> bool {
    ||| s.phase == CoordinatorPhase::ContinuationLooping
    ||| s.phase == CoordinatorPhase::Looping(TransactionEndKind::Completed) && c.policy
        == ContinuationPolicy::InlineToolContinuation
}

/// After tools with results a transaction goes on as long as its bounds allow:
/// the round is appended, the context checked, and the model asked again with
/// exactly what is left of both budgets.
pub proof fn tools_lead_to_a_continuation(
    s: CoordinatorState,
    c: CoordinatorSetting,
    size: usize,
)
    requires
        may_go_on(s, c),
        s.round < c.max_continuations,
        s.exchanges_used < c.max_provider_exchanges,
        size <= c.max_context_bytes,
        s.input_used < c.max_input_bytes,
        s.output_used < c.max_output_bytes,
    ensures
        ({
            let t = next(s, c, CoordinatorInput::ToolsRun(true));
            let u = next(t.0, c, CoordinatorInput::Appended(Some(size)));
            let v = next(u.0, c, CoordinatorInput::ContextChecked(true));
            &&& t.1 == CoordinatorAction::AppendRound
            &&& u.1 == CoordinatorAction::CheckContext
            &&& v.1 == (CoordinatorAction::RunContinuation {
                remaining_input: (c.max_input_bytes - s.input_used) as usize,
                remaining_output: (c.max_output_bytes - s.output_used) as usize,
            })
            &&& v.0.phase == CoordinatorPhase::Continuing
            &&& v.0.round == s.round + 1
            &&& v.0.exchanges_used == s.exchanges_used
            &&& v.0.route == s.route
        }),
{
}

/// A transaction does not go on past a bound, nor with a context that cannot be
/// encoded, nor without results; each is told as what it is.
pub proof fn continuation_that_cannot_be_is_told(
    s: CoordinatorState,
    c: CoordinatorSetting,
    size: usize,
)
    ensures
        may_go_on(s, c) && (s.round >= c.max_continuations || s.exchanges_used
            >= c.max_provider_exchanges) ==> next(s, c, CoordinatorInput::ToolsRun(true)).1 == (
        CoordinatorAction::Propose { kind: TransactionEndKind::LimitExceeded, revoke: s.route }),
        may_go_on(s, c) ==> next(s, c, CoordinatorInput::ToolsRun(false)).1 == (
        CoordinatorAction::Propose { kind: TransactionEndKind::InvariantFailed, revoke: s.route }),
        s.phase == CoordinatorPhase::Appending ==> next(
            s,
            c,
            CoordinatorInput::Appended(None),
        ).1 == (CoordinatorAction::Propose {
            kind: TransactionEndKind::EncodingFailed,
            revoke: s.route,
        }),
        s.phase == CoordinatorPhase::Appending && size > c.max_context_bytes ==> next(
            s,
            c,
            CoordinatorInput::Appended(Some(size)),
        ).1 == (CoordinatorAction::Propose {
            kind: TransactionEndKind::LimitExceeded,
            revoke: s.route,
        }),
        s.phase == CoordinatorPhase::CheckingContext ==> next(
            s,
            c,
            CoordinatorInput::ContextChecked(false),
        ).1 == (CoordinatorAction::Propose {
            kind: TransactionEndKind::EncodingFailed,
            revoke: s.route,
        }),
        s.phase == CoordinatorPhase::CheckingContext && (s.input_used >= c.max_input_bytes
            || s.output_used >= c.max_output_bytes) ==> next(
            s,
            c,
            CoordinatorInput::ContextChecked(true),
        ).1 == (CoordinatorAction::Propose {
            kind: TransactionEndKind::LimitExceeded,
            revoke: s.route,
        }),
{
}

/// Where the caller goes on, tools end the transaction and ask for the caller; an
/// exchange that did not complete keeps its kind.
pub proof fn caller_is_asked_to_go_on(
    s: CoordinatorState,
    c: CoordinatorSetting,
    kind: TransactionEndKind,
    results: bool,
)
    requires
        s.phase == CoordinatorPhase::Looping(kind),
    ensures
        kind == TransactionEndKind::Completed && c.policy == ContinuationPolicy::CallerControlled
            ==> next(s, c, CoordinatorInput::ToolsRun(results)).1 == (CoordinatorAction::Propose {
            kind: TransactionEndKind::ContinuationRequired,
            revoke: s.route,
        }),
        kind != TransactionEndKind::Completed ==> next(
            s,
            c,
            CoordinatorInput::ToolsRun(results),
        ).1 == (CoordinatorAction::Propose { kind, revoke: s.route }),
{
}

/// Tools that could not be run end the transaction with their cause.
pub proof fn failed_tools_are_told(
    s: CoordinatorState,
    c: CoordinatorSetting,
    e: LoopDispatchError,
)
    requires
        s.phase is Looping || s.phase == CoordinatorPhase::ContinuationLooping,
    ensures
        ({
            let a = next(s, c, CoordinatorInput::ToolsFailed(e)).1;
            &&& a matches CoordinatorAction::Propose { kind, revoke } && revoke == s.route
            &&& e == LoopDispatchError::Cancelled <==> a->kind == TransactionEndKind::Cancelled
            &&& e == LoopDispatchError::PublishFailed <==> a->kind
                == TransactionEndKind::EventDeliveryFailed
            &&& (e == LoopDispatchError::StartFailed || e == LoopDispatchError::LoopFailed) <==> (
            a->kind == TransactionEndKind::InvariantFailed)
        }),
{
}

/// What a transaction has used is the sum over its exchanges that completed.
pub proof fn usage_is_added_up(s: CoordinatorState, c: CoordinatorSetting, r: ExchangeReport)
    requires
        r.terminal == TransactionEndKind::Completed,
    ensures
        s.phase == CoordinatorPhase::Exchanging ==> ({
            let t = next(s, c, CoordinatorInput::ExchangeEnded(r)).0;
            t.exchanges_used == 1 && t.input_used == r.input_bytes && t.output_used
                == r.output_bytes
        }),
        s.phase == CoordinatorPhase::Continuing && s.exchanges_used < usize::MAX && s.input_used
            + r.input_bytes <= usize::MAX && s.output_used + r.output_bytes <= usize::MAX ==> ({
            let t = next(s, c, CoordinatorInput::ExchangeEnded(r)).0;
            t.exchanges_used == s.exchanges_used + 1 && t.input_used == s.input_used
                + r.input_bytes && t.output_used == s.output_used + r.output_bytes
        }),
{
}

/// Only the end of an exchange changes what a transaction has used.
pub proof fn usage_changes_with_exchanges_only(
    s: CoordinatorState,
    c: CoordinatorSetting,
    input: CoordinatorInput,
)
    requires
        !(input is ExchangeEnded),
    ensures
        ({
            let t = next(s, c, input).0;
            t.exchanges_used == s.exchanges_used && t.input_used == s.input_used && t.output_used
                == s.output_used
        }),
{
}

} // verus!
