//! What the owner of a runtime and its callers are answered.

use crate::identity::TransactionId;
use crate::transaction::bootstrap::{config_fault, RuntimeConfig};
use crate::transaction::channel_registry::{ChannelBinding, ChannelKind};
use crate::transaction::error::StartupError;
use crate::transaction::host_tools::RegisteredTool;
use crate::transaction::lifecycle::capacity::{listed_slots, some_zero};
use crate::transaction::lifecycle::coordinator::{gate_next, GateAction, GateInput, GatePhase};
use crate::transaction::lifecycle::delivery::adapt_completion;
use crate::transaction::lifecycle::exchange::PromptProceedError;
use crate::transaction::lifecycle::ledger::{
    holds_session, one_active, session_held, LedgerEntry, LedgerInsertError,
};
use crate::transaction::lifecycle::mcp::{
    listener_step, request_reply, ListenerAction, ListenerEvent, McpReply, RequestRun,
};
use crate::transaction::lifecycle::owner::{
    asked_to_shut_down, channel_fault, channel_places, is_termination_answer, report_of,
    shutdown_generation, start_fault, start_sizes, termination_sent, ChannelFacts, ControlSend,
    TerminationDisposition, TerminationMode, TransactionSelector,
};
use crate::transaction::lifecycle::shared::{RuntimeShared, RuntimeState};
use crate::transaction::lifecycle::supervisor::ControlCommand;
use crate::transaction::lifecycle::supervisor_loop::{grace, SupervisorLoop};
use crate::transaction::lifecycle::task_spawner::{spawned, MailboxAnswer, SpawnReject};
use crate::transaction::lifecycle::task_supervisor::TaskId;
use crate::transaction::lifecycle::terminal::TransactionCompletion;
use crate::transaction::limits::LimitsError;
use crate::transaction::types::{
    ChannelId, EventDeliveryOutcome, SessionKey, TerminalEventDelivery, TransactionEnd,
    TransactionEndKind,
};
use vstd::prelude::*;

verus! {

/// A transaction that is there and has no terminal can be cancelled and terminated,
/// one that was cancelled can still be terminated, any other one has its terminal,
/// and one that is not there is not found. The command is for that transaction and
/// for that mode.
pub proof fn termination_reaches_the_transaction(
    rows: Map<TransactionId, LedgerEntry>,
    tx: TransactionId,
    mode: TerminationMode,
    r: Result<ControlCommand, TerminationDisposition>,
)
    requires
        is_termination_answer(rows, TransactionSelector::Transaction(tx), mode, r),
    ensures
        r == Err::<ControlCommand, TerminationDisposition>(TerminationDisposition::NotFound)
            <==> !rows.dom().contains(tx),
        rows.dom().contains(tx) && rows[tx].terminal is None && mode == TerminationMode::Cancel
            ==> r == Ok::<ControlCommand, TerminationDisposition>(ControlCommand::Cancel(tx)),
        rows.dom().contains(tx) && rows[tx].terminal is None && mode
            == TerminationMode::ForceTerminate ==> r == Ok::<
            ControlCommand,
            TerminationDisposition,
        >(ControlCommand::ForceTerminate(tx)),
        rows.dom().contains(tx) && rows[tx].terminal is Some ==> ({
            let upgrade = mode == TerminationMode::ForceTerminate && rows[tx].terminal->0.kind
                == TransactionEndKind::Cancelled;
            if upgrade {
                r == Ok::<ControlCommand, TerminationDisposition>(
                    ControlCommand::ForceTerminate(tx),
                )
            } else {
                r == Err::<ControlCommand, TerminationDisposition>(
                    TerminationDisposition::AlreadyTerminal,
                )
            }
        }),
{
}

/// A transaction is reached by its session as by its identity.
pub proof fn termination_by_session_is_by_identity(
    rows: Map<TransactionId, LedgerEntry>,
    tx: TransactionId,
    key: SessionKey,
    mode: TerminationMode,
    r: Result<ControlCommand, TerminationDisposition>,
)
    requires
        one_active(rows),
        is_termination_answer(rows, TransactionSelector::Session(key), mode, r),
    ensures
        holds_session(rows, tx, key@) ==> is_termination_answer(
            rows,
            TransactionSelector::Transaction(tx),
            mode,
            r,
        ),
        !session_held(rows, key@) ==> r == Err::<ControlCommand, TerminationDisposition>(
            TerminationDisposition::NotFound,
        ),
{
    if holds_session(rows, tx, key@) {
        assert(session_held(rows, key@));
    }
}

/// A caller is told that a command was accepted exactly where the queue took it.
pub proof fn acceptance_is_told(sent: ControlSend, r: TerminationDisposition)
    requires
        call_ensures(termination_sent, (sent,), r),
    ensures
        sent == ControlSend::Sent <==> r == TerminationDisposition::Accepted,
        sent == ControlSend::Full <==> r == TerminationDisposition::ControlCapacityExceeded,
        sent == ControlSend::Closed <==> r == TerminationDisposition::RuntimeClosed,
{
}

/// A runtime starts exactly where its configuration is fit and every schema is
/// within the bound.
pub proof fn runtime_starts_iff_fit(
    config: RuntimeConfig,
    limits: Result<(), LimitsError>,
    tools: Seq<RegisteredTool>,
)
    requires
        config.transaction_limits.max_tool_schema_bytes > 0,
    ensures
        start_fault(config, limits, tools) is None <==> limits is Ok
            && config.default_shutdown_deadline > 0 && forall|i: int|
            0 <= i < tools.len() ==> crate::text::utf8_len(
                (#[trigger] tools[i]).tool().input_schema@,
            ) <= config.transaction_limits.max_tool_schema_bytes,
        config_fault(config, limits) is Some ==> start_fault(config, limits, tools)
            == config_fault(config, limits),
{
    let max = config.transaction_limits.max_tool_schema_bytes;
    if start_fault(config, limits, tools) is None {
        assert forall|i: int| 0 <= i < tools.len() implies crate::text::utf8_len(
            (#[trigger] tools[i]).tool().input_schema@,
        ) <= max by {}
    }
}

/// A channel starts exactly where nothing is wrong with it, it has sessions where it
/// is an agent's and none where it is a model's, and it has a place. It has as many
/// places as it and the runtime allow, whichever is fewer.
pub proof fn channel_starts_iff_fit(
    config: RuntimeConfig,
    b: ChannelBinding,
    facts: ChannelFacts,
)
    ensures
        channel_fault(config, b, facts) is None <==> {
            &&& facts.capability_fault is None
            &&& facts.build_error is None
            &&& b.kind == ChannelKind::ExternalAgent ==> facts.has_sessions
            &&& b.kind == ChannelKind::DirectLlm ==> !facts.has_sessions
            &&& b.limits.max_active_transactions > 0
            &&& config.transaction_limits.max_active_per_channel > 0
        },
        channel_places(config, b) <= b.limits.max_active_transactions,
        channel_places(config, b) <= config.transaction_limits.max_active_per_channel,
        channel_places(config, b) == b.limits.max_active_transactions || channel_places(config, b)
            == config.transaction_limits.max_active_per_channel,
        facts.capability_fault matches Some(f) ==> channel_fault(config, b, facts) == Some(
            StartupError::ChannelCapability(f),
        ),
{
}

/// Every queue of a runtime holds what its transactions can put into it.
pub proof fn queues_hold_what_they_must(config: RuntimeConfig, routes: usize)
    requires
        config.transaction_limits.max_active_transactions * 8 <= usize::MAX,
    ensures
        ({
            let n = config.transaction_limits.max_active_transactions;
            let q = start_sizes(config, routes);
            &&& q.start == n
            &&& q.control >= 1 && q.control >= config.transaction_limits.max_actor_commands
            &&& q.worker >= n
            &&& q.spawn >= 32 && q.spawn >= n * 8
            &&& q.tools >= 8 && q.tools >= n * 4
            &&& q.mcp_routes >= routes && q.mcp_routes >= n * 2
            &&& q.max_tools == config.transaction_limits.max_tools_per_transaction
        }),
{
}

/// A channel that is listed has the places that it was listed with last, all of them
/// free; no other channel has any.
pub proof fn listed_channel_has_its_places(
    channels: Seq<(ChannelId, usize)>,
    id: ChannelId,
    max: usize,
    other: Seq<char>,
)
    ensures
        listed_slots(channels.push((id, max))).dom().contains(id@),
        listed_slots(channels.push((id, max)))[id@].max == max,
        listed_slots(channels.push((id, max)))[id@].active == 0,
        other != id@ ==> listed_slots(channels.push((id, max))).dom().contains(other)
            == listed_slots(channels).dom().contains(other),
        other != id@ ==> listed_slots(channels.push((id, max)))[other] == listed_slots(
            channels,
        )[other],
        !some_zero(channels.push((id, max))) ==> max > 0 && !some_zero(channels),
{
    assert(channels.push((id, max)).drop_last() =~= channels);
    assert(channels.push((id, max)).last() == (id, max));
    if !some_zero(channels.push((id, max))) {
        assert(channels.push((id, max))[channels.len() as int].1 == max);
        if some_zero(channels) {
            let i = choose|i: int| 0 <= i < channels.len() && (#[trigger] channels[i]).1 == 0;
            assert(channels.push((id, max))[i].1 == 0);
        }
    }
}

/// The final report gives the counts as they stand, unless one was published.
pub proof fn report_gives_the_counts(shared: RuntimeShared)
    ensures
        shared.shutdown_report matches Some(r) ==> report_of(shared) == r,
        shared.shutdown_report is None ==> {
            let r = report_of(shared);
            &&& r.completions_published == shared.counters.completions_published
            &&& r.completions_receiver_dropped == shared.counters.completions_receiver_dropped
            &&& r.completions_invariant_failed == shared.counters.completions_invariant_failed
            &&& r.runtime_shutdown_terminals == shared.counters.runtime_shutdown_terminals
        },
        shared.state != RuntimeState::Stopped ==> asked_to_shut_down(shared.state)
            == RuntimeState::Quiescing,
        shared.state == RuntimeState::Stopped ==> asked_to_shut_down(shared.state)
            == RuntimeState::Stopped,
        shared.shutdown_generation <= 1 ==> shutdown_generation(shared.shutdown_generation) == 1,
{
}

/// Force is used once winding down has taken as long as it may, at least two
/// seconds, and not before.
pub proof fn force_waits_for_the_grace(l: SupervisorLoop, now: u128, cleanup_deadline: u128)
    ensures
        grace(cleanup_deadline) >= cleanup_deadline,
        grace(cleanup_deadline) >= 2_000_000_000,
        grace(cleanup_deadline) == cleanup_deadline || grace(cleanup_deadline) == 2_000_000_000,
        l.quiesce_started is None ==> !l.is_late(now, cleanup_deadline),
        l.quiesce_started matches Some(t) ==> (l.is_late(now, cleanup_deadline) <==> now >= t
            + grace(cleanup_deadline)),
{
}

/// The barrier opens for a session that the connector told: it is bound, announced,
/// and its route activated where there is one.
pub proof fn barrier_opens_for_a_told_session(has_route: bool, has_gateway: bool)
    ensures
        ({
            let a = gate_next(
                GatePhase::AwaitingSession,
                has_route,
                has_gateway,
                GateInput::Opened { told: true, cancelled: false, valid: true },
            );
            let b = gate_next(a.0, has_route, has_gateway, GateInput::Bound);
            let c = gate_next(b.0, has_route, has_gateway, GateInput::Announced(true));
            let d = gate_next(c.0, has_route, has_gateway, GateInput::Activated(true));
            &&& a.1 == GateAction::Bind
            &&& b.1 == GateAction::Announce
            &&& !has_route ==> c.1 == GateAction::Open
            &&& has_route && has_gateway ==> c.1 == GateAction::Activate && d.1 == GateAction::Open
            &&& has_route && !has_gateway ==> c.1 is Shut
        }),
{
}

/// The barrier stays shut for a session that was not told, is no session's, or came
/// after a cancellation; and for one that could not be bound, announced or routed.
/// One session too many is told as that.
pub proof fn barrier_stays_shut_otherwise(
    has_route: bool,
    has_gateway: bool,
    told: bool,
    cancelled: bool,
    valid: bool,
    e: LedgerInsertError,
)
    ensures
        !(told && !cancelled && valid) ==> gate_next(
            GatePhase::AwaitingSession,
            has_route,
            has_gateway,
            GateInput::Opened { told, cancelled, valid },
        ).1 == (GateAction::Shut { error: PromptProceedError::Failed, session_known: false }),
        gate_next(GatePhase::Binding, has_route, has_gateway, GateInput::NotBound(e)).1 == (
        GateAction::Shut {
            error: if e == LedgerInsertError::DistinctSessionsExceeded {
                PromptProceedError::DistinctSessionsExceeded
            } else {
                PromptProceedError::Failed
            },
            session_known: false,
        }),
        gate_next(GatePhase::Announcing, has_route, has_gateway, GateInput::Announced(false)).1
            is Shut,
        gate_next(GatePhase::Activating, has_route, has_gateway, GateInput::Activated(false)).1
            is Shut,
{
}

/// A completion is handed to a callback with all that it says; it was delivered
/// exactly where its terminal event was published.
pub proof fn completion_is_handed_over(c: TransactionCompletion, r: TransactionEnd)
    requires
        call_ensures(adapt_completion, (c,), r),
    ensures
        r.transaction_id == c.end.transaction_id,
        r.session_id == c.end.session_id,
        r.channel_id == c.end.channel_id,
        r.kind == c.end.kind,
        r.emitted_events == c.end.emitted_events,
        r.usage == c.end.usage,
        r.diagnostics == c.end.diagnostics,
        r.event_delivery == EventDeliveryOutcome::Accepted <==> c.terminal_event_delivery
            == TerminalEventDelivery::Published,
{
}

/// Work that the supervisor took has a task; work that it did not take comes back
/// as it was, and only work that was taken and never named is lost.
pub proof fn work_comes_back_or_has_a_task(id: TaskId, work: u64)
    ensures
        spawned(MailboxAnswer::Taken::<u64>(Some(id))) == Ok::<TaskId, SpawnReject<u64>>(id),
        spawned(MailboxAnswer::Taken::<u64>(None)) == Err::<TaskId, SpawnReject<u64>>(
            SpawnReject::Orphaned,
        ),
        spawned(MailboxAnswer::Full(work)) == Err::<TaskId, SpawnReject<u64>>(
            SpawnReject::Busy { future: work },
        ),
        spawned(MailboxAnswer::Closed(work)) == Err::<TaskId, SpawnReject<u64>>(
            SpawnReject::Rejected { future: work },
        ),
{
}

/// The listener goes on until the runtime winds down or accepting fails, and drops
/// every peer; a request that was run is answered by what it came to, and one that
/// was not run is told so.
pub proof fn gateway_answers_what_was_run(
    state: RuntimeState,
    event: ListenerEvent,
    a: ListenerAction,
    run: RequestRun,
    r: McpReply,
)
    requires
        call_ensures(listener_step, (state, event), a),
        call_ensures(request_reply, (run,), r),
    ensures
        a == ListenerAction::DropPeer <==> event == ListenerEvent::Accepted,
        a == ListenerAction::Stop <==> event == ListenerEvent::Failed || (event
            != ListenerEvent::Accepted && (state == RuntimeState::Quiescing || state
            == RuntimeState::Stopped)),
        run == RequestRun::Answered <==> r is Forward,
{
}

} // verus!
