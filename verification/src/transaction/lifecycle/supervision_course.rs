//! What supervision owes to every admitted transaction: its work, its terminal,
//! its finalizer, its completion and its place.

use crate::identity::TransactionId;
use crate::transaction::lifecycle::finalizer::{
    counted, finalizing_row, row_kind, sealed_end, CompletionPublishResult, SealOutcome,
};
use crate::transaction::lifecycle::ledger::{LedgerEntry, TransactionPhase};
use crate::transaction::lifecycle::shared::{
    bumped, RuntimeCounters, RuntimeShared, RuntimeState, ShutdownSnapshot,
};
use crate::transaction::lifecycle::supervisor::{
    accepted, aborted, closed_admission, coordinator_exited, decided, has_tasks, shut_down_each,
    shut_down_one, shutdown_began, task_exited, work_started, ControlCommand, FinalizerStart,
    StartedWork, SupervisorModel,
};
use crate::transaction::lifecycle::supervisor_laws::is_decided;
use crate::transaction::lifecycle::supervisor_loop::{
    control_taken, start_taken, stopped_hard, wait_until_drain_complete, DrainWait, StopVerdict,
    SupervisorLoop,
};
use crate::transaction::lifecycle::task_supervisor::{
    concerned, joined_exit, Spared, TaskClass, TaskExit, TaskId, TaskMeta, TaskSupervisor,
};
use crate::transaction::lifecycle::terminal::{is_end, TerminalDecision};
use crate::transaction::types::{
    ChannelId, SessionId, TerminalEventDelivery, TransactionEndEvent, TransactionEndKind,
};
use vstd::prelude::*;

verus! {

/// The first terminal that is proposed for a transaction is its terminal, cancels
/// its work, and starts its finalizer under a task of its own, with the seal that
/// the row holds. No other transaction, no place and no count is touched.
pub proof fn terminal_starts_the_finalizer(
    m: SupervisorModel,
    tx: TransactionId,
    kind: TransactionEndKind,
    force: bool,
)
    requires
        m.rows.dom().contains(tx),
        m.rows[tx].terminal is None,
        m.next_task < u64::MAX,
    ensures
        ({
            let a = accepted(m, tx, kind, force);
            let id = TaskId(m.next_task);
            &&& a.rows[tx].terminal == Some(TerminalDecision { kind })
            &&& a.rows[tx].cancelled
            &&& a.rows[tx].phase == TransactionPhase::Finalizing
            &&& a.rows[tx].channel_id == m.rows[tx].channel_id
            &&& a.rows[tx].session_key == m.rows[tx].session_key
            &&& a.rows[tx].transaction_id == m.rows[tx].transaction_id
            &&& a.rows[tx].ports.completion == m.rows[tx].ports.completion
            &&& a.rows[tx].ports.delivery == m.rows[tx].ports.delivery
            &&& a.finalizers == m.finalizers.push(
                FinalizerStart { transaction_id: tx, task: id, seal: m.rows[tx].ports.seal },
            )
            &&& a.tasks == m.tasks.insert(
                id,
                TaskMeta { class: TaskClass::Finalizer(tx), abort_requested: false },
            )
            &&& a.next_task == m.next_task + 1
            &&& forall|t: TransactionId| t != tx ==> a.rows.dom().contains(t)
                == m.rows.dom().contains(t) && #[trigger] a.rows[t] == m.rows[t]
            &&& a.state == m.state
            &&& a.pool == m.pool
            &&& a.counters == m.counters
            &&& a.started == m.started
            &&& a.aborts == m.aborts
        }),
{
}

/// A proposal for a transaction that is not there does nothing; one for a
/// transaction that has its terminal starts nothing.
pub proof fn later_terminal_starts_nothing(
    m: SupervisorModel,
    tx: TransactionId,
    kind: TransactionEndKind,
    force: bool,
)
    ensures
        !m.rows.dom().contains(tx) ==> accepted(m, tx, kind, force) == m,
        is_decided(m, tx) ==> ({
            let a = accepted(m, tx, kind, force);
            &&& a.finalizers == m.finalizers
            &&& a.tasks == m.tasks
            &&& a.next_task == m.next_task
            &&& a.rows[tx].phase == m.rows[tx].phase
            &&& a.rows[tx].cancelled
            &&& a.rows[tx].terminal == m.rows[tx].terminal || (force && kind
                == TransactionEndKind::Terminated && m.rows[tx].terminal == Some(
                TerminalDecision { kind: TransactionEndKind::Cancelled },
            ) && a.rows[tx].terminal == Some(TerminalDecision { kind }))
        }),
{
}

/// Force replaces a cancellation: whoever is told that a transaction was
/// cancelled and then forces it to end gets a termination.
pub proof fn force_replaces_a_cancellation(e: LedgerEntry)
    requires
        e.terminal is None,
    ensures
        decided(
            decided(e, TransactionEndKind::Cancelled, false),
            TransactionEndKind::Terminated,
            true,
        ).terminal == Some(TerminalDecision { kind: TransactionEndKind::Terminated }),
        decided(
            decided(e, TransactionEndKind::Cancelled, false),
            TransactionEndKind::Terminated,
            false,
        ).terminal == Some(TerminalDecision { kind: TransactionEndKind::Cancelled }),
        decided(
            decided(e, TransactionEndKind::Completed, false),
            TransactionEndKind::Terminated,
            true,
        ).terminal == Some(TerminalDecision { kind: TransactionEndKind::Completed }),
{
}

/// An admitted transaction that is started runs: a publisher and a coordinator are
/// registered for it, under tasks of their own, its row says that it runs, and the
/// driver gets it once, with its session. One that is not queued is left alone.
pub proof fn queued_transaction_is_started(m: SupervisorModel, tx: TransactionId)
    requires
        m.next_task < u64::MAX - 1,
    ensures
        m.rows.dom().contains(tx) && m.rows[tx].phase == TransactionPhase::Queued
            && m.rows[tx].ports.delivery ==> ({
            let a = work_started(m, tx);
            let publisher = TaskId(m.next_task);
            let coordinator = TaskId((m.next_task + 1) as u64);
            &&& a.rows[tx].phase == TransactionPhase::Running
            &&& a.rows[tx].terminal == m.rows[tx].terminal
            &&& a.rows[tx].session_key == m.rows[tx].session_key
            &&& a.rows[tx].ports.completion
            &&& a.rows[tx].ports.admission
            &&& a.rows[tx].ports.seal
            &&& !a.rows[tx].ports.delivery
            &&& a.tasks == m.tasks.insert(
                publisher,
                TaskMeta { class: TaskClass::EventPublisher(tx), abort_requested: false },
            ).insert(
                coordinator,
                TaskMeta { class: TaskClass::TransactionCoordinator(tx), abort_requested: false },
            )
            &&& a.started == m.started.push(
                StartedWork {
                    transaction_id: tx,
                    publisher,
                    coordinator,
                    session_id: match m.rows[tx].session_key {
                        Some(k) => Some(k.session_id),
                        None => None,
                    },
                },
            )
            &&& a.finalizers == m.finalizers
            &&& forall|t: TransactionId| t != tx ==> a.rows.dom().contains(t)
                == m.rows.dom().contains(t) && #[trigger] a.rows[t] == m.rows[t]
        }),
        !(m.rows.dom().contains(tx) && m.rows[tx].phase == TransactionPhase::Queued
            && m.rows[tx].ports.delivery) ==> work_started(m, tx) == m,
{
}

/// A coordinator that ends without having proposed anything is told as what it
/// was: a panic breaks a rule, winding down ends it, a cancellation cancels it, and
/// silence breaks a rule. What it proposed before is what counts.
pub proof fn lost_coordinator_is_told(m: SupervisorModel, tx: TransactionId, exit: TaskExit)
    requires
        m.rows.dom().contains(tx),
        m.rows[tx].terminal is None,
    ensures
        ({
            let e = m.rows[tx];
            let got = coordinator_exited(m, tx, exit).rows[tx].terminal;
            let silent = e.pending_worker_proposal is None;
            &&& e.pending_worker_proposal matches Some(p) ==> got == Some(
                TerminalDecision { kind: p.kind },
            )
            &&& silent && exit == TaskExit::Panicked ==> got == Some(
                TerminalDecision { kind: TransactionEndKind::InvariantFailed },
            )
            &&& silent && exit != TaskExit::Panicked && m.state == RuntimeState::Quiescing ==> got
                == Some(TerminalDecision { kind: TransactionEndKind::RuntimeShutdown })
            &&& silent && exit != TaskExit::Panicked && m.state != RuntimeState::Quiescing && (
            e.cancelled || exit == TaskExit::Cancelled) ==> got == Some(
                TerminalDecision { kind: TransactionEndKind::Cancelled },
            )
            &&& silent && exit == TaskExit::Completed && m.state != RuntimeState::Quiescing
                && !e.cancelled ==> got == Some(
                TerminalDecision { kind: TransactionEndKind::InvariantFailed },
            )
        }),
{
}

/// The row of a transaction goes with its last task, once its terminal is being or
/// was published, and its place comes back with it; while a task is left it
/// stays.
pub proof fn row_goes_with_the_last_task(
    m: SupervisorModel,
    class: TaskClass,
    exit: TaskExit,
    tx: TransactionId,
)
    requires
        class.owner() == Some(tx),
        !(class is TransactionCoordinator),
        m.rows.dom().contains(tx),
        m.rows[tx].phase == TransactionPhase::Finalizing || m.rows[tx].phase
            == TransactionPhase::CleanupPending,
    ensures
        ({
            let a = task_exited(m, class, exit);
            let channel = m.rows[tx].channel_id@;
            &&& has_tasks(m, tx) ==> a.rows == m.rows && a.pool == m.pool
            &&& !has_tasks(m, tx) ==> {
                &&& a.rows == m.rows.remove(tx)
                &&& a.pool.global_active == (m.pool.global_active - 1) as usize
                &&& a.pool.ledger_active == (m.pool.ledger_active - 1) as usize
                &&& a.pool.channels[channel].active == (m.pool.channels[channel].active
                    - 1) as usize
                &&& a.pool.channels[channel].max == m.pool.channels[channel].max
                &&& a.pool.max_global == m.pool.max_global
            }
            &&& has_tasks(m, tx) && class is Finalizer ==> forall|id: TaskId|
                m.tasks.dom().contains(id) && m.tasks[id].class.owner() == Some(tx)
                    ==> #[trigger] a.tasks[id].abort_requested && a.aborts.contains(id)
        }),
{
}

/// A transaction that is not being finalized keeps its row, whatever ends.
pub proof fn running_row_stays(
    m: SupervisorModel,
    class: TaskClass,
    exit: TaskExit,
    tx: TransactionId,
)
    requires
        m.rows.dom().contains(tx),
        class.owner() != Some(tx) || (!(class is TransactionCoordinator) && m.rows[tx].phase
            != TransactionPhase::Finalizing && m.rows[tx].phase
            != TransactionPhase::CleanupPending),
    ensures
        task_exited(m, class, exit).rows.dom().contains(tx),
        task_exited(m, class, exit).rows[tx] == m.rows[tx],
{
}

/// Shutdown ends every transaction that has no terminal as shut down, and counts
/// it; one that has a terminal keeps it, and what is left of its work is told to
/// stop, but neither its finalizer nor the publisher that it seals.
pub proof fn shutdown_reaches_a_transaction(m: SupervisorModel, tx: TransactionId, id: TaskId)
    requires
        m.rows.dom().contains(tx),
        m.counters.runtime_shutdown_terminals < u64::MAX,
    ensures
        ({
            let a = shut_down_one(m, tx);
            &&& m.rows[tx].terminal is None ==> {
                &&& a.rows[tx].terminal == Some(
                    TerminalDecision { kind: TransactionEndKind::RuntimeShutdown },
                )
                &&& a.counters.runtime_shutdown_terminals == m.counters.runtime_shutdown_terminals
                    + 1
                &&& a.counters.completions_published == m.counters.completions_published
                &&& a.finalizers.len() == m.finalizers.len() + 1
                &&& a.finalizers.last().transaction_id == tx
            }
            &&& m.rows[tx].terminal is Some ==> {
                &&& a.rows[tx].terminal == m.rows[tx].terminal
                &&& a.rows[tx].cancelled
                &&& a.counters == m.counters
                &&& a.finalizers == m.finalizers
                &&& m.tasks.dom().contains(id) && m.tasks[id].class.owner() == Some(tx) ==> (
                a.tasks[id].abort_requested == (m.tasks[id].abort_requested || !(
                m.tasks[id].class is Finalizer || m.tasks[id].class is EventPublisher)))
            }
        }),
{
}

proof fn lemma_one_keeps_others(m: SupervisorModel, tx: TransactionId, t: TransactionId)
    requires
        m.rows.dom().contains(t),
    ensures
        ({
            let a = shut_down_one(m, tx);
            &&& a.rows.dom().contains(t)
            &&& a.rows[t].terminal == (if t == tx && m.rows[t].terminal is None {
                Some(TerminalDecision { kind: TransactionEndKind::RuntimeShutdown })
            } else {
                m.rows[t].terminal
            })
        }),
{
}

proof fn lemma_each_is_told(m: SupervisorModel, ids: Seq<TransactionId>, t: TransactionId)
    requires
        m.rows.dom().contains(t),
    ensures
        ({
            let a = shut_down_each(m, ids);
            &&& a.rows.dom().contains(t)
            &&& a.rows[t].terminal == (if ids.contains(t) && m.rows[t].terminal is None {
                Some(TerminalDecision { kind: TransactionEndKind::RuntimeShutdown })
            } else {
                m.rows[t].terminal
            })
        }),
    decreases ids.len(),
{
    if ids.len() > 0 {
        let before = ids.drop_last();
        lemma_each_is_told(m, before, t);
        lemma_one_keeps_others(shut_down_each(m, before), ids.last(), t);
        if ids.contains(t) && !before.contains(t) {
            let i = choose|i: int| 0 <= i < ids.len() && ids[i] == t;
            if i < ids.len() - 1 {
                assert(before[i] == t);
            }
        }
        if before.contains(t) {
            let i = choose|i: int| 0 <= i < before.len() && before[i] == t;
            assert(ids[i] == t);
        }
        assert(ids.last() == ids[ids.len() - 1]);
    }
}

/// A shutdown tells every transaction that had no terminal that the runtime shut
/// down, and changes no terminal that was there.
pub proof fn shutdown_is_told_to_every_transaction(
    m: SupervisorModel,
    after: SupervisorModel,
    ids: Seq<TransactionId>,
    t: TransactionId,
)
    requires
        shutdown_began(m, after, ids),
        m.rows.dom().contains(t),
    ensures
        after.rows[t].terminal == (match m.rows[t].terminal {
            Some(had) => Some(had),
            None => Some(TerminalDecision { kind: TransactionEndKind::RuntimeShutdown }),
        }),
        m.state != RuntimeState::Stopped ==> closed_admission(m).state == RuntimeState::Quiescing,
        m.state == RuntimeState::Stopped ==> closed_admission(m).state == RuntimeState::Stopped,
{
    lemma_each_is_told(closed_admission(m), ids, t);
    assert(ids.contains(t));
}

/// An abort concerns exactly the tasks of its transaction that it does not spare.
pub proof fn abort_concerns_its_transaction(
    m: SupervisorModel,
    tx: TransactionId,
    spared: Spared,
    id: TaskId,
)
    requires
        m.tasks.dom().contains(id),
    ensures
        ({
            let class = m.tasks[id].class;
            let hit = class.owner() == Some(tx) && (class is Finalizer ==> spared
                == Spared::Nothing) && (class is EventPublisher ==> spared
                != Spared::FinalizerAndPublisher);
            let a = aborted(m, tx, spared);
            &&& concerned(class, tx, spared) == hit
            &&& hit ==> a.tasks[id].abort_requested && a.aborts.contains(id)
            &&& !hit ==> a.tasks[id] == m.tasks[id] && a.aborts.contains(id) == m.aborts.contains(
                id,
            )
            &&& a.tasks[id].class == class
            &&& a.tasks.dom() == m.tasks.dom()
        }),
{
    assert(aborted(m, tx, spared).tasks.dom() =~= m.tasks.dom());
}

/// Every task but a service of the runtime belongs to its transaction.
pub proof fn task_belongs_to_its_transaction(
    t: TransactionId,
    e: crate::identity::ExchangeId,
    x: crate::identity::ToolExecutionId,
)
    ensures
        TaskClass::TransactionCoordinator(t).owner() == Some(t),
        TaskClass::EventPublisher(t).owner() == Some(t),
        TaskClass::ConnectorOwner(t, e).owner() == Some(t),
        TaskClass::InterpreterOwner(t, e).owner() == Some(t),
        TaskClass::ToolWorker(t, x).owner() == Some(t),
        TaskClass::LoopRuntime(t).owner() == Some(t),
        TaskClass::Finalizer(t).owner() == Some(t),
        TaskClass::McpRequest(t).owner() == Some(t),
        TaskClass::RuntimeService.owner() is None,
{
}

/// A task that was told to stop and ran to its end counts as cancelled; every
/// other one counts as what it was.
pub proof fn exit_counts_as_what_it_was(
    meta: Map<TaskId, TaskMeta>,
    id: TaskId,
    exit: TaskExit,
)
    requires
        meta.dom().contains(id),
    ensures
        meta[id].abort_requested && exit == TaskExit::Completed ==> joined_exit(meta, id, exit)
            == TaskExit::Cancelled,
        !meta[id].abort_requested || exit != TaskExit::Completed ==> joined_exit(meta, id, exit)
            == exit,
{
}

/// The end that a finalizer tells is the one that was decided; a row that never got
/// one broke a rule. Taking the row over closes its admission and takes its
/// completion, and nothing else.
pub proof fn finalizer_tells_what_was_decided(e: LedgerEntry)
    ensures
        e.terminal matches Some(t) ==> row_kind(e) == t.kind,
        e.terminal is None ==> row_kind(e) == TransactionEndKind::InvariantFailed,
        ({
            let f = finalizing_row(e);
            &&& f.terminal == e.terminal
            &&& f.session_key == e.session_key
            &&& f.channel_id == e.channel_id
            &&& f.transaction_id == e.transaction_id
            &&& f.cancelled == e.cancelled
            &&& f.phase == TransactionPhase::CleanupPending
            &&& !f.ports.completion
            &&& !f.ports.admission
            &&& f.ports.seal == e.ports.seal
            &&& f.ports.delivery ==> e.ports.delivery
        }),
{
}

/// What the publisher answered is what the end says of its delivery and its count
/// of events; a publisher that did not answer was late, a closed one was closed,
/// and without one nothing was attempted. A success stands exactly where the
/// terminal event was published or none was attempted; every other kind stands in
/// any case.
pub proof fn end_goes_by_the_answer(
    kind: TransactionEndKind,
    outcome: SealOutcome,
)
    ensures
        ({
            let end = sealed_end(kind, outcome);
            let claims = kind == TransactionEndKind::Completed || kind
                == TransactionEndKind::ContinuationRequired;
            &&& outcome matches SealOutcome::Replied(r) ==> end.delivery == r.delivery
                && end.last_sequence == r.last_sequence
            &&& outcome is NoReply || outcome is Full ==> end.delivery
                == TerminalEventDelivery::DeadlineExceeded && end.last_sequence == 0
            &&& outcome is Closed ==> end.delivery == TerminalEventDelivery::QueueClosed
                && end.last_sequence == 0
            &&& outcome is NoSeal ==> end.delivery == TerminalEventDelivery::NotAttempted
                && end.last_sequence == 0
            &&& end.delivery == TerminalEventDelivery::Published || end.delivery
                == TerminalEventDelivery::NotAttempted ==> end.kind == kind
            &&& !(end.delivery == TerminalEventDelivery::Published || end.delivery
                == TerminalEventDelivery::NotAttempted) && claims ==> end.kind
                == TransactionEndKind::EventDeliveryFailed
            &&& !claims ==> end.kind == kind
        }),
{
}

/// A completion says the end of its transaction: whose it is, on which channel and
/// session, of which kind, and after how many events.
pub proof fn end_is_that_of_its_transaction(
    end: TransactionEndEvent,
    transaction_id: TransactionId,
    channel_id: ChannelId,
    session_id: Option<SessionId>,
    kind: TransactionEndKind,
    emitted_events: u64,
)
    requires
        is_end(end, transaction_id, channel_id, session_id, kind, emitted_events),
    ensures
        end.transaction_id == transaction_id,
        end.channel_id == channel_id,
        end.session_id == session_id,
        end.kind == kind,
        end.emitted_events == emitted_events,
        end.diagnostics@.len() == 0,
{
}

/// A completion that the mailbox took is counted as published, also where nobody
/// will read it; one that had no mailbox, or came twice, broke a rule.
pub proof fn completion_is_counted_as_what_it_was(
    c: RuntimeCounters,
    result: Option<CompletionPublishResult>,
)
    requires
        c.completions_published < u64::MAX,
        c.completions_receiver_dropped < u64::MAX,
        c.completions_invariant_failed < u64::MAX,
    ensures
        ({
            let a = counted(c, result);
            let taken = result == Some(CompletionPublishResult::Published) || result == Some(
                CompletionPublishResult::ReceiverDropped,
            );
            let unread = result == Some(CompletionPublishResult::ReceiverDropped);
            &&& a.completions_published == c.completions_published + (if taken {
                1int
            } else {
                0
            })
            &&& a.completions_receiver_dropped == c.completions_receiver_dropped + (if unread {
                1int
            } else {
                0
            })
            &&& a.completions_invariant_failed == c.completions_invariant_failed + (if taken {
                0int
            } else {
                1
            })
            &&& a.runtime_shutdown_terminals == c.runtime_shutdown_terminals
        }),
        bumped(c.completions_published) == c.completions_published + 1,
{
}

/// A command reaches its transaction and no other: a cancellation ends one that has
/// no terminal as cancelled and leaves any other as it is; force ends one that has
/// none, or was cancelled, as terminated. Neither stops the loop.
pub proof fn command_reaches_its_transaction(
    l: SupervisorLoop,
    next: SupervisorLoop,
    before: SupervisorModel,
    after: SupervisorModel,
    command: ControlCommand,
    tx: TransactionId,
    t: TransactionId,
)
    requires
        control_taken(l, next, before, after, Some(command)),
        command == ControlCommand::Cancel(tx) || command == ControlCommand::ForceTerminate(tx),
        before.rows.dom().contains(t),
    ensures
        next == l,
        after.rows.dom() =~= before.rows.dom(),
        after.state == before.state,
        t != tx ==> after.rows[t] == before.rows[t],
        t == tx && before.rows[t].terminal is None ==> after.rows[t].cancelled
            && after.rows[t].terminal == Some(
            TerminalDecision {
                kind: if command is Cancel {
                    TransactionEndKind::Cancelled
                } else {
                    TransactionEndKind::Terminated
                },
            },
        ),
        t == tx && command is Cancel && before.rows[t].terminal is Some ==> after.rows[t].terminal
            == before.rows[t].terminal,
        t == tx && command is ForceTerminate && before.rows[t].terminal == Some(
            TerminalDecision { kind: TransactionEndKind::Cancelled },
        ) ==> after.rows[t].terminal == Some(
            TerminalDecision { kind: TransactionEndKind::Terminated },
        ),
{
}

/// A command for a transaction that is not there changes nothing.
pub proof fn command_for_no_transaction_does_nothing(
    l: SupervisorLoop,
    next: SupervisorLoop,
    before: SupervisorModel,
    after: SupervisorModel,
    command: ControlCommand,
    tx: TransactionId,
)
    requires
        control_taken(l, next, before, after, Some(command)),
        command == ControlCommand::Cancel(tx) || command == ControlCommand::ForceTerminate(tx),
        !before.rows.dom().contains(tx),
    ensures
        after == before,
        next == l,
{
}

/// A command to stop, or the loss of whoever gives commands, stops the loop and ends
/// every transaction that has no terminal as shut down; only a hard stop aborts every
/// task that is then there.
pub proof fn stop_reaches_every_transaction(
    l: SupervisorLoop,
    next: SupervisorLoop,
    before: SupervisorModel,
    after: SupervisorModel,
    command: Option<ControlCommand>,
    t: TransactionId,
)
    requires
        control_taken(l, next, before, after, command),
        command is None || command->0 is BeginShutdown || command->0 is StopSupervisor,
        before.rows.dom().contains(t),
    ensures
        next.stopping,
        next.quiesce_started == l.quiesce_started,
        after.rows[t].terminal == (match before.rows[t].terminal {
            Some(had) => Some(had),
            None => Some(TerminalDecision { kind: TransactionEndKind::RuntimeShutdown }),
        }),
        command is None || command->0 is StopSupervisor ==> forall|id: TaskId|
            #[trigger] after.tasks.dom().contains(id) ==> after.aborts.contains(id)
                && after.tasks[id].abort_requested,
{
    if command is Some && command->0 is BeginShutdown {
        let ids = choose|ids: Seq<TransactionId>| #[trigger] shutdown_began(before, after, ids);
        shutdown_is_told_to_every_transaction(before, after, ids, t);
    } else {
        let (ids, mid) = choose|ids: Seq<TransactionId>, mid: SupervisorModel| #[trigger]
            stopped_hard(before, after, ids, mid);
        shutdown_is_told_to_every_transaction(before, mid, ids, t);
    }
}

/// A queued transaction runs while the runtime accepts. Once the loop stops it is
/// ended as shut down, unless it has its terminal.
pub proof fn queued_transaction_is_run_or_ended(
    l: SupervisorLoop,
    before: SupervisorModel,
    after: SupervisorModel,
    tx: TransactionId,
    t: TransactionId,
)
    requires
        start_taken(l, before, after, tx),
        before.rows.dom().contains(tx),
        before.rows.dom().contains(t),
    ensures
        t != tx ==> after.rows[t] == before.rows[t],
        before.state == RuntimeState::Accepting && before.rows[tx].phase
            == TransactionPhase::Queued && before.rows[tx].ports.delivery ==> after.rows[tx].phase
            == TransactionPhase::Running && after.started.len() == before.started.len() + 1
            && after.started.last().transaction_id == tx,
        before.state != RuntimeState::Accepting ==> after.started == before.started,
        before.state != RuntimeState::Accepting && l.stopping && before.rows[tx].terminal is None
            ==> after.rows[tx].terminal == Some(
            TerminalDecision { kind: TransactionEndKind::RuntimeShutdown },
        ),
        before.state != RuntimeState::Accepting && !l.stopping ==> after == before,
{
}

/// A loop stops exactly when it was told to and nothing is left; a caller is told
/// that it has wound down exactly when it has, and waits no longer than it may.
pub proof fn loop_stops_iff_nothing_is_left(
    l: SupervisorLoop,
    shared: RuntimeShared,
    tasks: TaskSupervisor,
    joins_empty: bool,
    processes_empty: bool,
    r: StopVerdict,
    elapsed: u128,
    deadline: u128,
    snapshot: ShutdownSnapshot,
    w: DrainWait,
)
    requires
        call_ensures(
            SupervisorLoop::stop_verdict,
            (&l, &shared, &tasks, joins_empty, processes_empty),
            r,
        ),
        call_ensures(wait_until_drain_complete, (&shared, elapsed, deadline, snapshot), w),
    ensures
        r == StopVerdict::Stop <==> l.stopping && shared.ledger@.dom().len() == 0
            && tasks@.dom().len() == 0 && joins_empty && processes_empty,
        r == StopVerdict::Run <==> !l.stopping || shared.ledger@.dom().len() != 0,
        w == DrainWait::Complete <==> shared.state == RuntimeState::Stopped
            || shared.drain_complete,
        w is TimedOut ==> elapsed >= deadline && w == DrainWait::TimedOut(snapshot),
        w is Poll ==> elapsed < deadline,
        w is Poll && shared.state == RuntimeState::Quiescing ==> w == (DrainWait::Poll {
            nudge: true,
        }),
{
}

} // verus!
