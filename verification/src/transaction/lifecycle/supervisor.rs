//! The supervisor: sole authority over terminals, rows and tasks.
//!
//! Each function works on the shared state and the books of tasks, and notes
//! in [`Effects`] what the driver has to do: start finalizers and work, abort
//! tasks. The specifications are functions on [`SupervisorModel`].

use crate::identity::TransactionId;
use crate::transaction::lifecycle::capacity::{released, PoolModel};
use crate::transaction::lifecycle::event_publisher::TerminalPublicationResult;
use crate::transaction::lifecycle::ledger::{
    HeldPorts, LedgerEntry, LifecycleLedger, TransactionPhase,
};
use crate::transaction::lifecycle::shared::{
    bumped, lemma_row_update, RuntimeCounters, RuntimeShared, RuntimeState, ShutdownReport,
    ShutdownSnapshot,
};
use crate::transaction::lifecycle::task_supervisor::{
    aborted_where, concerned, lists_where, tasks_of, Spared, TaskClass, TaskExit, TaskId, TaskMeta,
    TaskSupervisor,
};
use crate::transaction::lifecycle::terminal::{
    build_completion, end_event, is_end, CleanupStatus, TerminalDecision, TerminalProposal,
    TransactionCompletion,
};
use crate::transaction::types::{
    ChannelId, SessionId, TerminalEventDelivery, TransactionEndKind,
};
use vstd::prelude::*;

verus! {

/// Start-queue commands.
#[derive(Clone, Copy, Debug, PartialEq, Eq, Structural)]
pub enum StartCommand {
    /// Start an admitted queued transaction.
    Start(TransactionId),
}

/// Control-queue commands.
#[derive(Clone, Copy, Debug, PartialEq, Eq, Structural)]
pub enum ControlCommand {
    /// Request cooperative cancel.
    Cancel(TransactionId),
    /// Request forced terminate.
    ForceTerminate(TransactionId),
    /// Begin shutdown (idempotent).
    BeginShutdown,
    /// Stop after winding down.
    StopSupervisor,
}

/// Every command that the supervisor takes.
#[derive(Clone, Copy, Debug, PartialEq, Eq, Structural)]
pub enum SupervisorCommand {
    /// Start.
    Start(TransactionId),
    /// Cancel.
    Cancel(TransactionId),
    /// Force terminate.
    ForceTerminate(TransactionId),
    /// Begin shutdown.
    BeginShutdown,
    /// Stop supervisor.
    StopSupervisor,
}

/// A finalizer to be started under a registered task.
#[derive(Clone, Copy, Debug, PartialEq, Eq, Structural)]
pub struct FinalizerStart {
    /// Transaction.
    pub transaction_id: TransactionId,
    /// Registered task.
    pub task: TaskId,
    /// Whether the finalizer gets the seal sender.
    pub seal: bool,
}

/// Work to be started under registered tasks.
#[derive(Clone, Debug)]
pub struct StartedWork {
    /// Transaction.
    pub transaction_id: TransactionId,
    /// Task of the publisher.
    pub publisher: TaskId,
    /// Task of the coordinator.
    pub coordinator: TaskId,
    /// Session when known.
    pub session_id: Option<SessionId>,
}

/// What the driver has to do.
pub struct Effects {
    /// Finalizers to be started, in order.
    pub finalizers: Vec<FinalizerStart>,
    /// Work to be started, in order.
    pub started: Vec<StartedWork>,
    /// Tasks to be aborted.
    pub aborts: Vec<TaskId>,
}

impl Effects {
    /// Nothing to do.
    pub fn new() -> (r: Self)
        ensures
            r.finalizers@ == Seq::<FinalizerStart>::empty(),
            r.started@ == Seq::<StartedWork>::empty(),
            r.aborts@ == Seq::<TaskId>::empty(),
    {
        Effects { finalizers: Vec::new(), started: Vec::new(), aborts: Vec::new() }
    }
}

/// Abstract state of the supervisor, with what the driver has to do.
pub struct SupervisorModel {
    /// State of the runtime.
    pub state: RuntimeState,
    /// Rows.
    pub rows: Map<TransactionId, LedgerEntry>,
    /// Places.
    pub pool: PoolModel,
    /// Shutdown generation.
    pub generation: u64,
    /// Counters.
    pub counters: RuntimeCounters,
    /// Tasks owned, as last told.
    pub owned_tasks: u32,
    /// Whether the supervisor has wound down.
    pub drain_complete: bool,
    /// Final account.
    pub report: Option<ShutdownReport>,
    /// Registered tasks.
    pub tasks: Map<TaskId, TaskMeta>,
    /// Id of the next task.
    pub next_task: u64,
    /// Finalizers to be started.
    pub finalizers: Seq<FinalizerStart>,
    /// Work to be started.
    pub started: Seq<StartedWork>,
    /// Tasks to be aborted.
    pub aborts: Set<TaskId>,
}

/// The model of concrete state.
pub open spec fn model(
    shared: RuntimeShared,
    tasks: TaskSupervisor,
    fx: Effects,
) -> SupervisorModel {
    SupervisorModel {
        state: shared.state,
        rows: shared.ledger@,
        pool: shared.pool@,
        generation: shared.shutdown_generation,
        counters: shared.counters,
        owned_tasks: shared.owned_tasks,
        drain_complete: shared.drain_complete,
        report: shared.shutdown_report,
        tasks: tasks@,
        next_task: tasks.next(),
        finalizers: fx.finalizers@,
        started: fx.started@,
        aborts: fx.aborts@.to_set(),
    }
}

/// A row once a terminal was proposed for it. The first proposal decides; a
/// forced termination replaces a cancellation, and nothing else is replaced.
pub open spec fn decided(e: LedgerEntry, kind: TransactionEndKind, force: bool) -> LedgerEntry {
    LedgerEntry {
        terminal: match e.terminal {
            None => Some(TerminalDecision { kind }),
            Some(t) => if force && t.kind == TransactionEndKind::Cancelled && kind
                == TransactionEndKind::Terminated {
                Some(TerminalDecision { kind: TransactionEndKind::Terminated })
            } else {
                Some(t)
            },
        },
        phase: if e.terminal is None {
            TransactionPhase::Finalizing
        } else {
            e.phase
        },
        pending_worker_proposal: None,
        cancelled: true,
        ports: HeldPorts { seal: false, ..e.ports },
        ..e
    }
}

/// One more registered task.
pub open spec fn registered(m: SupervisorModel, class: TaskClass) -> SupervisorModel {
    SupervisorModel {
        tasks: m.tasks.insert(
            TaskId(m.next_task),
            TaskMeta { class, abort_requested: false },
        ),
        next_task: if m.next_task == u64::MAX {
            u64::MAX
        } else {
            (m.next_task + 1) as u64
        },
        ..m
    }
}

/// A terminal was proposed. The first one for a row starts its finalizer.
pub open spec fn accepted(
    m: SupervisorModel,
    tx: TransactionId,
    kind: TransactionEndKind,
    force: bool,
) -> SupervisorModel {
    if !m.rows.dom().contains(tx) {
        m
    } else {
        let e = m.rows[tx];
        let base = SupervisorModel { rows: m.rows.insert(tx, decided(e, kind, force)), ..m };
        if e.terminal is None {
            SupervisorModel {
                finalizers: m.finalizers.push(
                    FinalizerStart {
                        transaction_id: tx,
                        task: TaskId(m.next_task),
                        seal: e.ports.seal,
                    },
                ),
                ..registered(base, TaskClass::Finalizer(tx))
            }
        } else {
            base
        }
    }
}

/// Whether a transaction has tasks.
pub open spec fn has_tasks(m: SupervisorModel, tx: TransactionId) -> bool {
    exists|id: TaskId| #[trigger]
        m.tasks.dom().contains(id) && m.tasks[id].class.owner() == Some(tx)
}

/// Tasks of a transaction were told to stop, but for those spared.
pub open spec fn aborted(
    m: SupervisorModel,
    tx: TransactionId,
    spared: Spared,
) -> SupervisorModel {
    let p = |c: TaskClass| concerned(c, tx, spared);
    SupervisorModel {
        tasks: aborted_where(m.tasks, p),
        aborts: m.aborts.union(
            Set::new(|id: TaskId| m.tasks.dom().contains(id) && p(m.tasks[id].class)),
        ),
        ..m
    }
}

/// Every task was told to stop.
pub open spec fn all_aborted(m: SupervisorModel) -> SupervisorModel {
    SupervisorModel {
        tasks: aborted_where(m.tasks, |c: TaskClass| true),
        aborts: m.aborts.union(m.tasks.dom()),
        ..m
    }
}

/// A row was taken out and its places given back.
pub open spec fn row_removed(m: SupervisorModel, tx: TransactionId) -> SupervisorModel {
    if m.rows.dom().contains(tx) {
        SupervisorModel {
            rows: m.rows.remove(tx),
            pool: released(m.pool, m.rows[tx].channel_id@),
            ..m
        }
    } else {
        m
    }
}

/// A row is taken out only when its terminal is being or was published.
pub open spec fn tombstone_removed(m: SupervisorModel, tx: TransactionId) -> SupervisorModel {
    if m.rows.dom().contains(tx) && (m.rows[tx].phase == TransactionPhase::CleanupPending
        || m.rows[tx].phase == TransactionPhase::Finalizing) {
        row_removed(m, tx)
    } else {
        m
    }
}

/// The terminal of a coordinator that left none behind.
pub open spec fn kind_of_exit(
    exit: TaskExit,
    quiescing: bool,
    cancelled: bool,
) -> TransactionEndKind {
    if exit == TaskExit::Panicked {
        TransactionEndKind::InvariantFailed
    } else if quiescing {
        TransactionEndKind::RuntimeShutdown
    } else if cancelled || exit == TaskExit::Cancelled {
        TransactionEndKind::Cancelled
    } else {
        TransactionEndKind::InvariantFailed
    }
}

/// A coordinator ended: a row without terminal gets one, the stashed proposal first.
pub open spec fn coordinator_exited(
    m: SupervisorModel,
    tx: TransactionId,
    exit: TaskExit,
) -> SupervisorModel {
    if m.rows.dom().contains(tx) && m.rows[tx].terminal is None {
        let e = m.rows[tx];
        let kind = match e.pending_worker_proposal {
            Some(p) => p.kind,
            None => kind_of_exit(exit, m.state == RuntimeState::Quiescing, e.cancelled),
        };
        accepted(m, tx, kind, false)
    } else {
        m
    }
}

/// A task of a transaction ended and is out of the books.
pub open spec fn task_exited(
    m: SupervisorModel,
    class: TaskClass,
    exit: TaskExit,
) -> SupervisorModel {
    match class.owner() {
        None => m,
        Some(tx) => {
            let a = if class is TransactionCoordinator {
                coordinator_exited(m, tx, exit)
            } else {
                m
            };
            if !has_tasks(a, tx) {
                tombstone_removed(a, tx)
            } else if class is Finalizer {
                aborted(a, tx, Spared::Nothing)
            } else {
                a
            }
        },
    }
}

/// Shutdown reached one row.
pub open spec fn shut_down_one(m: SupervisorModel, tx: TransactionId) -> SupervisorModel {
    if !m.rows.dom().contains(tx) {
        m
    } else if m.rows[tx].terminal is None {
        accepted(
            SupervisorModel {
                counters: RuntimeCounters {
                    runtime_shutdown_terminals: bumped(m.counters.runtime_shutdown_terminals),
                    ..m.counters
                },
                ..m
            },
            tx,
            TransactionEndKind::RuntimeShutdown,
            false,
        )
    } else {
        aborted(
            SupervisorModel {
                rows: m.rows.insert(tx, LedgerEntry { cancelled: true, ..m.rows[tx] }),
                ..m
            },
            tx,
            Spared::FinalizerAndPublisher,
        )
    }
}

/// Shutdown reached these rows, in order.
pub open spec fn shut_down_each(m: SupervisorModel, ids: Seq<TransactionId>) -> SupervisorModel
    decreases ids.len(),
{
    if ids.len() == 0 {
        m
    } else {
        shut_down_one(shut_down_each(m, ids.drop_last()), ids.last())
    }
}

/// Admission closes; a stopped runtime stays stopped.
pub open spec fn closed_admission(m: SupervisorModel) -> SupervisorModel {
    SupervisorModel {
        state: if m.state == RuntimeState::Stopped {
            RuntimeState::Stopped
        } else {
            RuntimeState::Quiescing
        },
        ..m
    }
}

/// Whether a list holds every row once.
pub open spec fn lists_rows(
    ids: Seq<TransactionId>,
    rows: Map<TransactionId, LedgerEntry>,
) -> bool {
    &&& ids.no_duplicates()
    &&& forall|tx: TransactionId| #[trigger] ids.contains(tx) <==> rows.dom().contains(tx)
}

/// Shutdown began, with the rows walked in some order.
pub open spec fn shutdown_began(
    m: SupervisorModel,
    after: SupervisorModel,
    ids: Seq<TransactionId>,
) -> bool {
    &&& lists_rows(ids, m.rows)
    &&& after == shut_down_each(closed_admission(m), ids)
}

/// Work of a queued row was started.
pub open spec fn work_started(m: SupervisorModel, tx: TransactionId) -> SupervisorModel {
    if m.rows.dom().contains(tx) && m.rows[tx].phase == TransactionPhase::Queued
        && m.rows[tx].ports.delivery {
        let e = m.rows[tx];
        let running = LedgerEntry {
            phase: TransactionPhase::Running,
            ports: HeldPorts { delivery: false, completion: true, admission: true, seal: true },
            ..e
        };
        let a = registered(
            SupervisorModel { rows: m.rows.insert(tx, running), ..m },
            TaskClass::EventPublisher(tx),
        );
        let b = registered(a, TaskClass::TransactionCoordinator(tx));
        SupervisorModel {
            started: m.started.push(
                StartedWork {
                    transaction_id: tx,
                    publisher: TaskId(m.next_task),
                    coordinator: TaskId(a.next_task),
                    session_id: match e.session_key {
                        Some(k) => Some(k.session_id),
                        None => None,
                    },
                },
            ),
            ..b
        }
    } else {
        m
    }
}

/// Proposes a terminal for a transaction.
pub fn accept_terminal(
    shared: &mut RuntimeShared,
    tasks: &mut TaskSupervisor,
    fx: &mut Effects,
    tx: TransactionId,
    proposal: TerminalProposal,
    force_upgrade: bool,
)
    requires
        old(shared).wf(),
        old(tasks).wf(),
    ensures
        final(shared).wf(),
        final(tasks).wf(),
        model(*final(shared), *final(tasks), *final(fx)) == accepted(
            model(*old(shared), *old(tasks), *old(fx)),
            tx,
            proposal.kind,
            force_upgrade,
        ),
{
    let ghost rows = shared.ledger@;
    let mut first: bool = false;
    let mut seal: bool = false;
    match shared.ledger.get_mut(&tx) {
        None => {
            return;
        },
        Some(entry) => {
            seal = entry.ports.seal;
            entry.pending_worker_proposal = None;
            match entry.terminal {
                Some(existing) => {
                    if force_upgrade && existing.kind == TransactionEndKind::Cancelled
                        && proposal.kind == TransactionEndKind::Terminated {
                        entry.terminal = Some(
                            TerminalDecision::new(TransactionEndKind::Terminated),
                        );
                    }
                },
                None => {
                    first = true;
                    entry.terminal = Some(TerminalDecision::new(proposal.kind));
                    entry.phase = TransactionPhase::Finalizing;
                },
            }
            entry.cancelled = true;
            entry.ports.seal = false;
        },
    }
    proof {
        assert(shared.ledger@[tx] == decided(rows[tx], proposal.kind, force_upgrade));
        lemma_row_update(rows, shared.pool@, tx, shared.ledger@[tx]);
    }
    if first {
        let task = tasks.spawn(TaskClass::Finalizer(tx));
        fx.finalizers.push(FinalizerStart { transaction_id: tx, task, seal });
    }
}

pub(crate) fn abort_sparing(
    tasks: &mut TaskSupervisor,
    fx: &mut Effects,
    tx: &TransactionId,
    spared: Spared,
    Ghost(shared): Ghost<RuntimeShared>,
)
    requires
        old(tasks).wf(),
    ensures
        final(tasks).wf(),
        model(shared, *final(tasks), *final(fx)) == aborted(
            model(shared, *old(tasks), *old(fx)),
            *tx,
            spared,
        ),
{
    let mut ids = tasks.abort_transaction_sparing(tx, spared);
    let ghost listed = ids@;
    let ghost before = fx.aborts@;
    fx.aborts.append(&mut ids);
    proof {
        let p = |c: TaskClass| concerned(c, *tx, spared);
        let m = old(tasks)@;
        let want = before.to_set().union(
            Set::new(|id: TaskId| m.dom().contains(id) && p(m[id].class)),
        );
        lemma_to_set_append(before, listed);
        assert(fx.aborts@.to_set() =~= want) by {
            assert forall|id: TaskId| listed.to_set().contains(id) <==> m.dom().contains(id) && p(
                m[id].class,
            ) by {
                assert(listed.contains(id) <==> m.dom().contains(id) && p(m[id].class));
            }
        }
    }
}

proof fn lemma_to_set_append(a: Seq<TaskId>, b: Seq<TaskId>)
    ensures
        (a + b).to_set() == a.to_set().union(b.to_set()),
{
    let c = a + b;
    assert forall|x: TaskId| c.contains(x) <==> a.contains(x) || b.contains(x) by {
        if a.contains(x) {
            let i = choose|i: int| 0 <= i < a.len() && a[i] == x;
            assert(c[i] == x);
        }
        if b.contains(x) {
            let i = choose|i: int| 0 <= i < b.len() && b[i] == x;
            assert(c[a.len() + i] == x);
        }
        if c.contains(x) {
            let i = choose|i: int| 0 <= i < c.len() && c[i] == x;
            if i < a.len() {
                assert(a[i] == x);
            } else {
                assert(b[i - a.len()] == x);
            }
        }
    }
    assert(c.to_set() =~= a.to_set().union(b.to_set()));
}

pub(crate) fn abort_everything(tasks: &mut TaskSupervisor, fx: &mut Effects, Ghost(shared): Ghost<RuntimeShared>)
    requires
        old(tasks).wf(),
    ensures
        final(tasks).wf(),
        model(shared, *final(tasks), *final(fx)) == all_aborted(
            model(shared, *old(tasks), *old(fx)),
        ),
{
    let mut ids = tasks.abort_all();
    let ghost listed = ids@;
    let ghost before = fx.aborts@;
    fx.aborts.append(&mut ids);
    proof {
        let m = old(tasks)@;
        lemma_to_set_append(before, listed);
        assert(fx.aborts@.to_set() =~= before.to_set().union(m.dom())) by {
            assert forall|id: TaskId| listed.to_set().contains(id) <==> m.dom().contains(id) by {
                assert(listed.contains(id) <==> m.dom().contains(id));
            }
        }
    }
}

/// Takes a row out if its terminal is being or was published.
pub fn try_remove_tombstone(shared: &mut RuntimeShared, tx: &TransactionId)
    requires
        old(shared).wf(),
    ensures
        final(shared).wf(),
        forall|tasks: TaskSupervisor, fx: Effects|
            #[trigger] model(*final(shared), tasks, fx) == tombstone_removed(
                model(*old(shared), tasks, fx),
                *tx,
            ),
{
    let removable: bool = match shared.ledger.get(tx) {
        None => false,
        Some(e) => e.phase == TransactionPhase::CleanupPending || e.phase
            == TransactionPhase::Finalizing,
    };
    if removable {
        let _gone = shared.remove_row(tx);
    }
}

/// Takes a row out in any case.
pub fn force_remove_tombstone(shared: &mut RuntimeShared, tx: &TransactionId)
    requires
        old(shared).wf(),
    ensures
        final(shared).wf(),
        forall|tasks: TaskSupervisor, fx: Effects|
            #[trigger] model(*final(shared), tasks, fx) == row_removed(
                model(*old(shared), tasks, fx),
                *tx,
            ),
{
    let gone = shared.remove_row(tx);
    proof {
        if !gone {
            assert(old(shared).ledger@.remove(*tx) =~= old(shared).ledger@);
        }
    }
}

pub(crate) fn transaction_has_tasks(tasks: &TaskSupervisor, tx: &TransactionId) -> (r: bool)
    requires
        tasks.wf(),
    ensures
        forall|shared: RuntimeShared, fx: Effects|
            r == has_tasks(#[trigger] model(shared, *tasks, fx), *tx),
{
    let ids = tasks.tasks_for(tx);
    proof {
        let m = tasks@;
        if ids@.len() > 0 {
            let id = ids@[0];
            assert(ids@.contains(id));
            assert(ids@.to_set().contains(id));
            assert(m.dom().contains(id) && m[id].class.owner() == Some(*tx));
        } else {
            assert forall|id: TaskId| #[trigger] m.dom().contains(id) implies m[id].class.owner()
                != Some(*tx) by {
                if m[id].class.owner() == Some(*tx) {
                    assert(tasks_of(m, *tx).contains(id));
                    assert(ids@.to_set().contains(id));
                }
            }
        }
    }
    ids.len() > 0
}

/// A task ended and is out of the books.
pub fn on_task_exit(
    shared: &mut RuntimeShared,
    tasks: &mut TaskSupervisor,
    fx: &mut Effects,
    class: TaskClass,
    exit: TaskExit,
)
    requires
        old(shared).wf(),
        old(tasks).wf(),
    ensures
        final(shared).wf(),
        final(tasks).wf(),
        model(*final(shared), *final(tasks), *final(fx)) == task_exited(
            model(*old(shared), *old(tasks), *old(fx)),
            class,
            exit,
        ),
{
    let tx: TransactionId = match class.transaction_id() {
        Some(tx) => tx,
        None => {
            return;
        },
    };
    if let TaskClass::TransactionCoordinator(_) = class {
        let quiescing: bool = shared.state == RuntimeState::Quiescing;
        let proposal: Option<TerminalProposal> = match shared.ledger.get(&tx) {
            Some(entry) => {
                if entry.terminal.is_none() {
                    match entry.pending_worker_proposal {
                        Some(p) => Some(p),
                        None => {
                            let kind = if exit == TaskExit::Panicked {
                                TransactionEndKind::InvariantFailed
                            } else if quiescing {
                                TransactionEndKind::RuntimeShutdown
                            } else if entry.cancelled || exit == TaskExit::Cancelled {
                                TransactionEndKind::Cancelled
                            } else {
                                TransactionEndKind::InvariantFailed
                            };
                            Some(TerminalProposal::new(kind))
                        },
                    }
                } else {
                    None
                }
            },
            None => None,
        };
        match proposal {
            Some(p) => accept_terminal(shared, tasks, fx, tx, p, false),
            None => {},
        }
    }
    let ghost m = model(*shared, *tasks, *fx);
    if !transaction_has_tasks(tasks, &tx) {
        try_remove_tombstone(shared, &tx);
        return;
    }
    if let TaskClass::Finalizer(_) = class {
        abort_sparing(tasks, fx, &tx, Spared::Nothing, Ghost(*shared));
    }
}

/// Starts the work of a queued transaction.
pub fn handle_start(
    shared: &mut RuntimeShared,
    tasks: &mut TaskSupervisor,
    fx: &mut Effects,
    tx: TransactionId,
)
    requires
        old(shared).wf(),
        old(tasks).wf(),
    ensures
        final(shared).wf(),
        final(tasks).wf(),
        model(*final(shared), *final(tasks), *final(fx)) == work_started(
            model(*old(shared), *old(tasks), *old(fx)),
            tx,
        ),
{
    let ghost rows = shared.ledger@;
    let mut session_id: Option<SessionId> = None;
    match shared.ledger.get(&tx) {
        None => {
            return;
        },
        Some(entry) => {
            if entry.phase != TransactionPhase::Queued || !entry.ports.delivery {
                return;
            }
            match &entry.session_key {
                Some(k) => {
                    session_id = Some(k.session_id.clone());
                },
                None => {},
            }
        },
    }
    match shared.ledger.get_mut(&tx) {
        None => {},
        Some(entry) => {
            entry.phase = TransactionPhase::Running;
            entry.ports = HeldPorts {
                delivery: false,
                completion: true,
                admission: true,
                seal: true,
            };
        },
    }
    proof {
        lemma_row_update(rows, shared.pool@, tx, shared.ledger@[tx]);
    }
    let publisher = tasks.spawn(TaskClass::EventPublisher(tx));
    let coordinator = tasks.spawn(TaskClass::TransactionCoordinator(tx));
    fx.started.push(StartedWork { transaction_id: tx, publisher, coordinator, session_id });
}

/// Closes admission and ends every transaction that has no terminal yet; those
/// that have one are told to stop, but for their finalizer and publisher.
pub fn begin_shutdown_inner(
    shared: &mut RuntimeShared,
    tasks: &mut TaskSupervisor,
    fx: &mut Effects,
)
    requires
        old(shared).wf(),
        old(tasks).wf(),
    ensures
        final(shared).wf(),
        final(tasks).wf(),
        exists|ids: Seq<TransactionId>| #[trigger]
            shutdown_began(
                model(*old(shared), *old(tasks), *old(fx)),
                model(*final(shared), *final(tasks), *final(fx)),
                ids,
            ),
{
    if shared.state != RuntimeState::Stopped {
        shared.state = RuntimeState::Quiescing;
    }
    let ids = shared.ledger.transaction_ids();
    let ghost start = closed_admission(model(*old(shared), *old(tasks), *old(fx)));
    assert(ids@.take(0) =~= Seq::<TransactionId>::empty());
    let mut i: usize = 0;
    while i < ids.len()
        invariant
            i <= ids.len(),
            shared.wf(),
            tasks.wf(),
            model(*shared, *tasks, *fx) == shut_down_each(start, ids@.take(i as int)),
        decreases ids.len() - i,
    {
        let tx = ids[i];
        shut_down_row(shared, tasks, fx, tx);
        proof {
            let t = ids@.take(i as int + 1);
            assert(t.drop_last() =~= ids@.take(i as int));
            assert(t.last() == tx);
        }
        i = i + 1;
    }
    proof {
        assert(ids@.take(i as int) =~= ids@);
        assert(shutdown_began(
            model(*old(shared), *old(tasks), *old(fx)),
            model(*shared, *tasks, *fx),
            ids@,
        ));
    }
}

fn shut_down_row(
    shared: &mut RuntimeShared,
    tasks: &mut TaskSupervisor,
    fx: &mut Effects,
    tx: TransactionId,
)
    requires
        old(shared).wf(),
        old(tasks).wf(),
    ensures
        final(shared).wf(),
        final(tasks).wf(),
        model(*final(shared), *final(tasks), *final(fx)) == shut_down_one(
            model(*old(shared), *old(tasks), *old(fx)),
            tx,
        ),
{
    let already: bool = match shared.ledger.get(&tx) {
        None => {
            return;
        },
        Some(e) => e.terminal.is_some(),
    };
    if !already {
        shared.counters.runtime_shutdown_terminals =
        shared.counters.runtime_shutdown_terminals.wrapping_add(1);
        accept_terminal(
            shared,
            tasks,
            fx,
            tx,
            TerminalProposal::new(TransactionEndKind::RuntimeShutdown),
            false,
        );
    } else {
        let ghost rows = shared.ledger@;
        match shared.ledger.get_mut(&tx) {
            Some(e) => {
                e.cancelled = true;
            },
            None => {},
        }
        proof {
            lemma_row_update(rows, shared.pool@, tx, shared.ledger@[tx]);
        }
        abort_sparing(tasks, fx, &tx, Spared::FinalizerAndPublisher, Ghost(*shared));
    }
}

} // verus!
