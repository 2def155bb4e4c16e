//! Whole runs of the runtime: every admitted transaction is finalized exactly
//! once, whatever happens in whatever order.

use crate::identity::TransactionId;
use crate::transaction::lifecycle::finalizer::finalizing_row;
use crate::transaction::lifecycle::ledger::{LedgerEntry, TransactionPhase};
use crate::transaction::lifecycle::shared::RuntimeState;
use crate::transaction::lifecycle::supervisor::{
    aborted, accepted, all_aborted, closed_admission, coordinator_exited, decided, has_tasks,
    kind_of_exit, registered, row_removed, shutdown_began, task_exited, tombstone_removed,
    work_started, FinalizerStart, SupervisorModel,
};
use crate::transaction::lifecycle::supervisor_laws::{
    finalizers_match, is_decided, proposal_keeps_one_finalizer,
    shutdown_decides_every_transaction, task_exit_keeps_one_finalizer, work_starts_once,
};
use crate::transaction::lifecycle::supervisor_loop::{
    idle_each, leftover_each, residuals_each, wound_down,
};
use crate::transaction::lifecycle::task_supervisor::{Spared, TaskClass, TaskExit};
use crate::transaction::lifecycle::terminal::TerminalDecision;
use crate::transaction::types::TransactionEndKind;
use vstd::prelude::*;

verus! {

/// State of a run: the supervisor, with every finalizer that was ever started,
/// and every transaction that was ever admitted.
pub struct Account {
    /// The supervisor.
    pub model: SupervisorModel,
    /// Transactions that were ever admitted.
    pub admitted: Set<TransactionId>,
    /// Whether shutdown has begun.
    pub stopping: bool,
}

/// One thing that happens in a run.
pub enum Step {
    /// A transaction is admitted with a new row.
    Admission(TransactionId, LedgerEntry),
    /// The work of a transaction is started.
    Start(TransactionId),
    /// A terminal is proposed.
    Proposal(TransactionId, TransactionEndKind, bool),
    /// A task ends.
    TaskEnd(TaskClass, TaskExit),
    /// A task is registered for a worker.
    Registration(TaskClass),
    /// A finalizer takes its row over.
    Finalization(TransactionId),
    /// A finalizer settles the kind of the end.
    Settlement(TransactionId, TransactionEndKind),
    /// Shutdown begins, or is told again.
    Shutdown(Seq<TransactionId>, SupervisorModel),
    /// Every task is told to stop.
    AbortAll,
    /// One lap of winding down.
    WindDown(Seq<TransactionId>, bool, Seq<TransactionId>, SupervisorModel),
}

/// Whether a finalizer was started for a transaction.
pub open spec fn is_finalized(m: SupervisorModel, tx: TransactionId) -> bool {
    exists|i: int| 0 <= i < m.finalizers.len() && (#[trigger] m.finalizers[i]).transaction_id == tx
}

/// Whether something can happen.
pub open spec fn can_happen(a: Account, step: Step) -> bool {
    match step {
        Step::Admission(tx, e) => a.model.state == RuntimeState::Accepting && !a.admitted.contains(
            tx,
        ) && e.terminal is None && e.phase == TransactionPhase::Queued,
        Step::Finalization(tx) => is_finalized(a.model, tx),
        Step::Settlement(tx, kind) => is_finalized(a.model, tx),
        Step::Shutdown(ids, after) => shutdown_began(a.model, after, ids),
        Step::WindDown(ids, late, rest, after) => a.stopping && wound_down(
            a.model,
            after,
            ids,
            late,
            rest,
        ),
        _ => true,
    }
}

/// The run after something happened.
pub open spec fn happened(a: Account, step: Step) -> Account {
    let m = a.model;
    match step {
        Step::Admission(tx, e) => Account {
            model: SupervisorModel { rows: m.rows.insert(tx, e), ..m },
            admitted: a.admitted.insert(tx),
            ..a
        },
        Step::Start(tx) => Account { model: work_started(m, tx), ..a },
        Step::Proposal(tx, kind, force) => Account { model: accepted(m, tx, kind, force), ..a },
        Step::TaskEnd(class, exit) => Account { model: task_exited(m, class, exit), ..a },
        Step::Registration(class) => Account { model: registered(m, class), ..a },
        Step::Finalization(tx) => if m.rows.dom().contains(tx) {
            Account {
                model: SupervisorModel {
                    rows: m.rows.insert(tx, finalizing_row(m.rows[tx])),
                    ..m
                },
                ..a
            }
        } else {
            a
        },
        Step::Settlement(tx, kind) => if m.rows.dom().contains(tx) {
            Account {
                model: SupervisorModel {
                    rows: m.rows.insert(
                        tx,
                        LedgerEntry { terminal: Some(TerminalDecision { kind }), ..m.rows[tx] },
                    ),
                    ..m
                },
                ..a
            }
        } else {
            a
        },
        Step::Shutdown(ids, after) => Account { model: after, stopping: true, ..a },
        Step::AbortAll => Account { model: all_aborted(m), ..a },
        Step::WindDown(ids, late, rest, after) => Account { model: after, ..a },
    }
}

/// Nothing is admitted once shutdown has begun, and then every row is decided.
pub open spec fn stopping_is_decided(a: Account) -> bool {
    a.stopping ==> a.model.state != RuntimeState::Accepting && forall|tx: TransactionId|
        a.model.rows.dom().contains(tx) ==> #[trigger] is_decided(a.model, tx)
}

/// What holds at every moment of a run: finalizers and decisions match; rows
/// and finalizers belong to admitted transactions; a row leaves the decision
/// phases to nobody undecided; and an admitted transaction whose row is gone
/// was finalized.
pub open spec fn accounted_for(a: Account) -> bool {
    &&& finalizers_match(a.model)
    &&& forall|tx: TransactionId| #[trigger]
        a.model.rows.dom().contains(tx) ==> a.admitted.contains(tx) && (a.model.rows[tx].phase
            == TransactionPhase::Finalizing || a.model.rows[tx].phase
            == TransactionPhase::CleanupPending ==> a.model.rows[tx].terminal is Some)
    &&& forall|i: int|
        0 <= i < a.model.finalizers.len() ==> a.admitted.contains(
            (#[trigger] a.model.finalizers[i]).transaction_id,
        )
    &&& forall|tx: TransactionId| #[trigger]
        a.admitted.contains(tx) && !a.model.rows.dom().contains(tx) ==> is_finalized(a.model, tx)
    &&& stopping_is_decided(a)
}

/// Whether a run is one that can happen from a state on.
pub open spec fn is_run(a: Account, steps: Seq<Step>) -> bool
    decreases steps.len(),
{
    steps.len() == 0 || (is_run(a, steps.drop_last()) && can_happen(
        after_run(a, steps.drop_last()),
        steps.last(),
    ))
}

/// The state after a run.
pub open spec fn after_run(a: Account, steps: Seq<Step>) -> Account
    decreases steps.len(),
{
    if steps.len() == 0 {
        a
    } else {
        happened(after_run(a, steps.drop_last()), steps.last())
    }
}

/// A runtime to which nothing has happened.
pub open spec fn is_fresh(a: Account) -> bool {
    &&& a.model.rows.dom() =~= Set::empty()
    &&& a.model.finalizers.len() == 0
    &&& a.admitted =~= Set::empty()
    &&& !a.stopping
}

/// A model with other tasks, but the same rows, finalizers and state.
proof fn lemma_same_rows(m: SupervisorModel, n: SupervisorModel)
    requires
        n.rows == m.rows,
        n.finalizers == m.finalizers,
        n.state == m.state,
    ensures
        finalizers_match(m) ==> finalizers_match(n),
        forall|tx: TransactionId| #[trigger] is_decided(n, tx) == is_decided(m, tx),
        forall|tx: TransactionId| #[trigger] is_finalized(n, tx) == is_finalized(m, tx),
{
    assert forall|tx: TransactionId| #[trigger] is_decided(n, tx) == is_decided(m, tx) by {}
    if finalizers_match(m) {
        assert forall|tx: TransactionId| #[trigger] is_decided(n, tx) implies exists|i: int|
            0 <= i < n.finalizers.len() && (#[trigger] n.finalizers[i]).transaction_id == tx by {
            assert(is_decided(m, tx));
        }
    }
}

/// A finalizer of one model is one of another that only grew.
proof fn lemma_still_finalized(m: SupervisorModel, n: SupervisorModel, tx: TransactionId)
    requires
        is_finalized(m, tx),
        m.finalizers.len() <= n.finalizers.len(),
        forall|i: int| 0 <= i < m.finalizers.len() ==> #[trigger] n.finalizers[i] == m.finalizers[i],
    ensures
        is_finalized(n, tx),
{
    let i = choose|i: int|
        0 <= i < m.finalizers.len() && (#[trigger] m.finalizers[i]).transaction_id == tx;
    assert(n.finalizers[i].transaction_id == tx);
}

/// Taking out a row that is decided keeps the account.
proof fn lemma_row_removed(a: Account, tx: TransactionId)
    requires
        accounted_for(a),
        a.model.rows.dom().contains(tx) ==> is_decided(a.model, tx),
    ensures
        accounted_for(Account { model: row_removed(a.model, tx), ..a }),
{
    let m = a.model;
    let n = row_removed(m, tx);
    let b = Account { model: n, ..a };
    if m.rows.dom().contains(tx) {
        assert forall|t: TransactionId| #[trigger] is_decided(n, t) implies exists|i: int|
            0 <= i < n.finalizers.len() && (#[trigger] n.finalizers[i]).transaction_id == t by {
            assert(is_decided(m, t));
            assert(is_finalized(m, t));
            lemma_still_finalized(m, n, t);
        }
        assert(is_decided(m, tx));
        assert(is_finalized(m, tx));
        assert forall|t: TransactionId| #[trigger]
            a.admitted.contains(t) && !n.rows.dom().contains(t) implies is_finalized(n, t) by {
            if t != tx {
                assert(!m.rows.dom().contains(t));
                assert(is_finalized(m, t));
            }
            lemma_still_finalized(m, n, t);
        }
        if a.stopping {
            assert forall|t: TransactionId| n.rows.dom().contains(t) implies #[trigger] is_decided(
                n,
                t,
            ) by {
                assert(is_decided(m, t));
            }
        }
    }
}

/// Changing nothing but tasks keeps the account.
proof fn lemma_tasks_only(a: Account, n: SupervisorModel)
    requires
        accounted_for(a),
        n.rows == a.model.rows,
        n.finalizers == a.model.finalizers,
        n.state == a.model.state,
    ensures
        accounted_for(Account { model: n, ..a }),
{
    lemma_same_rows(a.model, n);
    let b = Account { model: n, ..a };
    assert forall|t: TransactionId| #[trigger]
        b.admitted.contains(t) && !b.model.rows.dom().contains(t) implies is_finalized(
        b.model,
        t,
    ) by {
        assert(is_finalized(a.model, t));
    }
    if a.stopping {
        assert forall|t: TransactionId| b.model.rows.dom().contains(t) implies
            #[trigger] is_decided(b.model, t) by {
            assert(is_decided(a.model, t));
        }
    }
}

/// Replacing a row by one with a terminal, where its finalizer was started or
/// nothing else is known, keeps the account.
proof fn lemma_row_decided(a: Account, tx: TransactionId, e: LedgerEntry)
    requires
        accounted_for(a),
        a.model.rows.dom().contains(tx),
        is_finalized(a.model, tx),
        e.terminal is Some,
    ensures
        accounted_for(
            Account {
                model: SupervisorModel { rows: a.model.rows.insert(tx, e), ..a.model },
                ..a
            },
        ),
{
    let m = a.model;
    let n = SupervisorModel { rows: m.rows.insert(tx, e), ..m };
    let b = Account { model: n, ..a };
    assert(n.rows.dom() =~= m.rows.dom());
    assert forall|t: TransactionId| #[trigger] is_decided(n, t) implies exists|i: int|
        0 <= i < n.finalizers.len() && (#[trigger] n.finalizers[i]).transaction_id == t by {
        if t != tx {
            assert(is_decided(m, t));
            assert(is_finalized(m, t));
        }
        lemma_still_finalized(m, n, t);
    }
    assert(finalizers_match(n));
    assert forall|t: TransactionId| #[trigger]
        b.admitted.contains(t) && !n.rows.dom().contains(t) implies is_finalized(n, t) by {
        assert(is_finalized(m, t));
        lemma_still_finalized(m, n, t);
    }
    if a.stopping {
        assert forall|t: TransactionId| n.rows.dom().contains(t) implies #[trigger] is_decided(
            n,
            t,
        ) by {
            if t != tx {
                assert(is_decided(m, t));
            }
        }
    }
}

/// A proposal keeps the account.
proof fn lemma_proposal(a: Account, tx: TransactionId, kind: TransactionEndKind, force: bool)
    requires
        accounted_for(a),
    ensures
        accounted_for(Account { model: accepted(a.model, tx, kind, force), ..a }),
{
    let m = a.model;
    let n = accepted(m, tx, kind, force);
    let b = Account { model: n, ..a };
    proposal_keeps_one_finalizer(m, tx, kind, force);
    if m.rows.dom().contains(tx) {
        assert forall|t: TransactionId| #[trigger]
            b.admitted.contains(t) && !n.rows.dom().contains(t) implies is_finalized(n, t) by {
            assert(is_finalized(m, t));
            let i = choose|i: int|
                0 <= i < m.finalizers.len() && (#[trigger] m.finalizers[i]).transaction_id == t;
            assert(n.finalizers[i].transaction_id == t);
        }
        assert forall|t: TransactionId| #[trigger] n.rows.dom().contains(t) implies
            b.admitted.contains(t) && (n.rows[t].phase == TransactionPhase::Finalizing
            || n.rows[t].phase == TransactionPhase::CleanupPending ==> n.rows[t].terminal
            is Some) by {
            assert(m.rows.dom().contains(t));
        }
        if a.stopping {
            assert forall|t: TransactionId| n.rows.dom().contains(t) implies
                #[trigger] is_decided(n, t) by {
                assert(is_decided(m, t));
            }
        }
    }
}

/// Shutdown keeps the account, and decides every row.
proof fn lemma_shutdown(a: Account, after: SupervisorModel, ids: Seq<TransactionId>)
    requires
        accounted_for(a),
        shutdown_began(a.model, after, ids),
    ensures
        accounted_for(Account { model: after, stopping: true, ..a }),
{
    let m = a.model;
    shutdown_decides_every_transaction(m, after, ids);
    let c = Account { model: closed_admission(m), ..a };
    lemma_same_but_state(m, closed_admission(m));
    assert(accounted_rows(c)) by {
        let n = closed_admission(m);
        assert forall|t: TransactionId| #[trigger]
            a.admitted.contains(t) && !n.rows.dom().contains(t) implies is_finalized(n, t) by {
            assert(is_finalized(m, t));
        }
    }
    lemma_shut_each(c, ids);
    let b = Account { model: after, stopping: true, ..a };
    let d = Account { model: after, stopping: false, ..a };
    assert(accounted_for(d));
    assert forall|t: TransactionId| #[trigger]
        b.admitted.contains(t) && !b.model.rows.dom().contains(t) implies is_finalized(
        b.model,
        t,
    ) by {
        assert(d.admitted.contains(t) && !d.model.rows.dom().contains(t));
    }
    assert forall|t: TransactionId| after.rows.dom().contains(t) implies #[trigger] is_decided(
        after,
        t,
    ) by {
        assert(m.rows.dom().contains(t));
    }
}

/// The account without what holds once shutdown has begun.
spec fn accounted_rows(a: Account) -> bool {
    accounted_for(Account { stopping: false, ..a })
}

proof fn lemma_same_but_state(m: SupervisorModel, n: SupervisorModel)
    requires
        n.rows == m.rows,
        n.finalizers == m.finalizers,
    ensures
        finalizers_match(m) ==> finalizers_match(n),
        forall|tx: TransactionId| #[trigger] is_finalized(n, tx) == is_finalized(m, tx),
{
    if finalizers_match(m) {
        assert forall|tx: TransactionId| #[trigger] is_decided(n, tx) implies exists|i: int|
            0 <= i < n.finalizers.len() && (#[trigger] n.finalizers[i]).transaction_id == tx by {
            assert(is_decided(m, tx));
        }
    }
}

proof fn lemma_shut_each(a: Account, ids: Seq<TransactionId>)
    requires
        accounted_rows(a),
    ensures
        accounted_rows(
            Account {
                model: crate::transaction::lifecycle::supervisor::shut_down_each(a.model, ids),
                ..a
            },
        ),
    decreases ids.len(),
{
    if ids.len() > 0 {
        lemma_shut_each(a, ids.drop_last());
        let p = crate::transaction::lifecycle::supervisor::shut_down_each(
            a.model,
            ids.drop_last(),
        );
        let q = Account { model: p, stopping: false, ..a };
        let tx = ids.last();
        if p.rows.dom().contains(tx) {
            if p.rows[tx].terminal is None {
                let n = crate::transaction::lifecycle::supervisor::shut_down_one(p, tx);
                let c = SupervisorModel { counters: n.counters, ..p };
                lemma_tasks_only(q, c);
                lemma_proposal(
                    Account { model: c, ..q },
                    tx,
                    TransactionEndKind::RuntimeShutdown,
                    false,
                );
            } else {
                assert(is_decided(p, tx));
                assert(is_finalized(p, tx));
                let e = LedgerEntry { cancelled: true, ..p.rows[tx] };
                lemma_row_decided(q, tx, e);
                let r = SupervisorModel { rows: p.rows.insert(tx, e), ..p };
                lemma_tasks_only(
                    Account { model: r, ..q },
                    aborted(r, tx, Spared::FinalizerAndPublisher),
                );
            }
        }
    }
}

proof fn lemma_residuals(a: Account, ids: Seq<TransactionId>)
    requires
        accounted_for(a),
    ensures
        accounted_for(Account { model: residuals_each(a.model, ids), ..a }),
    decreases ids.len(),
{
    if ids.len() > 0 {
        lemma_residuals(a, ids.drop_last());
        let p = residuals_each(a.model, ids.drop_last());
        lemma_tasks_only(
            Account { model: p, ..a },
            aborted(p, ids.last(), Spared::FinalizerAndPublisher),
        );
    }
}

proof fn lemma_idle(a: Account, ids: Seq<TransactionId>)
    requires
        accounted_for(a),
    ensures
        accounted_for(Account { model: idle_each(a.model, ids), ..a }),
    decreases ids.len(),
{
    if ids.len() > 0 {
        lemma_idle(a, ids.drop_last());
        let p = idle_each(a.model, ids.drop_last());
        let tx = ids.last();
        if !has_tasks(p, tx) && tombstone_removed(p, tx) != p {
            assert(p.rows.dom().contains(tx));
            lemma_row_removed(Account { model: p, ..a }, tx);
        }
    }
}

proof fn lemma_leftover(a: Account, ids: Seq<TransactionId>)
    requires
        accounted_for(a),
        a.stopping,
    ensures
        accounted_for(Account { model: leftover_each(a.model, ids), ..a }),
    decreases ids.len(),
{
    if ids.len() > 0 {
        lemma_leftover(a, ids.drop_last());
        let p = leftover_each(a.model, ids.drop_last());
        let tx = ids.last();
        let q = aborted(p, tx, Spared::Finalizer);
        lemma_tasks_only(Account { model: p, ..a }, q);
        if !has_tasks(q, tx) {
            if q.rows.dom().contains(tx) {
                assert(is_decided(q, tx));
            }
            lemma_row_removed(Account { model: q, ..a }, tx);
        }
    }
}

/// The end of a task keeps the account.
proof fn lemma_task_end(a: Account, class: TaskClass, exit: TaskExit)
    requires
        accounted_for(a),
    ensures
        accounted_for(Account { model: task_exited(a.model, class, exit), ..a }),
{
    let m = a.model;
    match class.owner() {
        None => {},
        Some(tx) => {
            let n = if class is TransactionCoordinator {
                coordinator_exited(m, tx, exit)
            } else {
                m
            };
            let b = Account { model: n, ..a };
            assert(accounted_for(b)) by {
                if class is TransactionCoordinator && m.rows.dom().contains(tx)
                    && m.rows[tx].terminal is None {
                    let kind = match m.rows[tx].pending_worker_proposal {
                        Some(p) => p.kind,
                        None => kind_of_exit(
                            exit,
                            m.state == RuntimeState::Quiescing,
                            m.rows[tx].cancelled,
                        ),
                    };
                    lemma_proposal(a, tx, kind, false);
                }
            }
            if !has_tasks(n, tx) {
                if tombstone_removed(n, tx) != n {
                    assert(n.rows.dom().contains(tx));
                    lemma_row_removed(b, tx);
                }
            } else if class is Finalizer {
                lemma_tasks_only(b, aborted(n, tx, Spared::Nothing));
            }
        },
    }
}

/// The start of work keeps the account.
proof fn lemma_start(a: Account, tx: TransactionId)
    requires
        accounted_for(a),
    ensures
        accounted_for(Account { model: work_started(a.model, tx), ..a }),
{
    let m = a.model;
    let n = work_started(m, tx);
    let b = Account { model: n, ..a };
    work_starts_once(m, tx);
    assert(n.rows.dom() =~= m.rows.dom());
    assert(n.finalizers == m.finalizers);
    assert forall|t: TransactionId| #[trigger]
        b.admitted.contains(t) && !n.rows.dom().contains(t) implies is_finalized(n, t) by {
        assert(is_finalized(m, t));
    }
    assert forall|t: TransactionId| #[trigger] n.rows.dom().contains(t) implies
        b.admitted.contains(t) && (n.rows[t].phase == TransactionPhase::Finalizing
        || n.rows[t].phase == TransactionPhase::CleanupPending ==> n.rows[t].terminal is Some) by {
        assert(m.rows.dom().contains(t));
    }
    if a.stopping {
        assert forall|t: TransactionId| n.rows.dom().contains(t) implies #[trigger] is_decided(
            n,
            t,
        ) by {
            assert(is_decided(m, t));
        }
    }
}

/// An admission keeps the account.
proof fn lemma_admission(a: Account, tx: TransactionId, e: LedgerEntry)
    requires
        accounted_for(a),
        can_happen(a, Step::Admission(tx, e)),
    ensures
        accounted_for(happened(a, Step::Admission(tx, e))),
{
    let m = a.model;
    let b = happened(a, Step::Admission(tx, e));
    let n = b.model;
    assert(!a.stopping);
    assert forall|t: TransactionId| #[trigger] is_decided(n, t) implies exists|i: int|
        0 <= i < n.finalizers.len() && (#[trigger] n.finalizers[i]).transaction_id == t by {
        assert(is_decided(m, t));
    }
    assert forall|i: int|
        0 <= i < n.finalizers.len() && n.rows.dom().contains(
            (#[trigger] n.finalizers[i]).transaction_id,
        ) implies n.rows[n.finalizers[i].transaction_id].terminal is Some by {
        assert(a.admitted.contains(m.finalizers[i].transaction_id));
        assert(n.finalizers[i].transaction_id != tx);
    }
    assert(finalizers_match(n));
    assert forall|t: TransactionId| #[trigger]
        b.admitted.contains(t) && !n.rows.dom().contains(t) implies is_finalized(n, t) by {
        assert(a.admitted.contains(t));
        assert(is_finalized(m, t));
    }
    assert forall|t: TransactionId| #[trigger] n.rows.dom().contains(t) implies
        b.admitted.contains(t) && (n.rows[t].phase == TransactionPhase::Finalizing
        || n.rows[t].phase == TransactionPhase::CleanupPending ==> n.rows[t].terminal is Some) by {
        if t != tx {
            assert(m.rows.dom().contains(t));
        }
    }
}

/// Whatever happens, the account is kept.
pub proof fn account_is_kept(a: Account, step: Step)
    requires
        accounted_for(a),
        can_happen(a, step),
    ensures
        accounted_for(happened(a, step)),
{
    let m = a.model;
    match step {
        Step::Admission(tx, e) => lemma_admission(a, tx, e),
        Step::Start(tx) => lemma_start(a, tx),
        Step::Proposal(tx, kind, force) => lemma_proposal(a, tx, kind, force),
        Step::TaskEnd(class, exit) => lemma_task_end(a, class, exit),
        Step::Registration(class) => lemma_tasks_only(a, registered(m, class)),
        Step::Finalization(tx) => {
            if m.rows.dom().contains(tx) {
                let i = choose|i: int|
                    0 <= i < m.finalizers.len() && (
                    #[trigger] m.finalizers[i]).transaction_id == tx;
                assert(m.rows[m.finalizers[i].transaction_id].terminal is Some);
                lemma_row_decided(a, tx, finalizing_row(m.rows[tx]));
            }
        },
        Step::Settlement(tx, kind) => {
            if m.rows.dom().contains(tx) {
                lemma_row_decided(
                    a,
                    tx,
                    LedgerEntry { terminal: Some(TerminalDecision { kind }), ..m.rows[tx] },
                );
            }
        },
        Step::Shutdown(ids, after) => lemma_shutdown(a, after, ids),
        Step::AbortAll => lemma_tasks_only(a, all_aborted(m)),
        Step::WindDown(ids, late, rest, after) => {
            lemma_residuals(a, ids);
            let b = Account { model: residuals_each(m, ids), ..a };
            lemma_idle(b, ids);
            let c = Account { model: idle_each(b.model, ids), ..a };
            if late {
                lemma_leftover(c, rest);
            }
        },
    }
}

/// The account holds at every moment of every run.
pub proof fn every_run_is_accounted_for(a: Account, steps: Seq<Step>)
    requires
        is_fresh(a),
        is_run(a, steps),
    ensures
        accounted_for(after_run(a, steps)),
    decreases steps.len(),
{
    if steps.len() == 0 {
        assert forall|tx: TransactionId| #[trigger] is_decided(a.model, tx) implies false by {
            assert(a.model.rows.dom().contains(tx));
        }
    } else {
        every_run_is_accounted_for(a, steps.drop_last());
        account_is_kept(after_run(a, steps.drop_last()), steps.last());
    }
}

/// Every admitted transaction is finalized exactly once: never twice, and once
/// its row is gone, once.
pub proof fn every_admission_is_finalized_once(
    a: Account,
    steps: Seq<Step>,
    tx: TransactionId,
    i: int,
    j: int,
)
    requires
        is_fresh(a),
        is_run(a, steps),
    ensures
        ({
            let end = after_run(a, steps);
            let started = end.model.finalizers;
            &&& end.admitted.contains(tx) && !end.model.rows.dom().contains(tx) ==> is_finalized(
                end.model,
                tx,
            )
            &&& is_finalized(end.model, tx) ==> end.admitted.contains(tx)
            &&& 0 <= i < started.len() && 0 <= j < started.len() && started[i].transaction_id
                == started[j].transaction_id ==> i == j
        }),
{
    every_run_is_accounted_for(a, steps);
    let end = after_run(a, steps);
    if is_finalized(end.model, tx) {
        let k = choose|k: int|
            0 <= k < end.model.finalizers.len() && (
            #[trigger] end.model.finalizers[k]).transaction_id == tx;
        assert(end.admitted.contains(end.model.finalizers[k].transaction_id));
    }
}

} // verus!
