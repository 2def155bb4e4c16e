//! What holds of everything the supervisor does.

use crate::identity::TransactionId;
use crate::transaction::lifecycle::ledger::{LedgerEntry, TransactionPhase};
use crate::transaction::lifecycle::shared::RuntimeState;
use crate::transaction::lifecycle::supervisor::{
    aborted, accepted, closed_admission, coordinator_exited, decided, has_tasks, shut_down_each,
    shut_down_one, shutdown_began, task_exited, work_started, SupervisorModel,
};
use crate::transaction::lifecycle::task_supervisor::{Spared, TaskClass, TaskExit, TaskId};
use crate::transaction::lifecycle::terminal::TerminalDecision;
use crate::transaction::types::TransactionEndKind;
use vstd::prelude::*;

verus! {

/// Whether a transaction has a row with a terminal.
pub open spec fn is_decided(m: SupervisorModel, tx: TransactionId) -> bool {
    m.rows.dom().contains(tx) && m.rows[tx].terminal is Some
}

/// Each decided transaction got exactly one finalizer, and no other got one.
pub open spec fn finalizers_match(m: SupervisorModel) -> bool {
    &&& forall|i: int, j: int|
        0 <= i < m.finalizers.len() && 0 <= j < m.finalizers.len() && i != j
            ==> (#[trigger] m.finalizers[i]).transaction_id != (
        #[trigger] m.finalizers[j]).transaction_id
    &&& forall|i: int|
        0 <= i < m.finalizers.len() && m.rows.dom().contains(
            (#[trigger] m.finalizers[i]).transaction_id,
        ) ==> m.rows[m.finalizers[i].transaction_id].terminal is Some
    &&& forall|tx: TransactionId| #[trigger]
        is_decided(m, tx) ==> exists|i: int|
            0 <= i < m.finalizers.len() && (#[trigger] m.finalizers[i]).transaction_id == tx
}

/// The first proposal decides. Afterwards only a forced termination changes
/// the decision, and only a cancellation to a termination.
pub proof fn first_terminal_wins(
    e: LedgerEntry,
    kind: TransactionEndKind,
    force: bool,
    decision: TerminalDecision,
)
    ensures
        e.terminal is None ==> decided(e, kind, force).terminal == Some(TerminalDecision { kind }),
        e.terminal == Some(decision) ==> decided(e, kind, force).terminal == (if force
            && decision.kind == TransactionEndKind::Cancelled && kind
            == TransactionEndKind::Terminated {
            Some(TerminalDecision { kind: TransactionEndKind::Terminated })
        } else {
            Some(decision)
        }),
{
}

/// A termination is final: no later proposal changes it.
pub proof fn termination_is_final(e: LedgerEntry, kind: TransactionEndKind, force: bool)
    requires
        e.terminal == Some(TerminalDecision { kind: TransactionEndKind::Terminated }),
    ensures
        decided(e, kind, force).terminal == e.terminal,
{
}

/// A proposal keeps one finalizer for each decided transaction.
pub proof fn proposal_keeps_one_finalizer(
    m: SupervisorModel,
    tx: TransactionId,
    kind: TransactionEndKind,
    force: bool,
)
    requires
        finalizers_match(m),
    ensures
        finalizers_match(accepted(m, tx, kind, force)),
        m.rows.dom().contains(tx) ==> is_decided(accepted(m, tx, kind, force), tx),
        forall|t: TransactionId| #[trigger]
            m.rows.dom().contains(t) && t != tx ==> accepted(m, tx, kind, force).rows[t]
                == m.rows[t],
        accepted(m, tx, kind, force).rows.dom() =~= m.rows.dom(),
{
    let a = accepted(m, tx, kind, force);
    if m.rows.dom().contains(tx) {
        if m.rows[tx].terminal is None {
            let n = m.finalizers.len() as int;
            assert(a.finalizers[n].transaction_id == tx);
            assert forall|i: int| 0 <= i < n implies (
            #[trigger] m.finalizers[i]).transaction_id != tx by {}
            assert forall|t: TransactionId| #[trigger] is_decided(a, t) implies exists|i: int|
                0 <= i < a.finalizers.len() && (#[trigger] a.finalizers[i]).transaction_id == t by {
                if t == tx {
                    assert(a.finalizers[n].transaction_id == tx);
                } else {
                    assert(is_decided(m, t));
                    let i = choose|i: int|
                        0 <= i < m.finalizers.len() && (
                        #[trigger] m.finalizers[i]).transaction_id == t;
                    assert(a.finalizers[i].transaction_id == t);
                }
            }
        } else {
            assert forall|t: TransactionId| #[trigger] is_decided(a, t) implies is_decided(m, t) by {}
        }
    }
}

/// The end of a task keeps one finalizer for each decided transaction.
pub proof fn task_exit_keeps_one_finalizer(m: SupervisorModel, class: TaskClass, exit: TaskExit)
    requires
        finalizers_match(m),
    ensures
        finalizers_match(task_exited(m, class, exit)),
{
    match class.owner() {
        None => {},
        Some(tx) => {
            let a = if class is TransactionCoordinator {
                coordinator_exited(m, tx, exit)
            } else {
                m
            };
            assert(finalizers_match(a)) by {
                if class is TransactionCoordinator && m.rows.dom().contains(tx)
                    && m.rows[tx].terminal is None {
                    let kind = match m.rows[tx].pending_worker_proposal {
                        Some(p) => p.kind,
                        None => crate::transaction::lifecycle::supervisor::kind_of_exit(
                            exit,
                            m.state == RuntimeState::Quiescing,
                            m.rows[tx].cancelled,
                        ),
                    };
                    proposal_keeps_one_finalizer(m, tx, kind, false);
                }
            }
            let b = task_exited(m, class, exit);
            assert(b.finalizers == a.finalizers);
            assert forall|t: TransactionId| #[trigger] is_decided(b, t) implies is_decided(a, t) by {}
        },
    }
}

/// The end of a coordinator leaves no admitted transaction without a terminal.
pub proof fn lost_coordinator_is_decided(m: SupervisorModel, tx: TransactionId, exit: TaskExit)
    requires
        m.rows.dom().contains(tx),
    ensures
        is_decided(coordinator_exited(m, tx, exit), tx),
        m.rows[tx].terminal is None && m.rows[tx].pending_worker_proposal is None && exit
            == TaskExit::Panicked ==> coordinator_exited(m, tx, exit).rows[tx].terminal == Some(
            TerminalDecision { kind: TransactionEndKind::InvariantFailed },
        ),
{
}

/// A row goes only when no task of its transaction is left and its terminal is
/// being or was published.
pub proof fn row_outlives_its_tasks(
    m: SupervisorModel,
    class: TaskClass,
    exit: TaskExit,
    tx: TransactionId,
)
    requires
        m.rows.dom().contains(tx),
        !task_exited(m, class, exit).rows.dom().contains(tx),
    ensures
        class.owner() == Some(tx),
        !has_tasks(task_exited(m, class, exit), tx),
        is_decided(m, tx) || class is TransactionCoordinator || m.rows[tx].phase
            == TransactionPhase::Finalizing || m.rows[tx].phase
            == TransactionPhase::CleanupPending,
{
    let owner = class.owner()->0;
    let a = if class is TransactionCoordinator {
        coordinator_exited(m, owner, exit)
    } else {
        m
    };
    assert(a.rows.dom().contains(tx));
    assert(!has_tasks(a, owner));
    let b = task_exited(m, class, exit);
    assert(b.tasks == a.tasks);
    if has_tasks(b, tx) {
        let id = choose|id: TaskId| #[trigger]
            b.tasks.dom().contains(id) && b.tasks[id].class.owner() == Some(tx);
        assert(a.tasks.dom().contains(id));
    }
}

/// Started work belongs to a queued row, which then is running; nothing starts twice.
pub proof fn work_starts_once(m: SupervisorModel, tx: TransactionId)
    ensures
        work_started(work_started(m, tx), tx) == work_started(m, tx),
        finalizers_match(m) ==> finalizers_match(work_started(m, tx)),
{
    let a = work_started(m, tx);
    assert forall|t: TransactionId| #[trigger] is_decided(a, t) implies is_decided(m, t) by {}
    if finalizers_match(m) {
        assert forall|t: TransactionId| #[trigger] is_decided(a, t) implies exists|i: int|
            0 <= i < a.finalizers.len() && (#[trigger] a.finalizers[i]).transaction_id == t by {
            assert(is_decided(m, t));
        }
    }
}

proof fn lemma_shut_down_one(m: SupervisorModel, tx: TransactionId)
    ensures
        ({
            let a = shut_down_one(m, tx);
            &&& a.rows.dom() =~= m.rows.dom()
            &&& a.state == m.state
            &&& m.rows.dom().contains(tx) ==> is_decided(a, tx)
            &&& forall|t: TransactionId| #[trigger]
                is_decided(m, t) ==> is_decided(a, t) && a.rows[t].terminal == m.rows[t].terminal
            &&& finalizers_match(m) ==> finalizers_match(a)
            &&& is_decided(m, tx) ==> a.finalizers == m.finalizers
        }),
{
    let a = shut_down_one(m, tx);
    if m.rows.dom().contains(tx) && m.rows[tx].terminal is None {
        let c = SupervisorModel { counters: a.counters, ..m };
        assert(a == accepted(c, tx, TransactionEndKind::RuntimeShutdown, false));
        if finalizers_match(m) {
            assert(finalizers_match(c)) by {
                assert forall|t: TransactionId| #[trigger] is_decided(c, t) implies exists|i: int|
                    0 <= i < c.finalizers.len() && (
                    #[trigger] c.finalizers[i]).transaction_id == t by {
                    assert(is_decided(m, t));
                }
            }
            proposal_keeps_one_finalizer(c, tx, TransactionEndKind::RuntimeShutdown, false);
        }
    } else if m.rows.dom().contains(tx) {
        assert forall|t: TransactionId| #[trigger] is_decided(a, t) implies is_decided(m, t) by {}
        if finalizers_match(m) {
            assert forall|t: TransactionId| #[trigger] is_decided(a, t) implies exists|i: int|
                0 <= i < a.finalizers.len() && (#[trigger] a.finalizers[i]).transaction_id == t by {
                assert(is_decided(m, t));
                let i = choose|i: int|
                    0 <= i < m.finalizers.len() && (
                    #[trigger] m.finalizers[i]).transaction_id == t;
                assert(a.finalizers[i].transaction_id == t);
            }
        }
    }
}

proof fn lemma_shut_down_each(m: SupervisorModel, ids: Seq<TransactionId>)
    ensures
        ({
            let a = shut_down_each(m, ids);
            &&& a.rows.dom() =~= m.rows.dom()
            &&& a.state == m.state
            &&& forall|t: TransactionId|
                ids.contains(t) && m.rows.dom().contains(t) ==> #[trigger] is_decided(a, t)
            &&& forall|t: TransactionId| #[trigger]
                is_decided(m, t) ==> is_decided(a, t) && a.rows[t].terminal == m.rows[t].terminal
            &&& finalizers_match(m) ==> finalizers_match(a)
            &&& (forall|t: TransactionId|
                m.rows.dom().contains(t) ==> #[trigger] is_decided(m, t)) ==> a.finalizers
                == m.finalizers
        }),
    decreases ids.len(),
{
    if ids.len() > 0 {
        let p = shut_down_each(m, ids.drop_last());
        lemma_shut_down_each(m, ids.drop_last());
        lemma_shut_down_one(p, ids.last());
        let a = shut_down_each(m, ids);
        assert forall|t: TransactionId| ids.contains(t) && m.rows.dom().contains(t) implies
            #[trigger] is_decided(a, t) by {
            let i = choose|i: int| 0 <= i < ids.len() && ids[i] == t;
            if i < ids.len() - 1 {
                assert(ids.drop_last()[i] == t);
                assert(is_decided(p, t));
            }
        }
        assert forall|t: TransactionId| #[trigger] is_decided(m, t) implies is_decided(a, t)
            && a.rows[t].terminal == m.rows[t].terminal by {
            assert(is_decided(p, t));
        }
        if forall|t: TransactionId| m.rows.dom().contains(t) ==> #[trigger] is_decided(m, t) {
            if m.rows.dom().contains(ids.last()) {
                assert(is_decided(m, ids.last()));
                assert(is_decided(p, ids.last()));
            }
        }
    }
}

/// Once shutdown began, admission is closed, every admitted transaction has a
/// terminal, and those that had one keep it.
pub proof fn shutdown_decides_every_transaction(
    m: SupervisorModel,
    after: SupervisorModel,
    ids: Seq<TransactionId>,
)
    requires
        shutdown_began(m, after, ids),
    ensures
        after.state != RuntimeState::Accepting,
        after.state != RuntimeState::Starting,
        after.rows.dom() =~= m.rows.dom(),
        forall|t: TransactionId| m.rows.dom().contains(t) ==> #[trigger] is_decided(after, t),
        forall|t: TransactionId| #[trigger]
            is_decided(m, t) ==> after.rows[t].terminal == m.rows[t].terminal,
        finalizers_match(m) ==> finalizers_match(after),
{
    let c = closed_admission(m);
    lemma_shut_down_each(c, ids);
    assert forall|t: TransactionId| m.rows.dom().contains(t) implies #[trigger] is_decided(
        after,
        t,
    ) by {
        assert(ids.contains(t));
    }
    assert forall|t: TransactionId| #[trigger] is_decided(m, t) implies after.rows[t].terminal
        == m.rows[t].terminal by {
        assert(is_decided(c, t));
    }
    if finalizers_match(m) {
        assert forall|t: TransactionId| #[trigger] is_decided(c, t) implies exists|i: int|
            0 <= i < c.finalizers.len() && (#[trigger] c.finalizers[i]).transaction_id == t by {
            assert(is_decided(m, t));
        }
        assert(finalizers_match(c));
    }
}

/// A shutdown that is begun again decides nothing anew and starts no finalizer.
pub proof fn shutdown_is_idempotent(
    m: SupervisorModel,
    once: SupervisorModel,
    twice: SupervisorModel,
    ids: Seq<TransactionId>,
    again: Seq<TransactionId>,
)
    requires
        shutdown_began(m, once, ids),
        shutdown_began(once, twice, again),
    ensures
        twice.state == once.state,
        twice.finalizers == once.finalizers,
        twice.rows.dom() =~= once.rows.dom(),
        forall|t: TransactionId| #[trigger]
            once.rows.dom().contains(t) ==> twice.rows[t].terminal == once.rows[t].terminal,
{
    shutdown_decides_every_transaction(m, once, ids);
    let c = closed_admission(once);
    lemma_shut_down_each(c, again);
    assert forall|t: TransactionId| c.rows.dom().contains(t) implies #[trigger] is_decided(c, t) by {
        assert(is_decided(once, t));
    }
    assert forall|t: TransactionId| #[trigger] once.rows.dom().contains(t) implies
        twice.rows[t].terminal == once.rows[t].terminal by {
        assert(is_decided(c, t));
    }
}

/// Aborting what is left of a transaction never touches a finalizer.
pub proof fn residual_abort_spares_finalizers(
    m: SupervisorModel,
    tx: TransactionId,
    spared: Spared,
    id: TaskId,
)
    requires
        spared != Spared::Nothing,
        m.tasks.dom().contains(id),
        m.tasks[id].class is Finalizer,
    ensures
        aborted(m, tx, spared).tasks[id] == m.tasks[id],
        aborted(m, tx, spared).aborts.contains(id) == m.aborts.contains(id),
{
}

} // verus!
