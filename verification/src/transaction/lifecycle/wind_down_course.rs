//! What a lap of winding down owes: which tasks are told to stop, and which rows go.

use crate::identity::TransactionId;
use crate::transaction::lifecycle::ledger::TransactionPhase;
use crate::transaction::lifecycle::supervisor::{aborted, has_tasks, SupervisorModel};
use crate::transaction::lifecycle::supervisor_loop::{
    idle_each, leftover_each, residuals_each, wound_down,
};
use crate::transaction::lifecycle::task_supervisor::{Spared, TaskClass, TaskId};
use vstd::prelude::*;

verus! {

/// Whether a task is one of these transactions'.
pub open spec fn is_theirs(class: TaskClass, ids: Seq<TransactionId>) -> bool {
    exists|i: int| 0 <= i < ids.len() && class.owner() == Some(#[trigger] ids[i])
}

proof fn lemma_theirs(class: TaskClass, ids: Seq<TransactionId>)
    requires
        ids.len() > 0,
    ensures
        is_theirs(class, ids) <==> is_theirs(class, ids.drop_last()) || class.owner() == Some(
            ids.last(),
        ),
{
    if is_theirs(class, ids) {
        let i = choose|i: int| 0 <= i < ids.len() && class.owner() == Some(#[trigger] ids[i]);
        if i < ids.len() - 1 {
            assert(ids.drop_last()[i] == ids[i]);
        }
    }
    if is_theirs(class, ids.drop_last()) {
        let i = choose|i: int|
            0 <= i < ids.drop_last().len() && class.owner() == Some(
                #[trigger] ids.drop_last()[i],
            );
        assert(ids[i] == ids.drop_last()[i]);
    }
}

proof fn lemma_same_tasks(a: SupervisorModel, b: SupervisorModel, t: TransactionId)
    requires
        a.tasks.dom() =~= b.tasks.dom(),
        forall|id: TaskId| #[trigger]
            a.tasks.dom().contains(id) ==> b.tasks[id].class == a.tasks[id].class,
    ensures
        has_tasks(a, t) == has_tasks(b, t),
{
    if has_tasks(a, t) {
        let id = choose|id: TaskId| #[trigger]
            a.tasks.dom().contains(id) && a.tasks[id].class.owner() == Some(t);
        assert(b.tasks.dom().contains(id));
    }
    if has_tasks(b, t) {
        let id = choose|id: TaskId| #[trigger]
            b.tasks.dom().contains(id) && b.tasks[id].class.owner() == Some(t);
        assert(a.tasks.dom().contains(id));
    }
}

/// The work of every listed transaction is told to stop, but for its finalizer and
/// its publisher; no other task is, no task goes, and no row changes.
pub proof fn work_is_told_to_stop(m: SupervisorModel, ids: Seq<TransactionId>)
    ensures
        ({
            let a = residuals_each(m, ids);
            &&& a.rows == m.rows
            &&& a.pool == m.pool
            &&& a.finalizers == m.finalizers
            &&& a.tasks.dom() =~= m.tasks.dom()
            &&& forall|id: TaskId| #[trigger]
                m.tasks.dom().contains(id) ==> {
                    let class = m.tasks[id].class;
                    let told = is_theirs(class, ids) && !(class is Finalizer) && !(
                    class is EventPublisher);
                    &&& a.tasks[id].class == class
                    &&& a.tasks[id].abort_requested == (m.tasks[id].abort_requested || told)
                    &&& a.aborts.contains(id) == (m.aborts.contains(id) || told)
                }
        }),
    decreases ids.len(),
{
    if ids.len() > 0 {
        work_is_told_to_stop(m, ids.drop_last());
        let p = residuals_each(m, ids.drop_last());
        assert forall|id: TaskId| #[trigger] m.tasks.dom().contains(id) implies {
            let a = residuals_each(m, ids);
            let class = m.tasks[id].class;
            let told = is_theirs(class, ids) && !(class is Finalizer) && !(
            class is EventPublisher);
            &&& a.tasks[id].class == class
            &&& a.tasks[id].abort_requested == (m.tasks[id].abort_requested || told)
            &&& a.aborts.contains(id) == (m.aborts.contains(id) || told)
        } by {
            lemma_theirs(m.tasks[id].class, ids);
            assert(p.tasks.dom().contains(id));
        }
    }
}

/// A row without tasks goes once its terminal was told; every other row stays as it
/// is, and no task is touched.
pub proof fn idle_rows_go(m: SupervisorModel, ids: Seq<TransactionId>)
    ensures
        ({
            let a = idle_each(m, ids);
            &&& a.tasks == m.tasks
            &&& a.aborts == m.aborts
            &&& forall|t: TransactionId| #[trigger]
                a.rows.dom().contains(t) <==> m.rows.dom().contains(t) && !(ids.contains(t)
                    && !has_tasks(m, t) && (m.rows[t].phase == TransactionPhase::CleanupPending
                    || m.rows[t].phase == TransactionPhase::Finalizing))
            &&& forall|t: TransactionId| #[trigger]
                a.rows.dom().contains(t) ==> a.rows[t] == m.rows[t]
        }),
    decreases ids.len(),
{
    if ids.len() > 0 {
        idle_rows_go(m, ids.drop_last());
        let p = idle_each(m, ids.drop_last());
        let a = idle_each(m, ids);
        let x = ids.last();
        lemma_same_tasks(m, p, x);
        assert forall|t: TransactionId| #[trigger] a.rows.dom().contains(t) <==> (
        m.rows.dom().contains(t) && !(ids.contains(t) && !has_tasks(m, t) && (m.rows[t].phase
            == TransactionPhase::CleanupPending || m.rows[t].phase
            == TransactionPhase::Finalizing))) by {
            lemma_listed(ids, t);
            assert(p.rows.dom().contains(t) ==> p.rows[t] == m.rows[t]);
        }
        assert forall|t: TransactionId| #[trigger] a.rows.dom().contains(t) implies a.rows[t]
            == m.rows[t] by {
            assert(p.rows.dom().contains(t));
        }
    }
}

proof fn lemma_listed(ids: Seq<TransactionId>, t: TransactionId)
    requires
        ids.len() > 0,
    ensures
        ids.contains(t) <==> ids.drop_last().contains(t) || t == ids.last(),
{
    if ids.contains(t) {
        let i = choose|i: int| 0 <= i < ids.len() && ids[i] == t;
        if i < ids.len() - 1 {
            assert(ids.drop_last()[i] == t);
        }
    }
    if ids.drop_last().contains(t) {
        let i = choose|i: int| 0 <= i < ids.drop_last().len() && ids.drop_last()[i] == t;
        assert(ids[i] == t);
    }
    assert(ids[ids.len() - 1] == ids.last());
}

/// Out of grace a publisher is told to stop as well, a finalizer never; and every
/// listed row without tasks goes, whatever its phase.
pub proof fn leftover_rows_go(m: SupervisorModel, ids: Seq<TransactionId>)
    ensures
        ({
            let a = leftover_each(m, ids);
            &&& a.tasks.dom() =~= m.tasks.dom()
            &&& forall|id: TaskId| #[trigger]
                m.tasks.dom().contains(id) ==> {
                    let class = m.tasks[id].class;
                    let told = is_theirs(class, ids) && !(class is Finalizer);
                    &&& a.tasks[id].class == class
                    &&& a.tasks[id].abort_requested == (m.tasks[id].abort_requested || told)
                    &&& a.aborts.contains(id) == (m.aborts.contains(id) || told)
                }
            &&& forall|t: TransactionId| #[trigger]
                a.rows.dom().contains(t) <==> m.rows.dom().contains(t) && !(ids.contains(t)
                    && !has_tasks(m, t))
            &&& forall|t: TransactionId| #[trigger]
                a.rows.dom().contains(t) ==> a.rows[t] == m.rows[t]
        }),
    decreases ids.len(),
{
    if ids.len() > 0 {
        leftover_rows_go(m, ids.drop_last());
        let p = leftover_each(m, ids.drop_last());
        let a = leftover_each(m, ids);
        let x = ids.last();
        assert forall|id: TaskId| #[trigger] m.tasks.dom().contains(id) implies {
            let class = m.tasks[id].class;
            let told = is_theirs(class, ids) && !(class is Finalizer);
            &&& a.tasks[id].class == class
            &&& a.tasks[id].abort_requested == (m.tasks[id].abort_requested || told)
            &&& a.aborts.contains(id) == (m.aborts.contains(id) || told)
        } by {
            lemma_theirs(m.tasks[id].class, ids);
            assert(p.tasks.dom().contains(id));
        }
        lemma_same_tasks(m, a, x);
        let q = aborted(p, x, Spared::Finalizer);
        lemma_same_tasks(q, a, x);
        assert forall|t: TransactionId| #[trigger] a.rows.dom().contains(t) <==> (
        m.rows.dom().contains(t) && !(ids.contains(t) && !has_tasks(m, t))) by {
            lemma_listed(ids, t);
            assert(p.rows.dom().contains(t) ==> p.rows[t] == m.rows[t]);
        }
        assert forall|t: TransactionId| #[trigger] a.rows.dom().contains(t) implies a.rows[t]
            == m.rows[t] by {
            assert(p.rows.dom().contains(t));
        }
    }
}

/// After a lap a row that has tasks is there as it was; one without is gone where
/// its terminal was told, and in any case once the grace is over. Every coordinator
/// and tool of a row was told to stop, and no finalizer was.
pub proof fn lap_takes_what_is_over(
    m: SupervisorModel,
    after: SupervisorModel,
    ids: Seq<TransactionId>,
    late: bool,
    rest: Seq<TransactionId>,
    t: TransactionId,
    id: TaskId,
)
    requires
        wound_down(m, after, ids, late, rest),
        m.rows.dom().contains(t),
        m.tasks.dom().contains(id),
        m.tasks[id].class.owner() == Some(t),
    ensures
        after.rows.dom().contains(t) && after.rows[t] == m.rows[t],
        after.tasks.dom() =~= m.tasks.dom(),
        !(m.tasks[id].class is Finalizer) && !(m.tasks[id].class is EventPublisher)
            ==> after.tasks[id].abort_requested && after.aborts.contains(id),
        m.tasks[id].class is EventPublisher && late ==> after.tasks[id].abort_requested,
        m.tasks[id].class is EventPublisher && !late ==> after.tasks[id] == m.tasks[id],
        m.tasks[id].class is Finalizer ==> after.tasks[id] == m.tasks[id],
{
    let a = residuals_each(m, ids);
    let b = idle_each(a, ids);
    work_is_told_to_stop(m, ids);
    idle_rows_go(a, ids);
    leftover_rows_go(b, rest);
    lemma_same_tasks(m, a, t);
    lemma_same_tasks(a, b, t);
    assert(ids.contains(t));
    let i = choose|i: int| 0 <= i < ids.len() && ids[i] == t;
    assert(is_theirs(m.tasks[id].class, ids)) by {
        assert(m.tasks[id].class.owner() == Some(ids[i]));
    }
    assert(b.rows.dom().contains(t));
    assert(b.tasks.dom().contains(id));
    assert(rest.contains(t));
    let j = choose|j: int| 0 <= j < rest.len() && rest[j] == t;
    assert(is_theirs(m.tasks[id].class, rest)) by {
        assert(m.tasks[id].class.owner() == Some(rest[j]));
    }
    if late {
        assert(after.rows.dom().contains(t));
    }
}

/// A row without tasks is gone after a lap exactly where its terminal was told or
/// the grace is over.
pub proof fn lap_leaves_what_is_owed(
    m: SupervisorModel,
    after: SupervisorModel,
    ids: Seq<TransactionId>,
    late: bool,
    rest: Seq<TransactionId>,
    t: TransactionId,
)
    requires
        wound_down(m, after, ids, late, rest),
        !has_tasks(m, t),
    ensures
        after.rows.dom().contains(t) <==> m.rows.dom().contains(t) && !late && m.rows[t].phase
            != TransactionPhase::CleanupPending && m.rows[t].phase != TransactionPhase::Finalizing,
        after.rows.dom().contains(t) ==> after.rows[t] == m.rows[t],
{
    let a = residuals_each(m, ids);
    let b = idle_each(a, ids);
    work_is_told_to_stop(m, ids);
    idle_rows_go(a, ids);
    leftover_rows_go(b, rest);
    lemma_same_tasks(m, a, t);
    lemma_same_tasks(a, b, t);
    assert(m.rows.dom().contains(t) <==> ids.contains(t));
    assert(b.rows.dom().contains(t) <==> rest.contains(t));
}

} // verus!
