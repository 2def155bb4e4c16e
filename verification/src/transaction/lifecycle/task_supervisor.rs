//! Books of every task that the runtime owns.
//!
//! A task is registered before it may start. A request to abort it leaves it
//! registered; only its observed end takes it out.

use crate::assoc::{AssocMap, Key};
use crate::identity::{ExchangeId, ToolExecutionId, TransactionId};
use vstd::prelude::*;

verus! {

/// Stable task id within one runtime owner.
#[derive(Clone, Copy, Debug, PartialEq, Eq, Hash, Structural)]
pub struct TaskId(pub u64);

impl View for TaskId {
    type V = TaskId;

    open spec fn view(&self) -> TaskId {
        *self
    }
}

impl Key for TaskId {
    fn same(&self, other: &Self) -> (r: bool) {
        *self == *other
    }
}

/// Classification for every supervised task.
#[derive(Clone, Copy, Debug, PartialEq, Eq, Structural)]
pub enum TaskClass {
    /// Per-transaction coordinator.
    TransactionCoordinator(TransactionId),
    /// Event publisher task for one transaction.
    EventPublisher(TransactionId),
    /// Connector ownership task.
    ConnectorOwner(TransactionId, ExchangeId),
    /// Interpreter pump task.
    InterpreterOwner(TransactionId, ExchangeId),
    /// Tool worker.
    ToolWorker(TransactionId, ToolExecutionId),
    /// Tool loop over one exchange.
    LoopRuntime(TransactionId),
    /// Publisher of the terminal event and the completion.
    Finalizer(TransactionId),
    /// MCP request task.
    McpRequest(TransactionId),
    /// Runtime-wide service (MCP listener, etc.).
    RuntimeService,
}

impl TaskClass {
    /// Owning transaction when task-scoped.
    pub open spec fn owner(self) -> Option<TransactionId> {
        match self {
            TaskClass::TransactionCoordinator(t) => Some(t),
            TaskClass::EventPublisher(t) => Some(t),
            TaskClass::ConnectorOwner(t, _) => Some(t),
            TaskClass::InterpreterOwner(t, _) => Some(t),
            TaskClass::ToolWorker(t, _) => Some(t),
            TaskClass::LoopRuntime(t) => Some(t),
            TaskClass::Finalizer(t) => Some(t),
            TaskClass::McpRequest(t) => Some(t),
            TaskClass::RuntimeService => None,
        }
    }

    /// Owning transaction when task-scoped.
    pub fn transaction_id(&self) -> (r: Option<TransactionId>)
        ensures
            r == self.owner(),
    {
        match *self {
            TaskClass::TransactionCoordinator(t) => Some(t),
            TaskClass::EventPublisher(t) => Some(t),
            TaskClass::ConnectorOwner(t, _) => Some(t),
            TaskClass::InterpreterOwner(t, _) => Some(t),
            TaskClass::ToolWorker(t, _) => Some(t),
            TaskClass::LoopRuntime(t) => Some(t),
            TaskClass::Finalizer(t) => Some(t),
            TaskClass::McpRequest(t) => Some(t),
            TaskClass::RuntimeService => None,
        }
    }
}

/// Observed task exit kind.
#[derive(Clone, Copy, Debug, PartialEq, Eq, Structural)]
pub enum TaskExit {
    /// Task ran to its end.
    Completed,
    /// Task was aborted / cancelled.
    Cancelled,
    /// Task panicked.
    Panicked,
}

/// What is known of a registered task.
#[derive(Clone, Copy, Debug, PartialEq, Eq, Structural)]
pub struct TaskMeta {
    /// Class.
    pub class: TaskClass,
    /// Whether its abort was requested.
    pub abort_requested: bool,
}

/// Which tasks of a transaction an abort leaves alone.
#[derive(Clone, Copy, Debug, PartialEq, Eq, Structural)]
pub enum Spared {
    /// None.
    Nothing,
    /// The finalizer, which owes the one completion.
    Finalizer,
    /// The finalizer and the publisher that it seals.
    FinalizerAndPublisher,
}

/// Whether an abort of a transaction's tasks concerns a class.
pub open spec fn concerned(class: TaskClass, tx: TransactionId, spared: Spared) -> bool {
    &&& class.owner() == Some(tx)
    &&& !(class is Finalizer && spared != Spared::Nothing)
    &&& !(class is EventPublisher && spared == Spared::FinalizerAndPublisher)
}

/// Ids of the tasks of a transaction.
pub open spec fn tasks_of(meta: Map<TaskId, TaskMeta>, tx: TransactionId) -> Set<TaskId> {
    Set::new(|id: TaskId| meta.dom().contains(id) && meta[id].class.owner() == Some(tx))
}

/// The books after the abort of every task that satisfies a predicate.
pub open spec fn aborted_where(
    meta: Map<TaskId, TaskMeta>,
    p: spec_fn(TaskClass) -> bool,
) -> Map<TaskId, TaskMeta> {
    Map::new(
        |id: TaskId| meta.dom().contains(id),
        |id: TaskId|
            if p(meta[id].class) {
                TaskMeta { abort_requested: true, ..meta[id] }
            } else {
                meta[id]
            },
    )
}

/// Whether a list holds exactly the tasks that satisfy a predicate.
pub open spec fn lists_where(
    ids: Seq<TaskId>,
    meta: Map<TaskId, TaskMeta>,
    p: spec_fn(TaskClass) -> bool,
) -> bool {
    &&& ids.no_duplicates()
    &&& forall|id: TaskId|
        #[trigger] ids.contains(id) <==> meta.dom().contains(id) && p(meta[id].class)
}

/// How a joined task's exit counts: one that was to be aborted but ran to its
/// end counts as cancelled.
pub open spec fn joined_exit(
    meta: Map<TaskId, TaskMeta>,
    id: TaskId,
    exit: TaskExit,
) -> TaskExit {
    if meta.dom().contains(id) && meta[id].abort_requested && exit == TaskExit::Completed {
        TaskExit::Cancelled
    } else {
        exit
    }
}

/// Keeps every task until its end is observed.
pub struct TaskSupervisor {
    meta: AssocMap<TaskId, TaskMeta>,
    next_id: u64,
}

impl View for TaskSupervisor {
    type V = Map<TaskId, TaskMeta>;

    closed spec fn view(&self) -> Map<TaskId, TaskMeta> {
        self.meta@
    }
}

impl TaskSupervisor {
    /// Internal consistency.
    pub closed spec fn wf(&self) -> bool {
        &&& self.meta.wf()
        &&& self.next_id >= 1
        &&& forall|id: TaskId| #[trigger]
            self.meta@.dom().contains(id) ==> id.0 < self.next_id || self.next_id == u64::MAX
    }

    /// The id that the next task gets.
    pub closed spec fn next(&self) -> u64 {
        self.next_id
    }

    /// Empty supervisor.
    pub fn new() -> (r: Self)
        ensures
            r.wf(),
            r@ == Map::<TaskId, TaskMeta>::empty(),
            r.next() == 1,
    {
        TaskSupervisor { meta: AssocMap::new(), next_id: 1 }
    }

    /// While ids last, the next one is not in use.
    pub proof fn next_is_fresh(&self)
        requires
            self.wf(),
        ensures
            self@.dom().finite(),
            self.next() < u64::MAX ==> !self@.dom().contains(TaskId(self.next())),
    {
        self.meta.lemma_order();
    }

    /// Number of tasks still registered (including abort-requested).
    pub fn registered_count(&self) -> (r: usize)
        requires
            self.wf(),
        ensures
            r == self@.dom().len(),
    {
        self.meta.len()
    }

    /// Whether no task is owned; `joins_empty` says that no join is outstanding.
    pub fn is_empty(&self, joins_empty: bool) -> (r: bool)
        requires
            self.wf(),
        ensures
            r == (self@.dom().len() == 0 && joins_empty),
    {
        self.meta.len() == 0 && joins_empty
    }

    fn ids_where(&self, tx: Option<TransactionId>, spared: Spared) -> (r: Vec<TaskId>)
        requires
            self.wf(),
        ensures
            tx is Some ==> lists_where(r@, self@, |c: TaskClass| concerned(c, tx->0, spared)),
            tx is None ==> lists_where(r@, self@, |c: TaskClass| true),
    {
        proof {
            self.meta.lemma_order();
        }
        let ghost order = self.meta.order();
        let ghost p = |c: TaskClass| tx is None || concerned(c, tx->0, spared);
        let mut out: Vec<TaskId> = Vec::new();
        let mut i: usize = 0;
        while i < self.meta.count()
            invariant
                order == self.meta.order(),
                i <= order.len(),
                crate::assoc::distinct_keys(order),
                p == (|c: TaskClass| tx is None || concerned(c, tx->0, spared)),
                out@.no_duplicates(),
                forall|id: TaskId| #[trigger]
                    out@.contains(id) <==> exists|j: int|
                        0 <= j < i && (#[trigger] order[j]).0 == id && p(order[j].1.class),
            decreases order.len() - i,
        {
            let e = self.meta.at(i);
            let class = e.1.class;
            let wanted: bool = match tx {
                None => true,
                Some(tx) => {
                    let own: bool = match class.transaction_id() {
                        Some(t) => t == tx,
                        None => false,
                    };
                    own && !(matches!(class, TaskClass::Finalizer(_)) && spared != Spared::Nothing)
                        && !(matches!(class, TaskClass::EventPublisher(_)) && spared
                        == Spared::FinalizerAndPublisher)
                },
            };
            let ghost before = out@;
            if wanted {
                assert(!before.contains(order[i as int].0)) by {
                    if before.contains(order[i as int].0) {
                        let j = choose|j: int|
                            0 <= j < i && (#[trigger] order[j]).0 == order[i as int].0 && p(
                                order[j].1.class,
                            );
                        assert(order[j].0@ != order[i as int].0@);
                    }
                }
                out.push(e.0);
            }
            assert forall|id: TaskId| #[trigger] out@.contains(id) <==> exists|j: int|
                0 <= j < i + 1 && (#[trigger] order[j]).0 == id && p(order[j].1.class) by {
                if out@.contains(id) {
                    if before.contains(id) {
                        let j = choose|j: int|
                            0 <= j < i && (#[trigger] order[j]).0 == id && p(order[j].1.class);
                        assert(order[j].0 == id);
                    } else {
                        let k = choose|k: int| 0 <= k < out@.len() && out@[k] == id;
                        assert(order[i as int].0 == id);
                    }
                }
                if exists|j: int|
                    0 <= j < i + 1 && (#[trigger] order[j]).0 == id && p(order[j].1.class) {
                    let j = choose|j: int|
                        0 <= j < i + 1 && (#[trigger] order[j]).0 == id && p(order[j].1.class);
                    if j < i {
                        assert(before.contains(id));
                        let k = choose|k: int| 0 <= k < before.len() && before[k] == id;
                        assert(out@[k] == id);
                    } else {
                        assert(out@[out@.len() - 1] == id);
                    }
                }
            }
            i = i + 1;
        }
        proof {
            assert forall|id: TaskId| #[trigger] out@.contains(id) <==> self@.dom().contains(id)
                && p(self@[id].class) by {
                if out@.contains(id) {
                    let j = choose|j: int|
                        0 <= j < order.len() && (#[trigger] order[j]).0 == id && p(
                            order[j].1.class,
                        );
                    assert(order[j].0@ == id);
                }
                if self@.dom().contains(id) && p(self@[id].class) {
                    let j = choose|j: int| 0 <= j < order.len() && (#[trigger] order[j]).0@ == id;
                    assert(order[j].0 == id);
                }
            }
        }
        out
    }

    /// Tasks still associated with a transaction.
    pub fn tasks_for(&self, tx: &TransactionId) -> (r: Vec<TaskId>)
        requires
            self.wf(),
        ensures
            r@.no_duplicates(),
            r@.to_set() =~= tasks_of(self@, *tx),
    {
        self.ids_where(Some(*tx), Spared::Nothing)
    }

    /// Registers a task. It may start only after this.
    pub fn spawn(&mut self, class: TaskClass) -> (r: TaskId)
        requires
            old(self).wf(),
        ensures
            final(self).wf(),
            r == TaskId(old(self).next()),
            final(self).next() == (if old(self).next() == u64::MAX {
                u64::MAX
            } else {
                (old(self).next() + 1) as u64
            }),
            final(self)@ == old(self)@.insert(r, TaskMeta { class, abort_requested: false }),
    {
        let id = TaskId(self.next_id);
        self.next_id = self.next_id.saturating_add(1);
        self.meta.insert(id, TaskMeta { class, abort_requested: false });
        id
    }

    /// Requests the abort of a task; answers whether there is one. It stays
    /// registered until its end is observed.
    pub fn abort(&mut self, id: TaskId) -> (r: bool)
        requires
            old(self).wf(),
        ensures
            final(self).wf(),
            final(self).next() == old(self).next(),
            r == old(self)@.dom().contains(id),
            r ==> final(self)@ == old(self)@.insert(
                id,
                TaskMeta { abort_requested: true, ..old(self)@[id] },
            ),
            !r ==> final(self)@ == old(self)@,
    {
        match self.meta.get_mut(&id) {
            Some(meta) => {
                meta.abort_requested = true;
                true
            },
            None => false,
        }
    }

    fn abort_each(&mut self, ids: &Vec<TaskId>, Ghost(p): Ghost<spec_fn(TaskClass) -> bool>)
        requires
            old(self).wf(),
            lists_where(ids@, old(self)@, p),
        ensures
            final(self).wf(),
            final(self).next() == old(self).next(),
            final(self)@ == aborted_where(old(self)@, p),
    {
        let ghost before = self@;
        let mut i: usize = 0;
        while i < ids.len()
            invariant
                i <= ids.len(),
                self.wf(),
                self.next() == old(self).next(),
                before == old(self)@,
                lists_where(ids@, before, p),
                self@.dom() == before.dom(),
                forall|id: TaskId| #[trigger]
                    before.dom().contains(id) ==> self@[id] == (if ids@.take(i as int).contains(
                        id,
                    ) {
                        TaskMeta { abort_requested: true, ..before[id] }
                    } else {
                        before[id]
                    }),
            decreases ids.len() - i,
        {
            let id = ids[i];
            let ghost now = self@;
            assert(ids@.contains(id));
            let _known = self.abort(id);
            proof {
                assert(self@.dom() =~= before.dom());
                let a = ids@.take(i as int);
                let b = ids@.take(i as int + 1);
                assert(b =~= a.push(id));
                assert forall|x: TaskId| #[trigger] before.dom().contains(x) implies self@[x] == (
                if b.contains(x) {
                    TaskMeta { abort_requested: true, ..before[x] }
                } else {
                    before[x]
                }) by {
                    if x == id {
                        assert(b[i as int] == id);
                    } else {
                        if a.contains(x) {
                            let k = choose|k: int| 0 <= k < a.len() && a[k] == x;
                            assert(b[k] == x);
                        }
                        if b.contains(x) {
                            let k = choose|k: int| 0 <= k < b.len() && b[k] == x;
                            assert(a[k] == x);
                        }
                    }
                }
            }
            i = i + 1;
        }
        proof {
            assert(ids@.take(i as int) =~= ids@);
            assert(self@ =~= aborted_where(before, p));
        }
    }

    /// Requests the abort of a transaction's tasks, but for those spared;
    /// answers which they are.
    pub fn abort_transaction_sparing(&mut self, tx: &TransactionId, spared: Spared) -> (r: Vec<
        TaskId,
    >)
        requires
            old(self).wf(),
        ensures
            final(self).wf(),
            final(self).next() == old(self).next(),
            lists_where(r@, old(self)@, |c: TaskClass| concerned(c, *tx, spared)),
            final(self)@ == aborted_where(
                old(self)@,
                |c: TaskClass| concerned(c, *tx, spared),
            ),
    {
        let ids = self.ids_where(Some(*tx), spared);
        self.abort_each(&ids, Ghost(|c: TaskClass| concerned(c, *tx, spared)));
        ids
    }

    /// Abort all tasks for a transaction.
    pub fn abort_transaction(&mut self, tx: &TransactionId) -> (r: Vec<TaskId>)
        requires
            old(self).wf(),
        ensures
            final(self).wf(),
            final(self).next() == old(self).next(),
            lists_where(r@, old(self)@, |c: TaskClass| concerned(c, *tx, Spared::Nothing)),
            final(self)@ == aborted_where(
                old(self)@,
                |c: TaskClass| concerned(c, *tx, Spared::Nothing),
            ),
    {
        self.abort_transaction_sparing(tx, Spared::Nothing)
    }

    /// Abort what is left of a transaction's work, but for its finalizer and publisher.
    pub fn abort_transaction_residuals(&mut self, tx: &TransactionId) -> (r: Vec<TaskId>)
        requires
            old(self).wf(),
        ensures
            final(self).wf(),
            final(self).next() == old(self).next(),
            lists_where(
                r@,
                old(self)@,
                |c: TaskClass| concerned(c, *tx, Spared::FinalizerAndPublisher),
            ),
            final(self)@ == aborted_where(
                old(self)@,
                |c: TaskClass| concerned(c, *tx, Spared::FinalizerAndPublisher),
            ),
    {
        self.abort_transaction_sparing(tx, Spared::FinalizerAndPublisher)
    }

    /// Abort a transaction's tasks, but for its finalizer.
    pub fn abort_transaction_except_finalizer(&mut self, tx: &TransactionId) -> (r: Vec<TaskId>)
        requires
            old(self).wf(),
        ensures
            final(self).wf(),
            final(self).next() == old(self).next(),
            lists_where(r@, old(self)@, |c: TaskClass| concerned(c, *tx, Spared::Finalizer)),
            final(self)@ == aborted_where(
                old(self)@,
                |c: TaskClass| concerned(c, *tx, Spared::Finalizer),
            ),
    {
        self.abort_transaction_sparing(tx, Spared::Finalizer)
    }

    /// Abort every registered task (shutdown).
    pub fn abort_all(&mut self) -> (r: Vec<TaskId>)
        requires
            old(self).wf(),
        ensures
            final(self).wf(),
            final(self).next() == old(self).next(),
            lists_where(r@, old(self)@, |c: TaskClass| true),
            final(self)@ == aborted_where(old(self)@, |c: TaskClass| true),
    {
        let ids = self.ids_where(None, Spared::Nothing);
        self.abort_each(&ids, Ghost(|c: TaskClass| true));
        ids
    }

    /// Takes a task out of the books.
    pub fn deregister(&mut self, id: TaskId) -> (r: Option<TaskClass>)
        requires
            old(self).wf(),
        ensures
            final(self).wf(),
            final(self).next() == old(self).next(),
            final(self)@ == old(self)@.remove(id),
            r == (if old(self)@.dom().contains(id) {
                Some(old(self)@[id].class)
            } else {
                None
            }),
    {
        match self.meta.remove(&id) {
            Some(meta) => Some(meta.class),
            None => None,
        }
    }

    /// A joined task reported its exit.
    pub fn join_next(&mut self, id: TaskId, exit: TaskExit) -> (r: Option<
        (TaskId, TaskClass, TaskExit),
    >)
        requires
            old(self).wf(),
        ensures
            final(self).wf(),
            final(self).next() == old(self).next(),
            final(self)@ == old(self)@.remove(id),
            r == (if old(self)@.dom().contains(id) {
                Some((id, old(self)@[id].class, joined_exit(old(self)@, id, exit)))
            } else {
                None
            }),
    {
        let aborted: bool = match self.meta.get(&id) {
            Some(meta) => meta.abort_requested,
            None => false,
        };
        let exit = if aborted && exit == TaskExit::Completed {
            TaskExit::Cancelled
        } else {
            exit
        };
        match self.deregister(id) {
            Some(class) => Some((id, class, exit)),
            None => None,
        }
    }

    /// A task was found finished without waiting; its exit counts as reported.
    pub fn try_reap_finished(&mut self, id: TaskId, exit: TaskExit) -> (r: Option<
        (TaskId, TaskClass, TaskExit),
    >)
        requires
            old(self).wf(),
        ensures
            final(self).wf(),
            final(self).next() == old(self).next(),
            final(self)@ == old(self)@.remove(id),
            r == (if old(self)@.dom().contains(id) {
                Some((id, old(self)@[id].class, exit))
            } else {
                None
            }),
    {
        match self.deregister(id) {
            Some(class) => Some((id, class, exit)),
            None => None,
        }
    }

    /// A join failed before the task reported: it was cancelled or it panicked.
    /// `finished` is a registered task whose work is over, where one was found.
    pub fn join_failed(&mut self, finished: Option<TaskId>, cancelled: bool) -> (r: Option<
        (TaskId, TaskClass, TaskExit),
    >)
        requires
            old(self).wf(),
        ensures
            final(self).wf(),
            final(self).next() == old(self).next(),
            match finished {
                None => r is None && final(self)@ == old(self)@,
                Some(id) => {
                    &&& final(self)@ == old(self)@.remove(id)
                    &&& r == (if old(self)@.dom().contains(id) {
                        Some(
                            (
                                id,
                                old(self)@[id].class,
                                if cancelled {
                                    TaskExit::Cancelled
                                } else {
                                    TaskExit::Panicked
                                },
                            ),
                        )
                    } else {
                        None
                    })
                },
            },
    {
        let exit = if cancelled {
            TaskExit::Cancelled
        } else {
            TaskExit::Panicked
        };
        match finished {
            Some(id) => self.try_reap_finished(id, exit),
            None => None,
        }
    }
}

/// A request to abort takes no task out of the books and never spares one by
/// accident: the finalizer of a transaction is only ever aborted with nothing spared.
pub proof fn abort_keeps_tasks_registered(
    meta: Map<TaskId, TaskMeta>,
    tx: TransactionId,
    spared: Spared,
    id: TaskId,
)
    requires
        meta.dom().contains(id),
    ensures
        ({
            let after = aborted_where(meta, |c: TaskClass| concerned(c, tx, spared));
            &&& after.dom() =~= meta.dom()
            &&& after[id].class == meta[id].class
            &&& (spared != Spared::Nothing && meta[id].class is Finalizer) ==> after[id]
                == meta[id]
            &&& meta[id].class.owner() != Some(tx) ==> after[id] == meta[id]
        }),
{
}

} // verus!
