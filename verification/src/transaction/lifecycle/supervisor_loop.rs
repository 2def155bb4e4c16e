//! The supervisor's loop: what each event does, and when it may stop.

use crate::identity::TransactionId;
use crate::transaction::lifecycle::ledger::LedgerEntry;
use crate::transaction::lifecycle::shared::{
    RuntimeShared, RuntimeState, ShutdownReport, ShutdownSnapshot,
};
use crate::transaction::lifecycle::supervisor::{
    aborted, accept_terminal, accepted, all_aborted, begin_shutdown_inner, force_remove_tombstone,
    handle_start, has_tasks, lists_rows, model, on_task_exit, registered, row_removed,
    shutdown_began, task_exited, tombstone_removed, transaction_has_tasks, try_remove_tombstone,
    work_started, ControlCommand, Effects, SupervisorModel,
};
use crate::transaction::lifecycle::supervisor::{abort_everything, abort_sparing};
use crate::transaction::lifecycle::task_supervisor::{
    Spared, TaskClass, TaskExit, TaskId, TaskSupervisor,
};
use crate::transaction::lifecycle::terminal::TerminalProposal;
use crate::transaction::types::TransactionEndKind;
use vstd::prelude::*;

verus! {

/// Least time that winding down gets, in nanoseconds.
pub const MIN_QUIESCE_GRACE_NANOS: u128 = 2_000_000_000;

/// Whether the supervisor may stop.
#[derive(Clone, Copy, Debug, PartialEq, Eq, Structural)]
pub enum StopVerdict {
    /// Rows remain, or no shutdown has begun.
    Run,
    /// No rows, but tasks or processes: wait for tasks once more.
    Drain,
    /// Nothing is owned.
    Stop,
}

/// What a waiter for the end of winding down does next.
#[derive(Clone, Copy, Debug, PartialEq, Eq, Structural)]
pub enum DrainWait {
    /// It is over.
    Complete,
    /// Out of time.
    TimedOut(ShutdownSnapshot),
    /// Look again; with a reminder to the supervisor or without.
    Poll {
        /// Whether to send the shutdown command again.
        nudge: bool,
    },
}

/// Loop state of the supervisor.
#[derive(Clone, Copy, Debug, PartialEq, Eq, Structural)]
pub struct SupervisorLoop {
    /// Whether shutdown has begun.
    pub stopping: bool,
    /// When winding down was first seen.
    pub quiesce_started: Option<u128>,
}

/// Shutdown began and every task was told to stop.
pub open spec fn stopped_hard(
    m: SupervisorModel,
    after: SupervisorModel,
    ids: Seq<TransactionId>,
    mid: SupervisorModel,
) -> bool {
    shutdown_began(m, mid, ids) && after == all_aborted(mid)
}

/// How a control command changes the loop and what it watches over.
pub open spec fn control_taken(
    l: SupervisorLoop,
    next: SupervisorLoop,
    before: SupervisorModel,
    after: SupervisorModel,
    command: Option<ControlCommand>,
) -> bool {
    match command {
        Some(ControlCommand::Cancel(tx)) => next == l && after == accepted(
            before,
            tx,
            TransactionEndKind::Cancelled,
            false,
        ),
        Some(ControlCommand::ForceTerminate(tx)) => next == l && after == accepted(
            before,
            tx,
            TransactionEndKind::Terminated,
            true,
        ),
        Some(ControlCommand::BeginShutdown) => next == (SupervisorLoop { stopping: true, ..l })
            && exists|ids: Seq<TransactionId>| #[trigger] shutdown_began(before, after, ids),
        Some(ControlCommand::StopSupervisor) | None => next == (SupervisorLoop {
            stopping: true,
            ..l
        }) && exists|ids: Seq<TransactionId>, mid: SupervisorModel| #[trigger]
            stopped_hard(before, after, ids, mid),
    }
}

/// How a transaction that was queued is taken up.
pub open spec fn start_taken(
    l: SupervisorLoop,
    before: SupervisorModel,
    after: SupervisorModel,
    tx: TransactionId,
) -> bool {
    after == (if before.state == RuntimeState::Accepting {
        work_started(before, tx)
    } else if l.stopping {
        accepted(before, tx, TransactionEndKind::RuntimeShutdown, false)
    } else {
        before
    })
}

/// What is left of each transaction was told to stop.
pub open spec fn residuals_each(m: SupervisorModel, ids: Seq<TransactionId>) -> SupervisorModel
    decreases ids.len(),
{
    if ids.len() == 0 {
        m
    } else {
        aborted(
            residuals_each(m, ids.drop_last()),
            ids.last(),
            Spared::FinalizerAndPublisher,
        )
    }
}

/// Rows without tasks were taken out where their terminal allows it.
pub open spec fn idle_each(m: SupervisorModel, ids: Seq<TransactionId>) -> SupervisorModel
    decreases ids.len(),
{
    if ids.len() == 0 {
        m
    } else {
        let p = idle_each(m, ids.drop_last());
        if has_tasks(p, ids.last()) {
            p
        } else {
            tombstone_removed(p, ids.last())
        }
    }
}

/// Out of grace: all but finalizers were told to stop, and rows without tasks
/// were taken out.
pub open spec fn leftover_each(m: SupervisorModel, ids: Seq<TransactionId>) -> SupervisorModel
    decreases ids.len(),
{
    if ids.len() == 0 {
        m
    } else {
        let p = aborted(leftover_each(m, ids.drop_last()), ids.last(), Spared::Finalizer);
        if has_tasks(p, ids.last()) {
            p
        } else {
            row_removed(p, ids.last())
        }
    }
}

/// One lap of winding down.
pub open spec fn wound_down(
    m: SupervisorModel,
    after: SupervisorModel,
    ids: Seq<TransactionId>,
    late: bool,
    rest: Seq<TransactionId>,
) -> bool {
    let a = residuals_each(m, ids);
    let b = idle_each(a, ids);
    &&& lists_rows(ids, m.rows)
    &&& lists_rows(rest, b.rows)
    &&& after == (if late {
        leftover_each(b, rest)
    } else {
        b
    })
}

/// Time that winding down gets before force is used.
pub open spec fn grace(cleanup_deadline: u128) -> u128 {
    if cleanup_deadline > MIN_QUIESCE_GRACE_NANOS {
        cleanup_deadline
    } else {
        MIN_QUIESCE_GRACE_NANOS
    }
}

impl SupervisorLoop {
    /// A loop that has seen no shutdown.
    pub fn new() -> (r: Self)
        ensures
            r == (SupervisorLoop { stopping: false, quiesce_started: None }),
    {
        SupervisorLoop { stopping: false, quiesce_started: None }
    }

    /// A worker proposes the terminal of its transaction.
    pub fn on_worker_exited(
        &self,
        shared: &mut RuntimeShared,
        tasks: &mut TaskSupervisor,
        fx: &mut Effects,
        tx: TransactionId,
        proposal: TerminalProposal,
    )
        requires
            old(shared).wf(),
            old(tasks).wf(),
        ensures
            final(shared).wf(),
            final(tasks).wf(),
            model(*final(shared), *final(tasks), *final(fx)) == accepted(
                model(*old(shared), *old(tasks), *old(fx)),
                tx,
                proposal.kind,
                false,
            ),
    {
        accept_terminal(shared, tasks, fx, tx, proposal, false)
    }

    /// Begins shutdown.
    pub fn begin_shutdown(
        &mut self,
        shared: &mut RuntimeShared,
        tasks: &mut TaskSupervisor,
        fx: &mut Effects,
    )
        requires
            old(shared).wf(),
            old(tasks).wf(),
        ensures
            final(shared).wf(),
            final(tasks).wf(),
            *final(self) == (SupervisorLoop { stopping: true, ..*old(self) }),
            exists|ids: Seq<TransactionId>| #[trigger]
                shutdown_began(
                    model(*old(shared), *old(tasks), *old(fx)),
                    model(*final(shared), *final(tasks), *final(fx)),
                    ids,
                ),
    {
        self.stopping = true;
        begin_shutdown_inner(shared, tasks, fx)
    }

    /// A control command arrived; `None` means that nobody can send any more.
    pub fn on_control(
        &mut self,
        shared: &mut RuntimeShared,
        tasks: &mut TaskSupervisor,
        fx: &mut Effects,
        command: Option<ControlCommand>,
    )
        requires
            old(shared).wf(),
            old(tasks).wf(),
        ensures
            final(shared).wf(),
            final(tasks).wf(),
            control_taken(
                *old(self),
                *final(self),
                model(*old(shared), *old(tasks), *old(fx)),
                model(*final(shared), *final(tasks), *final(fx)),
                command,
            ),
    {
        match command {
            Some(ControlCommand::Cancel(tx)) => accept_terminal(
                shared,
                tasks,
                fx,
                tx,
                TerminalProposal::new(TransactionEndKind::Cancelled),
                false,
            ),
            Some(ControlCommand::ForceTerminate(tx)) => accept_terminal(
                shared,
                tasks,
                fx,
                tx,
                TerminalProposal::new(TransactionEndKind::Terminated),
                true,
            ),
            Some(ControlCommand::BeginShutdown) => self.begin_shutdown(shared, tasks, fx),
            Some(ControlCommand::StopSupervisor) | None => {
                self.begin_shutdown(shared, tasks, fx);
                let ghost before = model(*old(shared), *old(tasks), *old(fx));
                let ghost mid = model(*shared, *tasks, *fx);
                let ghost ids = choose|ids: Seq<TransactionId>| #[trigger]
                    shutdown_began(before, mid, ids);
                abort_everything(tasks, fx, Ghost(*shared));
                assert(stopped_hard(before, model(*shared, *tasks, *fx), ids, mid));
            },
        }
    }

    /// A start command arrived. While winding down it ends its transaction
    /// instead: an admitted transaction is never dropped.
    pub fn on_start(
        &self,
        shared: &mut RuntimeShared,
        tasks: &mut TaskSupervisor,
        fx: &mut Effects,
        tx: TransactionId,
    )
        requires
            old(shared).wf(),
            old(tasks).wf(),
        ensures
            final(shared).wf(),
            final(tasks).wf(),
            start_taken(
                *self,
                model(*old(shared), *old(tasks), *old(fx)),
                model(*final(shared), *final(tasks), *final(fx)),
                tx,
            ),
    {
        if shared.state == RuntimeState::Accepting {
            handle_start(shared, tasks, fx, tx);
        } else if self.stopping {
            accept_terminal(
                shared,
                tasks,
                fx,
                tx,
                TerminalProposal::new(TransactionEndKind::RuntimeShutdown),
                false,
            );
        }
    }

    /// A spawn request arrived; `None` means that nobody can send any more,
    /// which begins shutdown.
    pub fn on_spawn(
        &mut self,
        shared: &mut RuntimeShared,
        tasks: &mut TaskSupervisor,
        fx: &mut Effects,
        class: Option<TaskClass>,
    ) -> (r: Option<TaskId>)
        requires
            old(shared).wf(),
            old(tasks).wf(),
        ensures
            final(shared).wf(),
            final(tasks).wf(),
            ({
                let before = model(*old(shared), *old(tasks), *old(fx));
                let after = model(*final(shared), *final(tasks), *final(fx));
                match class {
                    Some(class) => *final(self) == *old(self) && r == Some(
                        TaskId(before.next_task),
                    ) && after == registered(before, class),
                    None => r is None && *final(self) == (SupervisorLoop {
                        stopping: true,
                        ..*old(self)
                    }) && exists|ids: Seq<TransactionId>| #[trigger]
                        shutdown_began(before, after, ids),
                }
            }),
    {
        match class {
            Some(class) => Some(tasks.spawn(class)),
            None => {
                self.begin_shutdown(shared, tasks, fx);
                None
            },
        }
    }

    /// Someone called: where admission was closed, shutdown begins.
    pub fn on_wake(
        &mut self,
        shared: &mut RuntimeShared,
        tasks: &mut TaskSupervisor,
        fx: &mut Effects,
    )
        requires
            old(shared).wf(),
            old(tasks).wf(),
        ensures
            final(shared).wf(),
            final(tasks).wf(),
            ({
                let before = model(*old(shared), *old(tasks), *old(fx));
                let after = model(*final(shared), *final(tasks), *final(fx));
                if before.state == RuntimeState::Quiescing {
                    &&& *final(self) == (SupervisorLoop { stopping: true, ..*old(self) })
                    &&& exists|ids: Seq<TransactionId>| #[trigger]
                        shutdown_began(before, after, ids)
                } else {
                    *final(self) == *old(self) && after == before
                }
            }),
    {
        if shared.state == RuntimeState::Quiescing {
            self.begin_shutdown(shared, tasks, fx);
        }
    }

    /// A task ended and is out of the books.
    pub fn on_joined(
        &self,
        shared: &mut RuntimeShared,
        tasks: &mut TaskSupervisor,
        fx: &mut Effects,
        class: TaskClass,
        exit: TaskExit,
    )
        requires
            old(shared).wf(),
            old(tasks).wf(),
        ensures
            final(shared).wf(),
            final(tasks).wf(),
            model(*final(shared), *final(tasks), *final(fx)) == task_exited(
                model(*old(shared), *old(tasks), *old(fx)),
                class,
                exit,
            ),
    {
        on_task_exit(shared, tasks, fx, class, exit)
    }

    /// Tells the shared state how many tasks are owned.
    pub fn note_tasks(&self, shared: &mut RuntimeShared, tasks: &TaskSupervisor)
        requires
            tasks.wf(),
        ensures
            *final(shared) == (RuntimeShared {
                owned_tasks: tasks@.dom().len() as u32,
                ..*old(shared)
            }),
    {
        let n: usize = tasks.registered_count();
        shared.owned_tasks = #[verifier::truncate]
        (n as u32);
    }

    /// Sees that admission was closed, and when; begins shutdown where nobody
    /// told the loop yet.
    pub fn observe_quiescing(
        &mut self,
        shared: &mut RuntimeShared,
        tasks: &mut TaskSupervisor,
        fx: &mut Effects,
        now: u128,
    )
        requires
            old(shared).wf(),
            old(tasks).wf(),
        ensures
            final(shared).wf(),
            final(tasks).wf(),
            ({
                let before = model(*old(shared), *old(tasks), *old(fx));
                let after = model(*final(shared), *final(tasks), *final(fx));
                let begins = !old(self).stopping && before.state == RuntimeState::Quiescing;
                &&& final(self).stopping == (old(self).stopping || begins)
                &&& final(self).quiesce_started == (if final(self).stopping
                    && old(self).quiesce_started is None {
                    Some(now)
                } else {
                    old(self).quiesce_started
                })
                &&& if begins {
                    exists|ids: Seq<TransactionId>| #[trigger] shutdown_began(before, after, ids)
                } else {
                    after == before
                }
            }),
    {
        if !self.stopping && shared.state == RuntimeState::Quiescing {
            self.begin_shutdown(shared, tasks, fx);
        }
        if self.stopping && self.quiesce_started.is_none() {
            self.quiesce_started = Some(now);
        }
    }

    /// One lap of winding down: what is left is told to stop, and rows whose
    /// work is gone are taken out. After the grace time force is used, but
    /// never on a finalizer. Before shutdown nothing happens.
    pub fn wind_down(
        &self,
        shared: &mut RuntimeShared,
        tasks: &mut TaskSupervisor,
        fx: &mut Effects,
        now: u128,
        cleanup_deadline: u128,
    )
        requires
            old(shared).wf(),
            old(tasks).wf(),
        ensures
            final(shared).wf(),
            final(tasks).wf(),
            ({
                let before = model(*old(shared), *old(tasks), *old(fx));
                let after = model(*final(shared), *final(tasks), *final(fx));
                if !self.stopping {
                    after == before
                } else {
                    exists|ids: Seq<TransactionId>, rest: Seq<TransactionId>| #[trigger]
                        wound_down(before, after, ids, self.is_late(now, cleanup_deadline), rest)
                }
            }),
    {
        if !self.stopping {
            return;
        }
        let ghost m0 = model(*shared, *tasks, *fx);
        let ids = shared.ledger.transaction_ids();
        let mut i: usize = 0;
        assert(ids@.take(0) =~= Seq::<TransactionId>::empty());
        while i < ids.len()
            invariant
                i <= ids.len(),
                shared.wf(),
                tasks.wf(),
                model(*shared, *tasks, *fx) == residuals_each(m0, ids@.take(i as int)),
            decreases ids.len() - i,
        {
            let tx = ids[i];
            abort_sparing(tasks, fx, &tx, Spared::FinalizerAndPublisher, Ghost(*shared));
            proof {
                let t = ids@.take(i as int + 1);
                assert(t.drop_last() =~= ids@.take(i as int));
            }
            i = i + 1;
        }
        assert(ids@.take(i as int) =~= ids@);
        let ghost m1 = model(*shared, *tasks, *fx);
        let mut j: usize = 0;
        while j < ids.len()
            invariant
                j <= ids.len(),
                shared.wf(),
                tasks.wf(),
                model(*shared, *tasks, *fx) == idle_each(m1, ids@.take(j as int)),
            decreases ids.len() - j,
        {
            let tx = ids[j];
            let ghost before = model(*shared, *tasks, *fx);
            if !transaction_has_tasks(tasks, &tx) {
                try_remove_tombstone(shared, &tx);
                assert(model(*shared, *tasks, *fx) == tombstone_removed(before, tx));
            }
            proof {
                let t = ids@.take(j as int + 1);
                assert(t.drop_last() =~= ids@.take(j as int));
            }
            j = j + 1;
        }
        assert(ids@.take(j as int) =~= ids@);
        let ghost m2 = model(*shared, *tasks, *fx);
        let rest = shared.ledger.transaction_ids();
        let late: bool = match self.quiesce_started {
            Some(t) => {
                let limit: u128 = if cleanup_deadline > MIN_QUIESCE_GRACE_NANOS {
                    cleanup_deadline
                } else {
                    MIN_QUIESCE_GRACE_NANOS
                };
                now >= t && now - t >= limit
            },
            None => false,
        };
        if late {
            let mut k: usize = 0;
            assert(rest@.take(0) =~= Seq::<TransactionId>::empty());
            while k < rest.len()
                invariant
                    k <= rest.len(),
                    shared.wf(),
                    tasks.wf(),
                    model(*shared, *tasks, *fx) == leftover_each(m2, rest@.take(k as int)),
                decreases rest.len() - k,
            {
                let tx = rest[k];
                abort_sparing(tasks, fx, &tx, Spared::Finalizer, Ghost(*shared));
                let ghost before = model(*shared, *tasks, *fx);
                if !transaction_has_tasks(tasks, &tx) {
                    force_remove_tombstone(shared, &tx);
                    assert(model(*shared, *tasks, *fx) == row_removed(before, tx));
                }
                proof {
                    let t = rest@.take(k as int + 1);
                    assert(t.drop_last() =~= rest@.take(k as int));
                }
                k = k + 1;
            }
            assert(rest@.take(k as int) =~= rest@);
        }
        assert(wound_down(
            m0,
            model(*shared, *tasks, *fx),
            ids@,
            self.is_late(now, cleanup_deadline),
            rest@,
        ));
    }

    /// Whether the grace time is over.
    pub open spec fn is_late(&self, now: u128, cleanup_deadline: u128) -> bool {
        self.quiesce_started is Some && now >= self.quiesce_started->0 && now
            - self.quiesce_started->0 >= grace(cleanup_deadline)
    }

    /// Whether the supervisor may stop.
    pub fn stop_verdict(
        &self,
        shared: &RuntimeShared,
        tasks: &TaskSupervisor,
        joins_empty: bool,
        processes_empty: bool,
    ) -> (r: StopVerdict)
        requires
            shared.wf(),
            tasks.wf(),
        ensures
            r == (if !self.stopping || shared.ledger@.dom().len() != 0 {
                StopVerdict::Run
            } else if tasks@.dom().len() == 0 && joins_empty && processes_empty {
                StopVerdict::Stop
            } else {
                StopVerdict::Drain
            }),
    {
        if !self.stopping || !shared.ledger.is_empty() {
            StopVerdict::Run
        } else if tasks.is_empty(joins_empty) && processes_empty {
            StopVerdict::Stop
        } else {
            StopVerdict::Drain
        }
    }

    /// The supervisor owns nothing any more.
    pub fn note_drained(&self, shared: &mut RuntimeShared)
        ensures
            *final(shared) == (RuntimeShared { owned_tasks: 0, ..*old(shared) }),
    {
        shared.owned_tasks = 0;
    }

    /// Publishes the final account: winding down is complete.
    pub fn publish_drained(&self, shared: &mut RuntimeShared)
        ensures
            *final(shared) == (RuntimeShared {
                shutdown_report: Some(
                    ShutdownReport {
                        completions_published: old(shared).counters.completions_published,
                        completions_receiver_dropped: old(
                            shared).counters.completions_receiver_dropped,
                        completions_invariant_failed: old(
                            shared).counters.completions_invariant_failed,
                        runtime_shutdown_terminals: old(
                            shared).counters.runtime_shutdown_terminals,
                    },
                ),
                drain_complete: true,
                ..*old(shared)
            }),
    {
        shared.shutdown_report = Some(shared.final_report());
        shared.drain_complete = true;
    }
}

/// What a waiter for the end of winding down does next.
pub fn wait_until_drain_complete(
    shared: &RuntimeShared,
    elapsed: u128,
    deadline: u128,
    snapshot: ShutdownSnapshot,
) -> (r: DrainWait)
    ensures
        r == (if shared.state == RuntimeState::Stopped || shared.drain_complete {
            DrainWait::Complete
        } else if elapsed >= deadline {
            DrainWait::TimedOut(snapshot)
        } else {
            DrainWait::Poll { nudge: shared.state == RuntimeState::Quiescing }
        }),
{
    if shared.state == RuntimeState::Stopped || shared.drain_complete {
        DrainWait::Complete
    } else if elapsed >= deadline {
        DrainWait::TimedOut(snapshot)
    } else {
        DrainWait::Poll { nudge: shared.state == RuntimeState::Quiescing }
    }
}

} // verus!
