//! State that admission, the supervisor and the finalizers share.
//!
//! Every row of the ledger holds exactly one reservation, and no reservation
//! is held by anything else.

use crate::assoc::{matching, matching_after_insert, matching_after_remove};
use crate::identity::TransactionId;
use crate::transaction::lifecycle::capacity::{
    holds, released, reserved, within_bounds, PoolModel, ReservationPool,
};
use crate::transaction::lifecycle::ledger::{
    bind_refusal, holds_session, one_active, one_active_after_update, session_of, LedgerEntry,
    LedgerInsertError, LifecycleLedger,
};
use crate::transaction::types::SessionKey;
use vstd::prelude::*;

verus! {

/// State of the runtime.
#[derive(Clone, Copy, Debug, PartialEq, Eq, Structural)]
pub enum RuntimeState {
    /// Not yet open.
    Starting,
    /// Admits transactions.
    Accepting,
    /// Admits nothing and winds down.
    Quiescing,
    /// Owns nothing.
    Stopped,
}

/// What is still owned.
#[derive(Clone, Copy, Debug, PartialEq, Eq, Structural)]
pub struct ShutdownSnapshot {
    /// Shutdown generation: 0 before any shutdown was asked for, and 1 ever after.
    pub generation: u64,
    /// Rows in the ledger.
    pub ledger_entries: u32,
    /// Tasks.
    pub owned_tasks: u32,
    /// Processes.
    pub owned_processes: u32,
    /// Gateway routes.
    pub mcp_routes: u32,
    /// Completions published.
    pub completions_published: u64,
}

/// Final account of the runtime.
#[derive(Clone, Copy, Debug, PartialEq, Eq, Structural)]
pub struct ShutdownReport {
    /// Completions handed to a mailbox.
    pub completions_published: u64,
    /// Of these, those whose receiver was gone.
    pub completions_receiver_dropped: u64,
    /// Completions that had no mailbox.
    pub completions_invariant_failed: u64,
    /// Transactions ended by the shutdown.
    pub runtime_shutdown_terminals: u64,
}

/// Counters of the runtime.
#[derive(Clone, Copy, Debug, PartialEq, Eq, Structural)]
pub struct RuntimeCounters {
    /// Completions handed to a mailbox.
    pub completions_published: u64,
    /// Of these, those whose receiver was gone.
    pub completions_receiver_dropped: u64,
    /// Completions that had no mailbox.
    pub completions_invariant_failed: u64,
    /// Transactions ended by the shutdown.
    pub runtime_shutdown_terminals: u64,
}

/// One more; after the last machine number comes 0.
pub open spec fn bumped(n: u64) -> u64 {
    if n == u64::MAX {
        0
    } else {
        (n + 1) as u64
    }
}

/// Whether a row belongs to a channel.
pub open spec fn on_channel(channel: Seq<char>) -> spec_fn(LedgerEntry) -> bool {
    |e: LedgerEntry| e.channel_id@ == channel
}

/// Rows and reservations agree: one reservation for each row, on its channel.
pub open spec fn accounted(rows: Map<TransactionId, LedgerEntry>, pool: PoolModel) -> bool {
    &&& rows.dom().finite()
    &&& pool.global_active == rows.dom().len()
    &&& pool.ledger_active == rows.dom().len()
    &&& forall|tx: TransactionId| #[trigger]
        rows.dom().contains(tx) ==> rows[tx].transaction_id == tx && rows[tx].reservations.channel()
            == rows[tx].channel_id@ && pool.channels.dom().contains(rows[tx].channel_id@)
    &&& forall|c: Seq<char>| #[trigger]
        pool.channels.dom().contains(c) ==> pool.channels[c].active == matching(
            rows,
            on_channel(c),
        ).len()
}

/// Shared state.
pub struct RuntimeShared {
    /// State of the runtime.
    pub state: RuntimeState,
    /// Rows of admitted transactions.
    pub ledger: LifecycleLedger,
    /// Places.
    pub pool: ReservationPool,
    /// Shutdown generation; 0 before any.
    pub shutdown_generation: u64,
    /// Counters.
    pub counters: RuntimeCounters,
    /// Tasks owned, as last told.
    pub owned_tasks: u32,
    /// Whether the supervisor has wound down.
    pub drain_complete: bool,
    /// Final account, once wound down.
    pub shutdown_report: Option<ShutdownReport>,
}

impl RuntimeShared {
    /// Internal consistency.
    pub open spec fn wf(&self) -> bool {
        &&& self.ledger.wf()
        &&& self.pool.wf()
        &&& one_active(self.ledger@)
        &&& accounted(self.ledger@, self.pool@)
        &&& self.shutdown_generation <= 1
    }

    /// Shared state of a runtime that is starting.
    pub fn new(pool: ReservationPool) -> (r: Self)
        requires
            pool.wf(),
            pool@.global_active == 0,
            pool@.ledger_active == 0,
            forall|c: Seq<char>| #[trigger]
                pool@.channels.dom().contains(c) ==> pool@.channels[c].active == 0,
        ensures
            r.wf(),
            r.state == RuntimeState::Starting,
            r.pool == pool,
            r.ledger@ == Map::<TransactionId, LedgerEntry>::empty(),
            r.shutdown_generation == 0,
            r.counters == (RuntimeCounters {
                completions_published: 0,
                completions_receiver_dropped: 0,
                completions_invariant_failed: 0,
                runtime_shutdown_terminals: 0,
            }),
            r.owned_tasks == 0,
            !r.drain_complete,
            r.shutdown_report is None,
    {
        let ledger = LifecycleLedger::new();
        proof {
            assert forall|c: Seq<char>| #[trigger] pool@.channels.dom().contains(c) implies
                pool@.channels[c].active == matching(ledger@, on_channel(c)).len() by {
                assert(matching(ledger@, on_channel(c)) =~= Set::empty());
            }
        }
        RuntimeShared {
            state: RuntimeState::Starting,
            ledger,
            pool,
            shutdown_generation: 0,
            counters: RuntimeCounters {
                completions_published: 0,
                completions_receiver_dropped: 0,
                completions_invariant_failed: 0,
                runtime_shutdown_terminals: 0,
            },
            owned_tasks: 0,
            drain_complete: false,
            shutdown_report: None,
        }
    }

    /// State of the runtime.
    pub fn runtime_state(&self) -> (r: RuntimeState)
        ensures
            r == self.state,
    {
        self.state
    }

    /// What is still owned. Of the two counts of processes the larger counts.
    pub fn snapshot(
        &self,
        live_processes: usize,
        leased_processes: u32,
        mcp_routes: u32,
    ) -> (r: ShutdownSnapshot)
        requires
            self.wf(),
        ensures
            r == (ShutdownSnapshot {
                generation: self.shutdown_generation,
                ledger_entries: self.ledger@.dom().len() as u32,
                owned_tasks: self.owned_tasks,
                owned_processes: (if live_processes > leased_processes as usize {
                    live_processes as u32
                } else {
                    leased_processes
                }),
                mcp_routes,
                completions_published: self.counters.completions_published,
            }),
    {
        let rows: usize = self.ledger.len();
        let owned_processes: u32 = if live_processes > leased_processes as usize {
            #[verifier::truncate]
            (live_processes as u32)
        } else {
            leased_processes
        };
        ShutdownSnapshot {
            generation: self.shutdown_generation,
            ledger_entries: #[verifier::truncate]
            (rows as u32),
            owned_tasks: self.owned_tasks,
            owned_processes,
            mcp_routes,
            completions_published: self.counters.completions_published,
        }
    }

    /// Final account of the runtime.
    pub fn final_report(&self) -> (r: ShutdownReport)
        ensures
            r == (ShutdownReport {
                completions_published: self.counters.completions_published,
                completions_receiver_dropped: self.counters.completions_receiver_dropped,
                completions_invariant_failed: self.counters.completions_invariant_failed,
                runtime_shutdown_terminals: self.counters.runtime_shutdown_terminals,
            }),
    {
        ShutdownReport {
            completions_published: self.counters.completions_published,
            completions_receiver_dropped: self.counters.completions_receiver_dropped,
            completions_invariant_failed: self.counters.completions_invariant_failed,
            runtime_shutdown_terminals: self.counters.runtime_shutdown_terminals,
        }
    }

    /// Gives a row its session.
    pub fn bind_session(
        &mut self,
        tx: &TransactionId,
        key: SessionKey,
        max_distinct: Option<usize>,
    ) -> (r: Result<(), LedgerInsertError>)
        requires
            old(self).wf(),
        ensures
            final(self).wf(),
            *final(self) == (RuntimeShared { ledger: final(self).ledger, ..*old(self) }),
            match bind_refusal(old(self).ledger@, *tx, key@, max_distinct) {
                Some(e) => r == Err::<(), LedgerInsertError>(e) && final(self).ledger@ == old(
                    self).ledger@,
                None => r is Ok && holds_session(final(self).ledger@, *tx, key@) && final(
                    self).ledger@ == old(self).ledger@.insert(
                    *tx,
                    LedgerEntry {
                        session_key: final(self).ledger@[*tx].session_key,
                        ..old(self).ledger@[*tx]
                    },
                ),
            },
    {
        let ghost rows = self.ledger@;
        let r = self.ledger.bind_session(tx, key, max_distinct);
        proof {
            if r is Ok {
                lemma_accounted_update(rows, self.pool@, *tx, self.ledger@[*tx]);
            }
        }
        r
    }

    /// Takes a row out and gives its places back; answers whether there was one.
    pub fn remove_row(&mut self, tx: &TransactionId) -> (r: bool)
        requires
            old(self).wf(),
        ensures
            final(self).wf(),
            r == old(self).ledger@.dom().contains(*tx),
            final(self).ledger@ == old(self).ledger@.remove(*tx),
            final(self).pool@ == (if r {
                released(old(self).pool@, old(self).ledger@[*tx].channel_id@)
            } else {
                old(self).pool@
            }),
            *final(self) == (RuntimeShared {
                ledger: final(self).ledger,
                pool: final(self).pool,
                ..*old(self)
            }),
    {
        let ghost rows = self.ledger@;
        let ghost pool = self.pool@;
        match self.ledger.remove(tx) {
            Some(entry) => {
                proof {
                    lemma_row_holds(rows, pool, *tx);
                    lemma_accounted_remove(rows, pool, *tx);
                }
                entry.reservations.release(&mut self.pool);
                true
            },
            None => {
                proof {
                    assert(rows.remove(*tx) =~= rows);
                }
                false
            },
        }
    }
}

/// The places of a row can be given back.
pub proof fn lemma_row_holds(
    rows: Map<TransactionId, LedgerEntry>,
    pool: PoolModel,
    tx: TransactionId,
)
    requires
        accounted(rows, pool),
        rows.dom().contains(tx),
    ensures
        holds(pool, rows[tx].channel_id@),
{
    let c = rows[tx].channel_id@;
    let s = matching(rows, on_channel(c));
    assert(rows.dom().contains(tx));
    assert(s.contains(tx));
    rows.dom().lemma_len_filter(|k: TransactionId| on_channel(c)(rows[k]));
    if s.len() == 0 {
        vstd::set_lib::lemma_set_empty_equivalency_len(s);
    }
    if rows.dom().len() == 0 {
        vstd::set_lib::lemma_set_empty_equivalency_len(rows.dom());
    }
}

proof fn lemma_accounted_remove(
    rows: Map<TransactionId, LedgerEntry>,
    pool: PoolModel,
    tx: TransactionId,
)
    requires
        accounted(rows, pool),
        rows.dom().contains(tx),
        holds(pool, rows[tx].channel_id@),
    ensures
        accounted(rows.remove(tx), released(pool, rows[tx].channel_id@)),
{
    let c0 = rows[tx].channel_id@;
    let after = rows.remove(tx);
    let p = released(pool, c0);
    assert forall|c: Seq<char>| #[trigger] p.channels.dom().contains(c) implies p.channels[c].active
        == matching(after, on_channel(c)).len() by {
        assert(pool.channels.dom().contains(c));
        matching_after_remove(rows, on_channel(c), tx);
    }
    assert forall|t: TransactionId| #[trigger] after.dom().contains(t) implies after[t].transaction_id
        == t && after[t].reservations.channel() == after[t].channel_id@ && p.channels.dom().contains(
        after[t].channel_id@,
    ) by {
        assert(rows.dom().contains(t));
    }
}

/// A new row with its reservation keeps the account.
pub proof fn lemma_accounted_insert(
    rows: Map<TransactionId, LedgerEntry>,
    pool: PoolModel,
    tx: TransactionId,
    entry: LedgerEntry,
)
    requires
        accounted(rows, pool),
        within_bounds(pool),
        !rows.dom().contains(tx),
        entry.transaction_id == tx,
        entry.reservations.channel() == entry.channel_id@,
        pool.channels.dom().contains(entry.channel_id@),
        pool.global_active < pool.max_global,
        pool.ledger_active < pool.max_global,
        pool.channels[entry.channel_id@].active < pool.channels[entry.channel_id@].max,
    ensures
        accounted(rows.insert(tx, entry), reserved(pool, entry.channel_id@)),
{
    let c0 = entry.channel_id@;
    let after = rows.insert(tx, entry);
    let p = reserved(pool, c0);
    assert forall|c: Seq<char>| #[trigger] p.channels.dom().contains(c) implies p.channels[c].active
        == matching(after, on_channel(c)).len() by {
        assert(pool.channels.dom().contains(c));
        matching_after_insert(rows, on_channel(c), tx, entry);
    }
    assert forall|t: TransactionId| #[trigger] after.dom().contains(t) implies after[t].transaction_id
        == t && after[t].reservations.channel() == after[t].channel_id@ && p.channels.dom().contains(
        after[t].channel_id@,
    ) by {
        assert(t == tx || rows.dom().contains(t));
    }
}

/// A change of a row that leaves its identity, channel, session and places
/// alone keeps the account and the uniqueness of sessions.
pub proof fn lemma_row_update(
    rows: Map<TransactionId, LedgerEntry>,
    pool: PoolModel,
    tx: TransactionId,
    entry: LedgerEntry,
)
    requires
        accounted(rows, pool),
        one_active(rows),
        rows.dom().contains(tx),
        entry.transaction_id == tx,
        entry.channel_id == rows[tx].channel_id,
        entry.reservations == rows[tx].reservations,
        session_of(entry) == session_of(rows[tx]),
    ensures
        accounted(rows.insert(tx, entry), pool),
        one_active(rows.insert(tx, entry)),
        rows.insert(tx, entry).dom() =~= rows.dom(),
{
    one_active_after_update(rows, tx, entry);
    lemma_accounted_update(rows, pool, tx, entry);
}

/// A change of a row that leaves its identity, channel and places alone keeps
/// the account.
pub proof fn lemma_accounted_update(
    rows: Map<TransactionId, LedgerEntry>,
    pool: PoolModel,
    tx: TransactionId,
    entry: LedgerEntry,
)
    requires
        accounted(rows, pool),
        rows.dom().contains(tx),
        entry.transaction_id == tx,
        entry.channel_id == rows[tx].channel_id,
        entry.reservations == rows[tx].reservations,
    ensures
        accounted(rows.insert(tx, entry), pool),
        rows.insert(tx, entry).dom() =~= rows.dom(),
{
    let after = rows.insert(tx, entry);
    assert(after.dom() =~= rows.dom());
    assert forall|c: Seq<char>| #[trigger] pool.channels.dom().contains(c) implies
        pool.channels[c].active == matching(after, on_channel(c)).len() by {
        matching_after_insert(rows, on_channel(c), tx, entry);
    }
    assert forall|t: TransactionId| #[trigger] after.dom().contains(t) implies after[t].transaction_id
        == t && after[t].reservations.channel() == after[t].channel_id@
        && pool.channels.dom().contains(after[t].channel_id@) by {
        assert(rows.dom().contains(t));
    }
}

} // verus!
