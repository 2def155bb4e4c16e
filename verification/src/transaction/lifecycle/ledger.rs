//! Ledger of admitted transactions: one row from admission until the last of
//! its work is gone.
//!
//! No session is held by two rows.

use crate::assoc::{matching, matching_after_insert, matching_prefix, AssocMap};
use crate::identity::TransactionId;
use crate::transaction::lifecycle::capacity::TransactionReservations;
use crate::transaction::lifecycle::terminal::{TerminalDecision, TerminalProposal};
use crate::transaction::types::{ChannelId, SessionKey, TransactionUsage};
use vstd::prelude::*;

verus! {

/// Phase of a ledger row.
#[derive(Clone, Copy, Debug, PartialEq, Eq, Hash, Structural)]
pub enum TransactionPhase {
    /// Admitted; supervisor has not started work.
    Queued,
    /// External session create/load in progress.
    EstablishingSession,
    /// Provider/tool work running.
    Running,
    /// Cancellation in progress.
    Cancelling,
    /// Terminal selected; publishing.
    Finalizing,
    /// Completion published; cleanup already done.
    CompletionPublished,
    /// Completion published; owned cleanup remains.
    CleanupPending,
}

/// Which ports of a transaction the row still holds.
#[derive(Clone, Copy, Debug, PartialEq, Eq, Structural)]
pub struct HeldPorts {
    /// The delivery pair, until work starts or the end is published.
    pub delivery: bool,
    /// The completion sender, once split off the delivery pair.
    pub completion: bool,
    /// The barrier of ordinary events.
    pub admission: bool,
    /// The seal sender.
    pub seal: bool,
}

/// Ledger row.
pub struct LedgerEntry {
    /// Transaction id.
    pub transaction_id: TransactionId,
    /// Channel.
    pub channel_id: ChannelId,
    /// Session when known.
    pub session_key: Option<SessionKey>,
    /// Current phase.
    pub phase: TransactionPhase,
    /// Terminal decision, once made.
    pub terminal: Option<TerminalDecision>,
    /// Proposal of a worker that could not be handed over.
    pub pending_worker_proposal: Option<TerminalProposal>,
    /// Last event sequence that is known.
    pub event_sequence: u64,
    /// Ports still held.
    pub ports: HeldPorts,
    /// Whether the transaction's work was told to stop.
    pub cancelled: bool,
    /// Places held.
    pub reservations: TransactionReservations,
    /// Usage facts.
    pub usage: TransactionUsage,
}

/// Why a row or a session was refused.
#[derive(Clone, Copy, Debug, PartialEq, Eq, Structural)]
pub enum LedgerInsertError {
    /// Another row holds the session.
    SessionAlreadyActive,
    /// The channel has as many sessions as it may have.
    DistinctSessionsExceeded,
    /// There is a row for the transaction.
    DuplicateTransaction,
    /// There is no row for the transaction.
    UnknownTransaction,
}

/// The session of a row.
pub open spec fn session_of(e: LedgerEntry) -> Option<(Seq<char>, Seq<char>)> {
    match e.session_key {
        Some(k) => Some(k@),
        None => None,
    }
}

/// Whether a row holds a session.
pub open spec fn holds_session(
    m: Map<TransactionId, LedgerEntry>,
    tx: TransactionId,
    key: (Seq<char>, Seq<char>),
) -> bool {
    m.dom().contains(tx) && session_of(m[tx]) == Some(key)
}

/// Whether a session is held by any row.
pub open spec fn session_held(
    m: Map<TransactionId, LedgerEntry>,
    key: (Seq<char>, Seq<char>),
) -> bool {
    exists|tx: TransactionId| holds_session(m, tx, key)
}

/// Each session is held by at most one row.
pub open spec fn one_active(m: Map<TransactionId, LedgerEntry>) -> bool {
    forall|a: TransactionId, b: TransactionId, key: (Seq<char>, Seq<char>)|
        #[trigger] holds_session(m, a, key) && #[trigger] holds_session(m, b, key) ==> a == b
}

/// Whether a row holds a session on a channel.
pub open spec fn has_session_on(channel: Seq<char>) -> spec_fn(LedgerEntry) -> bool {
    |e: LedgerEntry| session_of(e) is Some && (session_of(e)->0).0 == channel
}

/// Number of sessions held on a channel.
pub open spec fn sessions_on(m: Map<TransactionId, LedgerEntry>, channel: Seq<char>) -> nat {
    matching(m, has_session_on(channel)).len()
}

/// Whether a channel has as many sessions as it may have.
pub open spec fn sessions_full(
    m: Map<TransactionId, LedgerEntry>,
    channel: Seq<char>,
    max_distinct: Option<usize>,
) -> bool {
    max_distinct is Some && sessions_on(m, channel) >= max_distinct->0
}

/// Why a new row is refused, if it is.
pub open spec fn insert_refusal(
    m: Map<TransactionId, LedgerEntry>,
    entry: LedgerEntry,
    max_distinct: Option<usize>,
) -> Option<LedgerInsertError> {
    if session_of(entry) is Some && session_held(m, session_of(entry)->0) {
        Some(LedgerInsertError::SessionAlreadyActive)
    } else if session_of(entry) is Some && sessions_full(m, (session_of(entry)->0).0, max_distinct) {
        Some(LedgerInsertError::DistinctSessionsExceeded)
    } else if m.dom().contains(entry.transaction_id) {
        Some(LedgerInsertError::DuplicateTransaction)
    } else {
        None
    }
}

/// Why a session is refused to a row, if it is. A row may claim again what it
/// holds, and nothing else once it holds a session.
pub open spec fn bind_refusal(
    m: Map<TransactionId, LedgerEntry>,
    tx: TransactionId,
    key: (Seq<char>, Seq<char>),
    max_distinct: Option<usize>,
) -> Option<LedgerInsertError> {
    if !m.dom().contains(tx) {
        Some(LedgerInsertError::UnknownTransaction)
    } else if session_of(m[tx]) == Some(key) {
        None
    } else if session_of(m[tx]) is Some || session_held(m, key) {
        Some(LedgerInsertError::SessionAlreadyActive)
    } else if sessions_full(m, key.0, max_distinct) {
        Some(LedgerInsertError::DistinctSessionsExceeded)
    } else {
        None
    }
}

/// Rows of admitted transactions.
pub struct LifecycleLedger {
    entries: AssocMap<TransactionId, LedgerEntry>,
}

impl View for LifecycleLedger {
    type V = Map<TransactionId, LedgerEntry>;

    closed spec fn view(&self) -> Map<TransactionId, LedgerEntry> {
        self.entries@
    }
}

impl LifecycleLedger {
    /// Internal consistency.
    pub closed spec fn wf(&self) -> bool {
        self.entries.wf()
    }

    /// A ledger has finitely many rows.
    pub proof fn finite(&self)
        requires
            self.wf(),
        ensures
            self@.dom().finite(),
    {
        self.entries.lemma_order();
    }

    /// Empty ledger.
    pub fn new() -> (r: Self)
        ensures
            r.wf(),
            r@ == Map::<TransactionId, LedgerEntry>::empty(),
            one_active(r@),
    {
        LifecycleLedger { entries: AssocMap::new() }
    }

    /// Number of rows.
    pub fn len(&self) -> (r: usize)
        requires
            self.wf(),
        ensures
            self@.dom().finite(),
            r == self@.dom().len(),
    {
        self.entries.len()
    }

    /// Whether the ledger is empty.
    pub fn is_empty(&self) -> (r: bool)
        requires
            self.wf(),
        ensures
            self@.dom().finite(),
            r == (self@.dom().len() == 0),
    {
        self.entries.len() == 0
    }

    /// A row.
    pub fn get(&self, tx: &TransactionId) -> (r: Option<&LedgerEntry>)
        requires
            self.wf(),
        ensures
            match r {
                Some(e) => self@.dom().contains(*tx) && *e == self@[*tx],
                None => !self@.dom().contains(*tx),
            },
    {
        self.entries.get(tx)
    }

    /// A row, to be changed in place.
    pub fn get_mut(&mut self, tx: &TransactionId) -> (r: Option<&mut LedgerEntry>)
        requires
            old(self).wf(),
        ensures
            final(self).wf(),
            match r {
                Some(e) => old(self)@.dom().contains(*tx) && *e == old(self)@[*tx] && final(self)@
                    == old(self)@.insert(*tx, *final(e)),
                None => !old(self)@.dom().contains(*tx) && final(self)@ == old(self)@,
            },
    {
        self.entries.get_mut(tx)
    }

    /// Ids of all rows.
    pub fn transaction_ids(&self) -> (r: Vec<TransactionId>)
        requires
            self.wf(),
        ensures
            r@.no_duplicates(),
            forall|tx: TransactionId| #[trigger] r@.contains(tx) <==> self@.dom().contains(tx),
    {
        proof {
            self.entries.lemma_order();
        }
        let ghost order = self.entries.order();
        let mut out: Vec<TransactionId> = Vec::new();
        let mut i: usize = 0;
        while i < self.entries.count()
            invariant
                order == self.entries.order(),
                i <= order.len(),
                out@ =~= order.take(i as int).map_values(|e: (TransactionId, LedgerEntry)| e.0),
            decreases order.len() - i,
        {
            out.push(self.entries.at(i).0);
            i = i + 1;
        }
        proof {
            assert forall|a: int, b: int| 0 <= a < out@.len() && 0 <= b < out@.len() && a != b
                implies out@[a] != out@[b] by {
                assert(order[a].0@ != order[b].0@);
            }
            assert forall|tx: TransactionId| #[trigger] out@.contains(tx) <==> self@.dom().contains(
                tx,
            ) by {
                if out@.contains(tx) {
                    let a = choose|a: int| 0 <= a < out@.len() && out@[a] == tx;
                    assert(order[a].0@ == tx);
                }
                if self@.dom().contains(tx) {
                    let a = choose|a: int| 0 <= a < order.len() && (#[trigger] order[a]).0@ == tx;
                    assert(out@[a] == tx);
                }
            }
        }
        out
    }

    /// The row that holds a session.
    pub fn transaction_for_session(&self, key: &SessionKey) -> (r: Option<TransactionId>)
        requires
            self.wf(),
        ensures
            match r {
                Some(tx) => holds_session(self@, tx, key@),
                None => !session_held(self@, key@),
            },
    {
        proof {
            self.entries.lemma_order();
        }
        let ghost order = self.entries.order();
        let mut i: usize = 0;
        while i < self.entries.count()
            invariant
                order == self.entries.order(),
                i <= order.len(),
                forall|j: int|
                    0 <= j < i ==> session_of((#[trigger] order[j]).1) != Some(key@),
                forall|j: int|
                    0 <= j < order.len() ==> self@.dom().contains((#[trigger] order[j]).0)
                        && self@[order[j].0] == order[j].1,
            decreases order.len() - i,
        {
            let e = self.entries.at(i);
            match &e.1.session_key {
                Some(k) => {
                    if k.channel_id == key.channel_id && k.session_id == key.session_id {
                        assert(order[i as int].0 == e.0);
                        return Some(e.0);
                    }
                },
                None => {},
            }
            i = i + 1;
        }
        proof {
            if session_held(self@, key@) {
                let tx = choose|tx: TransactionId| holds_session(self@, tx, key@);
                let j = choose|j: int| 0 <= j < order.len() && (#[trigger] order[j]).0@ == tx;
                assert(session_of(order[j].1) == Some(key@));
            }
        }
        None
    }

    /// Whether a session is held.
    pub fn session_active(&self, key: &SessionKey) -> (r: bool)
        requires
            self.wf(),
        ensures
            r == session_held(self@, key@),
    {
        match self.transaction_for_session(key) {
            Some(_) => true,
            None => false,
        }
    }

    /// Number of sessions held on a channel.
    pub fn distinct_sessions_on_channel(&self, channel: &ChannelId) -> (r: usize)
        requires
            self.wf(),
        ensures
            r == sessions_on(self@, channel@),
    {
        proof {
            self.entries.lemma_order();
        }
        let ghost order = self.entries.order();
        let ghost p = has_session_on(channel@);
        let mut n: usize = 0;
        let mut i: usize = 0;
        proof {
            assert(matching(
                crate::assoc::entry_map(order.take(0)),
                p,
            ) =~= Set::<TransactionId>::empty());
        }
        while i < self.entries.count()
            invariant
                order == self.entries.order(),
                crate::assoc::distinct_keys(order),
                i <= order.len(),
                n <= i,
                p == has_session_on(channel@),
                n == matching(crate::assoc::entry_map(order.take(i as int)), p).len(),
            decreases order.len() - i,
        {
            proof {
                matching_prefix(order, i as int, p);
            }
            let e = self.entries.at(i);
            match &e.1.session_key {
                Some(k) => {
                    if k.channel_id == *channel {
                        n = n + 1;
                    }
                },
                None => {},
            }
            i = i + 1;
        }
        proof {
            assert(order.take(i as int) =~= order);
        }
        n
    }

    /// Puts a row in. A refused row comes back.
    pub fn insert_queued(&mut self, entry: LedgerEntry, max_distinct: Option<usize>) -> (r: Result<
        (),
        (LedgerInsertError, LedgerEntry),
    >)
        requires
            old(self).wf(),
            one_active(old(self)@),
        ensures
            final(self).wf(),
            one_active(final(self)@),
            match insert_refusal(old(self)@, entry, max_distinct) {
                Some(e) => r == Err::<(), (LedgerInsertError, LedgerEntry)>((e, entry)) && final(self)@ == old(self)@,
                None => r is Ok && final(self)@ == old(self)@.insert(entry.transaction_id, entry),
            },
    {
        let mut refused: Option<LedgerInsertError> = None;
        match &entry.session_key {
            Some(key) => {
                if self.session_active(key) {
                    refused = Some(LedgerInsertError::SessionAlreadyActive);
                } else {
                    match max_distinct {
                        Some(max) => {
                            if self.distinct_sessions_on_channel(&key.channel_id) >= max {
                                refused = Some(LedgerInsertError::DistinctSessionsExceeded);
                            }
                        },
                        None => {},
                    }
                }
            },
            None => {},
        }
        match refused {
            Some(e) => {
                return Err((e, entry));
            },
            None => {},
        }
        if self.entries.contains_key(&entry.transaction_id) {
            return Err((LedgerInsertError::DuplicateTransaction, entry));
        }
        let tx = entry.transaction_id;
        self.entries.insert(tx, entry);
        proof {
            lemma_one_active_insert(old(self)@, tx, entry);
        }
        Ok(())
    }

    /// Gives a row its session.
    pub fn bind_session(
        &mut self,
        tx: &TransactionId,
        key: SessionKey,
        max_distinct: Option<usize>,
    ) -> (r: Result<(), LedgerInsertError>)
        requires
            old(self).wf(),
            one_active(old(self)@),
        ensures
            final(self).wf(),
            one_active(final(self)@),
            match bind_refusal(old(self)@, *tx, key@, max_distinct) {
                Some(e) => r == Err::<(), LedgerInsertError>(e) && final(self)@ == old(self)@,
                None => r is Ok && holds_session(final(self)@, *tx, key@) && final(self)@ == old(self)@.insert(
                    *tx,
                    LedgerEntry { session_key: final(self)@[*tx].session_key, ..old(self)@[*tx] },
                ),
            },
    {
        let own: Option<bool> = match self.entries.get(tx) {
            None => {
                return Err(LedgerInsertError::UnknownTransaction);
            },
            Some(e) => match &e.session_key {
                Some(k) => Some(k.channel_id == key.channel_id && k.session_id == key.session_id),
                None => None,
            },
        };
        match own {
            Some(true) => {
                assert(self@ =~= self@.insert(*tx, self@[*tx]));
                return Ok(());
            },
            Some(false) => {
                return Err(LedgerInsertError::SessionAlreadyActive);
            },
            None => {},
        }
        if self.session_active(&key) {
            return Err(LedgerInsertError::SessionAlreadyActive);
        }
        match max_distinct {
            Some(max) => {
                if self.distinct_sessions_on_channel(&key.channel_id) >= max {
                    return Err(LedgerInsertError::DistinctSessionsExceeded);
                }
            },
            None => {},
        }
        match self.entries.get_mut(tx) {
            Some(e) => {
                e.session_key = Some(key);
            },
            None => {},
        }
        proof {
            lemma_one_active_insert(old(self)@, *tx, self@[*tx]);
        }
        Ok(())
    }

    /// Takes a row out.
    pub fn remove(&mut self, tx: &TransactionId) -> (r: Option<LedgerEntry>)
        requires
            old(self).wf(),
        ensures
            final(self).wf(),
            final(self)@ == old(self)@.remove(*tx),
            one_active(old(self)@) ==> one_active(final(self)@),
            match r {
                Some(e) => old(self)@.dom().contains(*tx) && e == old(self)@[*tx],
                None => !old(self)@.dom().contains(*tx),
            },
    {
        let r = self.entries.remove(tx);
        proof {
            if one_active(old(self)@) {
                lemma_one_active_remove(old(self)@, *tx);
            }
        }
        r
    }
}

proof fn lemma_one_active_insert(
    m: Map<TransactionId, LedgerEntry>,
    tx: TransactionId,
    entry: LedgerEntry,
)
    requires
        one_active(m),
        session_of(entry) is Some ==> !session_held(m, session_of(entry)->0),
    ensures
        one_active(m.insert(tx, entry)),
{
    let n = m.insert(tx, entry);
    assert forall|a: TransactionId, b: TransactionId, key: (Seq<char>, Seq<char>)|
        #[trigger] holds_session(n, a, key) && #[trigger] holds_session(n, b, key) implies a
        == b by {
        if a != tx {
            assert(holds_session(m, a, key));
        }
        if b != tx {
            assert(holds_session(m, b, key));
        }
    }
}

proof fn lemma_one_active_remove(m: Map<TransactionId, LedgerEntry>, tx: TransactionId)
    requires
        one_active(m),
    ensures
        one_active(m.remove(tx)),
{
    let n = m.remove(tx);
    assert forall|a: TransactionId, b: TransactionId, key: (Seq<char>, Seq<char>)|
        #[trigger] holds_session(n, a, key) && #[trigger] holds_session(n, b, key) implies a
        == b by {
        assert(holds_session(m, a, key));
        assert(holds_session(m, b, key));
    }
}

/// A change of a row that leaves its session alone keeps sessions unique.
pub proof fn one_active_after_update(
    m: Map<TransactionId, LedgerEntry>,
    tx: TransactionId,
    entry: LedgerEntry,
)
    requires
        one_active(m),
        m.dom().contains(tx),
        session_of(entry) == session_of(m[tx]),
    ensures
        one_active(m.insert(tx, entry)),
{
    let n = m.insert(tx, entry);
    assert forall|a: TransactionId, b: TransactionId, key: (Seq<char>, Seq<char>)|
        #[trigger] holds_session(n, a, key) && #[trigger] holds_session(n, b, key) implies a
        == b by {
        assert(holds_session(m, a, key));
        assert(holds_session(m, b, key));
    }
}

/// A held session is refused to every other row, new or old.
pub proof fn held_session_is_exclusive(
    m: Map<TransactionId, LedgerEntry>,
    holder: TransactionId,
    tx: TransactionId,
    key: (Seq<char>, Seq<char>),
    entry: LedgerEntry,
    max_distinct: Option<usize>,
)
    requires
        holds_session(m, holder, key),
        tx != holder,
        m.dom().contains(tx),
        one_active(m),
        session_of(entry) == Some(key),
    ensures
        bind_refusal(m, tx, key, max_distinct) == Some(LedgerInsertError::SessionAlreadyActive),
        insert_refusal(m, entry, max_distinct) == Some(LedgerInsertError::SessionAlreadyActive),
{
    if session_of(m[tx]) == Some(key) {
        assert(holds_session(m, tx, key));
    }
}

} // verus!
