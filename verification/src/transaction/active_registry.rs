//! Registry of active transactions, by identity and by session.

use crate::assoc::{matching, matching_prefix, AssocMap};
use crate::identity::TransactionId;
use crate::transaction::finalization::{FinalizationGuard, FinalizationPayload, GuardModel};
use crate::transaction::lifecycle::admission::AdmissionErrorKind;
use crate::transaction::types::{ChannelId, SessionKey};
use vstd::prelude::*;

verus! {

/// Control message for an in-flight transaction actor.
#[derive(Clone, Copy, Debug, PartialEq, Eq, Structural)]
pub enum ControlMessage {
    /// Cooperative cancel.
    Cancel,
    /// Forced terminate.
    ForceTerminate,
}

/// Session key claim failure.
#[derive(Clone, Copy, Debug, PartialEq, Eq, Structural)]
pub enum ClaimSessionError {
    /// Another transaction holds the key.
    Collision,
    /// Unknown transaction.
    UnknownTransaction,
    /// Already has a session key.
    AlreadyClaimed,
    /// The channel has as many sessions as it may have.
    CapacityExceeded,
}

/// One active transaction: its guard, and the driver's ports to its actor.
pub struct ActiveTransaction<C, P> {
    /// Transaction id.
    pub transaction_id: TransactionId,
    /// Session key when known.
    pub session_key: Option<SessionKey>,
    /// Channel id.
    pub channel_id: ChannelId,
    /// Finalization guard.
    pub guard: FinalizationGuard<C>,
    /// Ports to the actor.
    pub ports: P,
}

/// Session of an entry.
pub open spec fn session_of<C, P>(e: ActiveTransaction<C, P>) -> Option<(Seq<char>, Seq<char>)> {
    match e.session_key {
        Some(k) => Some(k@),
        None => None,
    }
}

/// Whether the two indexes say the same.
pub open spec fn indexes_agree<C, P>(
    by_tx: Map<TransactionId, ActiveTransaction<C, P>>,
    by_session: Map<(Seq<char>, Seq<char>), TransactionId>,
) -> bool {
    &&& forall|tx: TransactionId| #[trigger]
        by_tx.dom().contains(tx) ==> by_tx[tx].transaction_id == tx
    &&& forall|k: (Seq<char>, Seq<char>)| #[trigger]
        by_session.dom().contains(k) ==> by_tx.dom().contains(by_session[k]) && session_of(
            by_tx[by_session[k]],
        ) == Some(k)
    &&& forall|tx: TransactionId| #[trigger]
        by_tx.dom().contains(tx) && session_of(by_tx[tx]) is Some ==> by_session.dom().contains(
            session_of(by_tx[tx])->0,
        ) && by_session[session_of(by_tx[tx])->0] == tx
}

/// Abstract state of a registry.
pub struct RegistryModel<C, P> {
    /// Entries by identity.
    pub by_tx: Map<TransactionId, ActiveTransaction<C, P>>,
    /// Identities by session.
    pub by_session: Map<(Seq<char>, Seq<char>), TransactionId>,
}

/// Whether an entry has a session on a channel.
pub open spec fn has_session_on<C, P>(channel: Seq<char>) -> spec_fn(ActiveTransaction<C, P>) -> bool {
    |e: ActiveTransaction<C, P>| session_of(e) is Some && (session_of(e)->0).0 == channel
}

/// Number of sessions on a channel.
pub open spec fn sessions_on<C, P>(m: RegistryModel<C, P>, channel: Seq<char>) -> nat {
    matching(m.by_tx, has_session_on(channel)).len()
}

/// Why a new entry is refused, if it is.
pub open spec fn insert_refusal<C, P>(
    m: RegistryModel<C, P>,
    e: ActiveTransaction<C, P>,
) -> Option<AdmissionErrorKind> {
    if session_of(e) is Some && m.by_session.dom().contains(session_of(e)->0) {
        Some(AdmissionErrorKind::SessionAlreadyActive)
    } else if m.by_tx.dom().contains(e.transaction_id) {
        Some(AdmissionErrorKind::SpawnFailed)
    } else {
        None
    }
}

/// The registry with one more entry.
pub open spec fn inserted<C, P>(
    m: RegistryModel<C, P>,
    e: ActiveTransaction<C, P>,
) -> RegistryModel<C, P> {
    RegistryModel {
        by_tx: m.by_tx.insert(e.transaction_id, e),
        by_session: match session_of(e) {
            Some(k) => m.by_session.insert(k, e.transaction_id),
            None => m.by_session,
        },
    }
}

/// The registry without an entry.
pub open spec fn removed<C, P>(m: RegistryModel<C, P>, tx: TransactionId) -> RegistryModel<C, P> {
    if m.by_tx.dom().contains(tx) {
        RegistryModel {
            by_tx: m.by_tx.remove(tx),
            by_session: match session_of(m.by_tx[tx]) {
                Some(k) => m.by_session.remove(k),
                None => m.by_session,
            },
        }
    } else {
        m
    }
}

/// Why a session is refused to an entry, if it is; `max_distinct` bounds the
/// sessions on the channel.
pub open spec fn claim_refusal<C, P>(
    m: RegistryModel<C, P>,
    tx: TransactionId,
    key: (Seq<char>, Seq<char>),
    max_distinct: Option<usize>,
) -> Option<ClaimSessionError> {
    if m.by_session.dom().contains(key) {
        Some(ClaimSessionError::Collision)
    } else if !m.by_tx.dom().contains(tx) {
        Some(ClaimSessionError::UnknownTransaction)
    } else if session_of(m.by_tx[tx]) is Some {
        Some(ClaimSessionError::AlreadyClaimed)
    } else if max_distinct is Some && sessions_on(m, key.0) >= max_distinct->0 {
        Some(ClaimSessionError::CapacityExceeded)
    } else {
        None
    }
}

/// Whether an entry is another one that claimed a session: its guard knows the
/// session, and nothing else changed.
pub open spec fn has_claimed<C, P>(
    after: ActiveTransaction<C, P>,
    before: ActiveTransaction<C, P>,
    key: SessionKey,
) -> bool {
    &&& after == (ActiveTransaction {
        session_key: Some(key),
        guard: after.guard,
        ..before
    })
    &&& after.guard@ == (GuardModel {
        payload: match before.guard@.payload {
            Some(p) => Some(FinalizationPayload { session_id: Some(key.session_id), ..p }),
            None => None,
        },
        ..before.guard@
    })
}

/// Registry of active transactions.
pub struct ActiveTransactionRegistry<C, P> {
    by_tx: AssocMap<TransactionId, ActiveTransaction<C, P>>,
    by_session: AssocMap<SessionKey, TransactionId>,
}

impl<C, P> View for ActiveTransactionRegistry<C, P> {
    type V = RegistryModel<C, P>;

    closed spec fn view(&self) -> RegistryModel<C, P> {
        RegistryModel { by_tx: self.by_tx@, by_session: self.by_session@ }
    }
}

impl<C, P> ActiveTransactionRegistry<C, P> {
    /// Internal consistency: the two indexes say the same.
    pub closed spec fn wf(&self) -> bool {
        &&& self.by_tx.wf()
        &&& self.by_session.wf()
        &&& indexes_agree(self.by_tx@, self.by_session@)
    }

    /// The two indexes of a registry say the same.
    pub proof fn indexes_agree_always(&self)
        requires
            self.wf(),
        ensures
            indexes_agree(self@.by_tx, self@.by_session),
            self@.by_tx.dom().finite(),
    {
        self.by_tx.lemma_order();
    }

    /// Create empty registry.
    pub fn new() -> (r: Self)
        ensures
            r.wf(),
            r@.by_tx == Map::<TransactionId, ActiveTransaction<C, P>>::empty(),
            r@.by_session == Map::<(Seq<char>, Seq<char>), TransactionId>::empty(),
    {
        ActiveTransactionRegistry { by_tx: AssocMap::new(), by_session: AssocMap::new() }
    }

    /// Number of active transactions.
    pub fn len(&self) -> (r: usize)
        requires
            self.wf(),
        ensures
            r == self@.by_tx.dom().len(),
    {
        self.by_tx.len()
    }

    /// Whether empty.
    pub fn is_empty(&self) -> (r: bool)
        requires
            self.wf(),
        ensures
            r == (self@.by_tx.dom().len() == 0),
    {
        self.by_tx.len() == 0
    }

    /// True if session key is already active.
    pub fn session_active(&self, key: &SessionKey) -> (r: bool)
        requires
            self.wf(),
        ensures
            r == self@.by_session.dom().contains(key@),
    {
        self.by_session.contains_key(key)
    }

    /// Number of sessions on a channel.
    pub fn distinct_sessions_on_channel(&self, channel: &ChannelId) -> (r: usize)
        requires
            self.wf(),
        ensures
            r == sessions_on(self@, channel@),
    {
        proof {
            self.by_tx.lemma_order();
        }
        let ghost order = self.by_tx.order();
        let ghost p = has_session_on::<C, P>(channel@);
        let mut n: usize = 0;
        let mut i: usize = 0;
        proof {
            assert(matching(
                crate::assoc::entry_map(order.take(0)),
                p,
            ) =~= Set::<TransactionId>::empty());
        }
        while i < self.by_tx.count()
            invariant
                order == self.by_tx.order(),
                crate::assoc::distinct_keys(order),
                i <= order.len(),
                n <= i,
                p == has_session_on::<C, P>(channel@),
                n == matching(crate::assoc::entry_map(order.take(i as int)), p).len(),
            decreases order.len() - i,
        {
            proof {
                matching_prefix(order, i as int, p);
            }
            match &self.by_tx.at(i).1.session_key {
                Some(k) => {
                    if k.channel_id == *channel {
                        n = n + 1;
                    }
                },
                None => {},
            }
            i = i + 1;
        }
        proof {
            assert(order.take(i as int) =~= order);
        }
        n
    }

    /// Install a new active transaction.
    pub fn insert(&mut self, entry: ActiveTransaction<C, P>) -> (r: Result<(), AdmissionErrorKind>)
        requires
            old(self).wf(),
        ensures
            final(self).wf(),
            match insert_refusal(old(self)@, entry) {
                Some(e) => r == Err::<(), AdmissionErrorKind>(e) && final(self)@ == old(self)@,
                None => r is Ok && final(self)@ == inserted(old(self)@, entry),
            },
    {
        match &entry.session_key {
            Some(k) => {
                if self.by_session.contains_key(k) {
                    return Err(AdmissionErrorKind::SessionAlreadyActive);
                }
            },
            None => {},
        }
        if self.by_tx.contains_key(&entry.transaction_id) {
            return Err(AdmissionErrorKind::SpawnFailed);
        }
        match &entry.session_key {
            Some(k) => {
                self.by_session.insert(k.clone(), entry.transaction_id);
            },
            None => {},
        }
        let tx = entry.transaction_id;
        self.by_tx.insert(tx, entry);
        proof {
            lemma_inserted_agree(old(self)@, entry);
        }
        Ok(())
    }

    /// Claim a session for a transaction that has none.
    pub fn claim_session(&mut self, transaction_id: TransactionId, key: SessionKey) -> (r: Result<
        (),
        ClaimSessionError,
    >)
        requires
            old(self).wf(),
        ensures
            final(self).wf(),
            match claim_refusal(old(self)@, transaction_id, key@, None) {
                Some(e) => r == Err::<(), ClaimSessionError>(e) && final(self)@ == old(self)@,
                None => {
                    &&& r is Ok
                    &&& final(self)@.by_session == old(self)@.by_session.insert(
                        key@,
                        transaction_id,
                    )
                    &&& final(self)@.by_tx == old(self)@.by_tx.insert(
                        transaction_id,
                        final(self)@.by_tx[transaction_id],
                    )
                    &&& has_claimed(
                        final(self)@.by_tx[transaction_id],
                        old(self)@.by_tx[transaction_id],
                        key,
                    )
                },
            },
    {
        self.claim_session_within(transaction_id, key, None)
    }

    /// Claim a session for a transaction that has none, with a bound on the
    /// sessions on its channel.
    pub fn claim_session_within(
        &mut self,
        transaction_id: TransactionId,
        key: SessionKey,
        max_distinct: Option<usize>,
    ) -> (r: Result<(), ClaimSessionError>)
        requires
            old(self).wf(),
        ensures
            final(self).wf(),
            match claim_refusal(old(self)@, transaction_id, key@, max_distinct) {
                Some(e) => r == Err::<(), ClaimSessionError>(e) && final(self)@ == old(self)@,
                None => {
                    &&& r is Ok
                    &&& final(self)@.by_session == old(self)@.by_session.insert(
                        key@,
                        transaction_id,
                    )
                    &&& final(self)@.by_tx == old(self)@.by_tx.insert(
                        transaction_id,
                        final(self)@.by_tx[transaction_id],
                    )
                    &&& has_claimed(
                        final(self)@.by_tx[transaction_id],
                        old(self)@.by_tx[transaction_id],
                        key,
                    )
                },
            },
    {
        if self.by_session.contains_key(&key) {
            return Err(ClaimSessionError::Collision);
        }
        match self.by_tx.get(&transaction_id) {
            None => {
                return Err(ClaimSessionError::UnknownTransaction);
            },
            Some(e) => {
                if e.session_key.is_some() {
                    return Err(ClaimSessionError::AlreadyClaimed);
                }
            },
        }
        match max_distinct {
            Some(max) => {
                if self.distinct_sessions_on_channel(&key.channel_id) >= max {
                    return Err(ClaimSessionError::CapacityExceeded);
                }
            },
            None => {},
        }
        match self.by_tx.get_mut(&transaction_id) {
            Some(e) => {
                e.session_key = Some(key.clone());
                e.guard.set_session_id(key.session_id.clone());
            },
            None => {},
        }
        self.by_session.insert(key, transaction_id);
        proof {
            let before = old(self)@;
            let a = self.by_tx@;
            let s = self.by_session@;
            assert forall|k: (Seq<char>, Seq<char>)| #[trigger] s.dom().contains(k) implies
                a.dom().contains(s[k]) && session_of(a[s[k]]) == Some(k) by {
                if k != key@ {
                    assert(before.by_session.dom().contains(k));
                }
            }
            assert forall|tx: TransactionId| #[trigger]
                a.dom().contains(tx) && session_of(a[tx]) is Some implies s.dom().contains(
                session_of(a[tx])->0,
            ) && s[session_of(a[tx])->0] == tx by {
                if tx != transaction_id {
                    assert(before.by_tx.dom().contains(tx));
                }
            }
            assert forall|tx: TransactionId| #[trigger] a.dom().contains(tx) implies
                a[tx].transaction_id == tx by {
                assert(before.by_tx.dom().contains(tx));
            }
        }
        Ok(())
    }

    /// Ports to an actor by transaction id.
    pub fn control_tx(&self, id: &TransactionId) -> (r: Option<&P>)
        requires
            self.wf(),
        ensures
            match r {
                Some(p) => self@.by_tx.dom().contains(*id) && *p == self@.by_tx[*id].ports,
                None => !self@.by_tx.dom().contains(*id),
            },
    {
        match self.by_tx.get(id) {
            Some(e) => Some(&e.ports),
            None => None,
        }
    }

    /// Ports to an actor by session key.
    pub fn control_tx_by_session(&self, key: &SessionKey) -> (r: Option<&P>)
        requires
            self.wf(),
        ensures
            match r {
                Some(p) => self@.by_session.dom().contains(key@) && *p
                    == self@.by_tx[self@.by_session[key@]].ports,
                None => !self@.by_session.dom().contains(key@),
            },
    {
        match self.by_session.get(key) {
            Some(id) => {
                let id: TransactionId = *id;
                self.control_tx(&id)
            },
            None => None,
        }
    }

    /// Remove and return entry by transaction id.
    pub fn remove(&mut self, id: &TransactionId) -> (r: Option<ActiveTransaction<C, P>>)
        requires
            old(self).wf(),
        ensures
            final(self).wf(),
            final(self)@ == removed(old(self)@, *id),
            r == (if old(self)@.by_tx.dom().contains(*id) {
                Some(old(self)@.by_tx[*id])
            } else {
                None
            }),
    {
        match self.by_tx.remove(id) {
            None => {
                assert(self@.by_tx =~= old(self)@.by_tx);
                None
            },
            Some(entry) => {
                match &entry.session_key {
                    Some(k) => {
                        let _had = self.by_session.remove(k);
                    },
                    None => {},
                }
                proof {
                    lemma_removed_agree(old(self)@, *id);
                }
                Some(entry)
            },
        }
    }

    /// Snapshot transaction ids.
    pub fn transaction_ids(&self) -> (r: Vec<TransactionId>)
        requires
            self.wf(),
        ensures
            r@.no_duplicates(),
            forall|tx: TransactionId| #[trigger] r@.contains(tx) <==> self@.by_tx.dom().contains(tx),
    {
        proof {
            self.by_tx.lemma_order();
        }
        let ghost order = self.by_tx.order();
        let mut out: Vec<TransactionId> = Vec::new();
        let mut i: usize = 0;
        while i < self.by_tx.count()
            invariant
                order == self.by_tx.order(),
                i <= order.len(),
                out@.len() == i,
                forall|j: int| 0 <= j < i ==> out@[j] == (#[trigger] order[j]).0,
            decreases order.len() - i,
        {
            out.push(self.by_tx.at(i).0);
            i = i + 1;
        }
        proof {
            assert forall|a: int, b: int| 0 <= a < out@.len() && 0 <= b < out@.len() && a != b
                implies out@[a] != out@[b] by {
                assert(order[a].0@ != order[b].0@);
            }
            assert forall|tx: TransactionId| #[trigger] out@.contains(tx)
                <==> self@.by_tx.dom().contains(tx) by {
                if out@.contains(tx) {
                    let a = choose|a: int| 0 <= a < out@.len() && out@[a] == tx;
                    assert(order[a].0@ == tx);
                }
                if self@.by_tx.dom().contains(tx) {
                    let a = choose|a: int| 0 <= a < order.len() && (#[trigger] order[a]).0@ == tx;
                    assert(out@[a] == tx);
                }
            }
        }
        out
    }

    /// Drain all entries: each entry comes out once, and none is left.
    pub fn drain_all(&mut self) -> (r: Vec<(TransactionId, ActiveTransaction<C, P>)>)
        requires
            old(self).wf(),
        ensures
            final(self).wf(),
            final(self)@.by_tx == Map::<TransactionId, ActiveTransaction<C, P>>::empty(),
            final(self)@.by_session == Map::<(Seq<char>, Seq<char>), TransactionId>::empty(),
            r@.len() == old(self)@.by_tx.dom().len(),
            forall|i: int|
                0 <= i < r@.len() ==> old(self)@.by_tx.dom().contains((#[trigger] r@[i]).0)
                    && old(self)@.by_tx[r@[i].0] == r@[i].1,
            forall|tx: TransactionId| #[trigger]
                old(self)@.by_tx.dom().contains(tx) ==> exists|i: int|
                    0 <= i < r@.len() && (#[trigger] r@[i]).0 == tx,
    {
        proof {
            self.by_tx.lemma_order();
        }
        let ghost order = self.by_tx.order();
        let _sessions = self.by_session.drain();
        let out = self.by_tx.drain();
        proof {
            assert forall|tx: TransactionId| #[trigger] old(self)@.by_tx.dom().contains(tx) implies
                exists|i: int| 0 <= i < out@.len() && (#[trigger] out@[i]).0 == tx by {
                let i = choose|i: int| 0 <= i < order.len() && (#[trigger] order[i]).0@ == tx;
                assert(out@[i].0 == tx);
            }
        }
        out
    }

    /// Guard of an active transaction.
    pub fn guard(&self, id: &TransactionId) -> (r: Option<&FinalizationGuard<C>>)
        requires
            self.wf(),
        ensures
            match r {
                Some(g) => self@.by_tx.dom().contains(*id) && *g == self@.by_tx[*id].guard,
                None => !self@.by_tx.dom().contains(*id),
            },
    {
        match self.by_tx.get(id) {
            Some(e) => Some(&e.guard),
            None => None,
        }
    }
}

proof fn lemma_inserted_agree<C, P>(m: RegistryModel<C, P>, e: ActiveTransaction<C, P>)
    requires
        indexes_agree(m.by_tx, m.by_session),
        insert_refusal(m, e) is None,
    ensures
        indexes_agree(inserted(m, e).by_tx, inserted(m, e).by_session),
{
    let n = inserted(m, e);
    assert forall|k: (Seq<char>, Seq<char>)| #[trigger] n.by_session.dom().contains(k) implies
        n.by_tx.dom().contains(n.by_session[k]) && session_of(n.by_tx[n.by_session[k]]) == Some(
        k,
    ) by {
        if session_of(e) != Some(k) {
            assert(m.by_session.dom().contains(k));
        }
    }
    assert forall|tx: TransactionId| #[trigger]
        n.by_tx.dom().contains(tx) && session_of(n.by_tx[tx]) is Some implies
        n.by_session.dom().contains(session_of(n.by_tx[tx])->0)
        && n.by_session[session_of(n.by_tx[tx])->0] == tx by {
        if tx != e.transaction_id {
            assert(m.by_tx.dom().contains(tx));
        }
    }
    assert forall|tx: TransactionId| #[trigger] n.by_tx.dom().contains(tx) implies
        n.by_tx[tx].transaction_id == tx by {
        assert(tx == e.transaction_id || m.by_tx.dom().contains(tx));
    }
}

proof fn lemma_removed_agree<C, P>(m: RegistryModel<C, P>, tx: TransactionId)
    requires
        indexes_agree(m.by_tx, m.by_session),
        m.by_tx.dom().contains(tx),
    ensures
        indexes_agree(removed(m, tx).by_tx, removed(m, tx).by_session),
{
    let n = removed(m, tx);
    assert forall|k: (Seq<char>, Seq<char>)| #[trigger] n.by_session.dom().contains(k) implies
        n.by_tx.dom().contains(n.by_session[k]) && session_of(n.by_tx[n.by_session[k]]) == Some(
        k,
    ) by {
        assert(m.by_session.dom().contains(k));
    }
    assert forall|t: TransactionId| #[trigger]
        n.by_tx.dom().contains(t) && session_of(n.by_tx[t]) is Some implies
        n.by_session.dom().contains(session_of(n.by_tx[t])->0)
        && n.by_session[session_of(n.by_tx[t])->0] == t by {
        assert(m.by_tx.dom().contains(t));
        assert(m.by_session[session_of(m.by_tx[t])->0] == t);
    }
    assert forall|t: TransactionId| #[trigger] n.by_tx.dom().contains(t) implies
        n.by_tx[t].transaction_id == t by {
        assert(m.by_tx.dom().contains(t));
    }
}

/// Taking an entry out that was just put in restores the registry.
pub proof fn remove_undoes_insert<C, P>(m: RegistryModel<C, P>, e: ActiveTransaction<C, P>)
    requires
        insert_refusal(m, e) is None,
    ensures
        removed(inserted(m, e), e.transaction_id) == m,
{
    let n = removed(inserted(m, e), e.transaction_id);
    assert(n.by_tx =~= m.by_tx);
    assert(n.by_session =~= m.by_session);
}

/// Where the indexes agree, no two transactions have the same session.
pub proof fn sessions_are_exclusive<C, P>(
    by_tx: Map<TransactionId, ActiveTransaction<C, P>>,
    by_session: Map<(Seq<char>, Seq<char>), TransactionId>,
    a: TransactionId,
    b: TransactionId,
)
    requires
        indexes_agree(by_tx, by_session),
        by_tx.dom().contains(a),
        by_tx.dom().contains(b),
        session_of(by_tx[a]) is Some,
        session_of(by_tx[a]) == session_of(by_tx[b]),
    ensures
        a == b,
{
    assert(by_session[session_of(by_tx[a])->0] == a);
    assert(by_session[session_of(by_tx[b])->0] == b);
}

} // verus!
