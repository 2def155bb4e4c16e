//! Which session an event belongs to.
//!
//! A transaction without a session of its own gets a synthetic one, derived
//! from its identity. A real session replaces a synthetic one, never a real one.

use crate::identity::{uuid_text, uuid_text_is_injective, ExchangeId, TransactionId};
use crate::text::{after_prefix, join, join3, opt_text, strip_prefix};
use crate::transaction::types::{ChannelId, SessionId, SessionKey};
use vstd::prelude::*;
use vstd::string::StringExecFns;

verus! {

/// The synthetic session of a transaction.
pub open spec fn scoped_session(transaction_id: TransactionId) -> Seq<char> {
    "tx-"@ + transaction_id.text()
}

/// Whether a session is synthetic for a transaction: exactly its own one, or `direct`.
pub open spec fn is_scoped(session: Seq<char>, transaction_id: TransactionId) -> bool {
    session == "direct"@ || session == scoped_session(transaction_id)
}

/// The session for the next event: a preferred one where none or a synthetic
/// one is known, else the known one, else the synthetic one.
pub open spec fn resolved_session(
    current: Option<Seq<char>>,
    preferred: Option<Seq<char>>,
    transaction_id: TransactionId,
) -> Seq<char> {
    match (preferred, current) {
        (Some(p), None) => p,
        (Some(p), Some(c)) => if is_scoped(c, transaction_id) {
            p
        } else {
            c
        },
        (None, Some(c)) => c,
        (None, None) => scoped_session(transaction_id),
    }
}

/// Session of events that have none of their own. It is no identity to resume by.
pub fn transaction_scoped_session_id(transaction_id: TransactionId) -> (r: SessionId)
    ensures
        r@ == scoped_session(transaction_id),
{
    join("tx-", transaction_id.to_text().as_str())
}

/// Whether `id` is exactly the synthetic session of this transaction, or `direct`.
pub fn is_transaction_scoped_session(id: &SessionId, transaction_id: TransactionId) -> (r: bool)
    ensures
        r == is_scoped(id@, transaction_id),
{
    let direct: String = String::from_str("direct");
    if *id == direct {
        return true;
    }
    *id == transaction_scoped_session_id(transaction_id)
}

/// Key for tool results: the admitted session when present, else the synthetic one.
pub fn session_key_for(
    channel_id: ChannelId,
    session_id: Option<SessionId>,
    transaction_id: TransactionId,
) -> (r: SessionKey)
    ensures
        r.channel_id == channel_id,
        session_id is Some ==> r.session_id == session_id->0,
        session_id is None ==> r.session_id@ == scoped_session(transaction_id),
{
    let session_id = match session_id {
        Some(s) => s,
        None => transaction_scoped_session_id(transaction_id),
    };
    SessionKey { channel_id, session_id }
}

/// Resolves the session for one event and remembers it.
pub fn ensure_session(
    session: &mut Option<SessionId>,
    preferred: Option<SessionId>,
    transaction_id: TransactionId,
) -> (r: SessionId)
    ensures
        r@ == resolved_session(opt_text(*old(session)), opt_text(preferred), transaction_id),
        opt_text(*final(session)) == Some(r@),
{
    if let Some(s) = preferred {
        let upgrade: bool = match &*session {
            None => true,
            Some(cur) => is_transaction_scoped_session(cur, transaction_id),
        };
        if upgrade {
            *session = Some(s.clone());
            return s;
        }
    }
    match &*session {
        Some(s) => s.clone(),
        None => {
            let s = transaction_scoped_session_id(transaction_id);
            *session = Some(s.clone());
            s
        },
    }
}

/// Identity of a tool action, made unique by its exchange.
pub open spec fn exchange_action(exchange_id: ExchangeId, provider: Seq<char>) -> Seq<char> {
    exchange_id.text() + ":"@ + provider
}

/// Identity of a tool action, made unique by its exchange.
pub fn tool_action_id_for_exchange(exchange_id: ExchangeId, provider: &str) -> (r: String)
    ensures
        r@ == exchange_action(exchange_id, provider@),
{
    join3(exchange_id.to_text().as_str(), ":", provider)
}

/// The provider's part of a tool action's identity, where the identity is of
/// the exchange.
pub open spec fn provider_part(exchange_id: ExchangeId, action: Seq<char>) -> Option<Seq<char>> {
    after_prefix(action, exchange_id.text() + ":"@)
}

/// The provider's part of a tool action's identity.
pub fn provider_tool_call_id_from_action(exchange_id: ExchangeId, action: &str) -> (r: Option<
    String,
>)
    ensures
        opt_text(r) == provider_part(exchange_id, action@),
{
    strip_prefix(action, join(exchange_id.to_text().as_str(), ":").as_str())
}

/// The provider's identity of a call can be told from the action's identity.
pub proof fn provider_identity_is_recoverable(exchange_id: ExchangeId, provider: Seq<char>)
    ensures
        provider_part(exchange_id, exchange_action(exchange_id, provider)) == Some(provider),
{
    let p = exchange_id.text() + ":"@;
    let a = exchange_action(exchange_id, provider);
    assert(a =~= p + provider);
    assert(a.take(p.len() as int) =~= p);
    assert(a.skip(p.len() as int) =~= provider);
}

/// Calls of one exchange with different provider identities have different
/// actions, and so have calls of different exchanges with the same one.
pub proof fn action_identities_differ(
    e1: ExchangeId,
    e2: ExchangeId,
    p1: Seq<char>,
    p2: Seq<char>,
)
    requires
        exchange_action(e1, p1) == exchange_action(e2, p2),
    ensures
        e1 == e2,
        p1 == p2,
{
    let a = exchange_action(e1, p1);
    let b = exchange_action(e2, p2);
    assert(a.take(36) =~= uuid_text(e1.value));
    assert(b.take(36) =~= uuid_text(e2.value));
    uuid_text_is_injective(e1.value, e2.value);
    provider_identity_is_recoverable(e1, p1);
    provider_identity_is_recoverable(e2, p2);
}

/// A session that is not synthetic is never replaced.
pub proof fn authoritative_session_is_kept(
    current: Seq<char>,
    preferred: Option<Seq<char>>,
    transaction_id: TransactionId,
)
    requires
        !is_scoped(current, transaction_id),
    ensures
        resolved_session(Some(current), preferred, transaction_id) == current,
{
}

/// A synthetic session is replaced by the first preferred one.
pub proof fn synthetic_session_is_upgraded(preferred: Seq<char>, transaction_id: TransactionId)
    ensures
        resolved_session(None, None, transaction_id) == scoped_session(transaction_id),
        resolved_session(
            Some(scoped_session(transaction_id)),
            Some(preferred),
            transaction_id,
        ) == preferred,
{
}

/// Once resolved, a session stays for events that prefer none.
pub proof fn resolved_session_is_stable(
    current: Option<Seq<char>>,
    preferred: Option<Seq<char>>,
    transaction_id: TransactionId,
)
    ensures
        ({
            let s = resolved_session(current, preferred, transaction_id);
            resolved_session(Some(s), None, transaction_id) == s
        }),
{
}

/// The synthetic session of one transaction is not synthetic for another.
pub proof fn synthetic_sessions_differ(a: TransactionId, b: TransactionId)
    requires
        a != b,
    ensures
        scoped_session(a) != scoped_session(b),
        !is_scoped(scoped_session(a), b),
{
    let x = scoped_session(a);
    let y = scoped_session(b);
    reveal_strlit("tx-");
    reveal_strlit("direct");
    if x == y {
        assert(uuid_text(a.value) =~= x.subrange(3, x.len() as int));
        assert(uuid_text(b.value) =~= y.subrange(3, y.len() as int));
        uuid_text_is_injective(a.value, b.value);
    }
    assert(x.len() == 39);
    assert("direct"@.len() == 6);
}

} // verus!
