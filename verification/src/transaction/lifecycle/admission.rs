//! Synchronous admission: checks, reservation, ledger row, start queue.
//!
//! A refused request leaves no trace. An admitted one that the start queue
//! does not take is rolled back.

use crate::identity::{is_random_uuid, TransactionId};
use crate::messages::CanonicalMessage;
use crate::text::{clone_opt, list_contains, texts};
use crate::transaction::channel_registry::{
    ChannelBinding, ChannelRegistry, McpConfigurationCapability, ToolExecutionMode,
};
use crate::transaction::host_tools::{has_tool, HostToolRegistry, RegisteredTool};
use crate::transaction::lifecycle::capacity::{
    has_place, release_undoes_reserve, released, reserved, PoolModel,
};
use crate::transaction::lifecycle::ledger::{
    insert_refusal, session_held, session_of, sessions_full, HeldPorts, LedgerEntry,
    LedgerInsertError, TransactionPhase,
};
use crate::transaction::lifecycle::shared::{
    lemma_accounted_insert, lemma_row_holds, RuntimeShared, RuntimeState,
};
use crate::transaction::limits::TransactionLimits;
use crate::transaction::types::{ChannelId, SessionId, SessionKey, ToolId, TransactionUsage};
use vstd::prelude::*;

verus! {

/// Why a request was refused.
#[derive(Clone, Copy, Debug, PartialEq, Eq, Structural)]
pub enum AdmissionErrorKind {
    /// The runtime admits nothing.
    RuntimeShuttingDown,
    /// There is no such channel.
    UnknownChannel,
    /// The input is out of bounds.
    InvalidInput,
    /// The configuration is out of bounds.
    InvalidConfiguration,
    /// A tool is named twice.
    DuplicateTool,
    /// There is no such tool.
    UnknownTool,
    /// The channel cannot do what is asked.
    CapabilityMismatch,
    /// No place is left.
    CapacityExceeded,
    /// The session is in use.
    SessionAlreadyActive,
    /// The work could not be started.
    SpawnFailed,
}

/// A refusal.
#[derive(Clone, Copy, Debug, PartialEq, Eq)]
pub struct AdmissionError {
    /// Why.
    pub kind: AdmissionErrorKind,
    /// In words.
    pub message: &'static str,
}

/// A request.
#[derive(Clone, Debug)]
pub struct TransactionSubmitRequest {
    /// Channel.
    pub channel_id: ChannelId,
    /// Session to go on with.
    pub session_id: Option<SessionId>,
    /// Messages.
    pub messages: Vec<CanonicalMessage>,
    /// Tools.
    pub tools: Vec<ToolId>,
}

/// Receipt of an admission.
#[derive(Clone, Debug)]
pub struct AdmissionReceipt {
    /// Transaction.
    pub transaction_id: TransactionId,
    /// Session, where the request named one.
    pub session_id: Option<SessionId>,
}

/// What admission is measured by.
pub struct AdmissionRules<'a> {
    /// Channels.
    pub channels: &'a ChannelRegistry,
    /// Host tools.
    pub tools: &'a HostToolRegistry,
    /// Most tools of a transaction.
    pub max_tools: usize,
    /// Bounds.
    pub limits: TransactionLimits,
}

/// The first binding of a channel.
pub open spec fn binding_of(channels: Seq<ChannelBinding>, id: Seq<char>) -> Option<ChannelBinding>
    decreases channels.len(),
{
    if channels.len() == 0 {
        None
    } else if channels[0].id@ == id {
        Some(channels[0])
    } else {
        binding_of(channels.drop_first(), id)
    }
}

/// Whether any message has too many parts.
pub open spec fn too_many_parts(messages: Seq<CanonicalMessage>, max: usize) -> bool {
    exists|i: int| 0 <= i < messages.len() && (#[trigger] messages[i]).parts().len() > max
}

/// What is wrong with the selected tools, if anything: the first that is named
/// twice or not registered.
pub open spec fn tools_refusal(
    selected: Seq<ToolId>,
    tools: Seq<RegisteredTool>,
) -> Option<AdmissionError>
    decreases selected.len(),
{
    if selected.len() == 0 {
        None
    } else {
        match tools_refusal(selected.drop_last(), tools) {
            Some(e) => Some(e),
            None => if texts(selected.drop_last()).contains(selected.last()@) {
                Some(
                    AdmissionError {
                        kind: AdmissionErrorKind::DuplicateTool,
                        message: "duplicate tool id",
                    },
                )
            } else if !has_tool(tools, selected.last()@) {
                Some(
                    AdmissionError {
                        kind: AdmissionErrorKind::UnknownTool,
                        message: "unknown tool id",
                    },
                )
            } else {
                None
            },
        }
    }
}

/// Whether a channel takes a gateway only when a session is created.
pub open spec fn creation_only_gateway(b: ChannelBinding) -> bool {
    b.tool_mode == ToolExecutionMode::McpGateway && b.capabilities.mcp_configuration
        == McpConfigurationCapability::CreationOnly
}

/// What is wrong with a request in itself, if anything. `input_bytes` is the
/// size of its input, or `None` where that could not be told.
pub open spec fn request_refusal(
    rules: AdmissionRules<'_>,
    request: TransactionSubmitRequest,
    input_bytes: Option<usize>,
) -> Option<AdmissionError> {
    let binding = binding_of(rules.channels@, request.channel_id@);
    if binding is None {
        Some(
            AdmissionError {
                kind: AdmissionErrorKind::UnknownChannel,
                message: "unknown channel",
            },
        )
    } else if request.messages@.len() > rules.limits.max_messages {
        Some(
            AdmissionError {
                kind: AdmissionErrorKind::InvalidInput,
                message: "message count exceeds max_messages",
            },
        )
    } else if too_many_parts(request.messages@, rules.limits.max_content_parts) {
        Some(
            AdmissionError {
                kind: AdmissionErrorKind::InvalidInput,
                message: "content parts exceed max_content_parts",
            },
        )
    } else if input_bytes is None {
        Some(
            AdmissionError {
                kind: AdmissionErrorKind::InvalidInput,
                message: "canonical input byte estimate failed",
            },
        )
    } else if input_bytes->0 > rules.limits.max_input_bytes {
        Some(
            AdmissionError {
                kind: AdmissionErrorKind::InvalidInput,
                message: "canonical input exceeds max_input_bytes",
            },
        )
    } else if request.tools@.len() > rules.max_tools {
        Some(
            AdmissionError {
                kind: AdmissionErrorKind::InvalidConfiguration,
                message: "too many tools",
            },
        )
    } else if tools_refusal(request.tools@, rules.tools@) is Some {
        tools_refusal(request.tools@, rules.tools@)
    } else if request.session_id is Some && request.tools@.len() > 0 && creation_only_gateway(
        binding->0,
    ) {
        Some(
            AdmissionError {
                kind: AdmissionErrorKind::CapabilityMismatch,
                message: "CreationOnly rejects tool-enabled existing-session reuse",
            },
        )
    } else {
        None
    }
}

/// The session that a request asks for.
pub open spec fn requested_session(request: TransactionSubmitRequest) -> Option<
    (Seq<char>, Seq<char>),
> {
    match request.session_id {
        Some(s) => Some((request.channel_id@, s@)),
        None => None,
    }
}

/// Why a request is refused, if it is: by the runtime's state, by itself, for
/// want of places, or by the ledger, in this order.
pub open spec fn admission_refusal(
    state: RuntimeState,
    rows: Map<TransactionId, LedgerEntry>,
    pool: PoolModel,
    rules: AdmissionRules<'_>,
    request: TransactionSubmitRequest,
    input_bytes: Option<usize>,
    tx: TransactionId,
) -> Option<AdmissionError> {
    let session = requested_session(request);
    if state != RuntimeState::Accepting {
        Some(
            AdmissionError {
                kind: AdmissionErrorKind::RuntimeShuttingDown,
                message: "runtime not accepting",
            },
        )
    } else if request_refusal(rules, request, input_bytes) is Some {
        request_refusal(rules, request, input_bytes)
    } else if !has_place(pool, request.channel_id@) {
        Some(
            AdmissionError {
                kind: AdmissionErrorKind::CapacityExceeded,
                message: "capacity exceeded",
            },
        )
    } else if session is Some && session_held(rows, session->0) {
        Some(
            AdmissionError {
                kind: AdmissionErrorKind::SessionAlreadyActive,
                message: "session already active",
            },
        )
    } else if session is Some && sessions_full(
        rows,
        request.channel_id@,
        Some(binding_of(rules.channels@, request.channel_id@)->0.limits.max_distinct_sessions),
    ) {
        Some(
            AdmissionError {
                kind: AdmissionErrorKind::CapacityExceeded,
                message: "ledger insert failed",
            },
        )
    } else if rows.dom().contains(tx) {
        Some(
            AdmissionError {
                kind: AdmissionErrorKind::CapacityExceeded,
                message: "ledger insert failed",
            },
        )
    } else {
        None
    }
}

/// Whether a row is that of a request which was just admitted.
pub open spec fn is_queued_row(
    e: LedgerEntry,
    tx: TransactionId,
    request: TransactionSubmitRequest,
) -> bool {
    &&& e.transaction_id == tx
    &&& e.channel_id@ == request.channel_id@
    &&& session_of(e) == requested_session(request)
    &&& e.phase == TransactionPhase::Queued
    &&& e.terminal is None
    &&& e.pending_worker_proposal is None
    &&& e.event_sequence == 0
    &&& e.ports == (HeldPorts { delivery: true, completion: false, admission: false, seal: false })
    &&& !e.cancelled
    &&& e.reservations.channel() == request.channel_id@
}

/// What admission leaves behind, before the start queue was asked.
pub open spec fn admitted_or_refused(
    before: RuntimeShared,
    after: RuntimeShared,
    rules: AdmissionRules<'_>,
    request: TransactionSubmitRequest,
    input_bytes: Option<usize>,
    tx: TransactionId,
    r: Result<AdmissionReceipt, AdmissionError>,
) -> bool {
    &&& after == (RuntimeShared { ledger: after.ledger, pool: after.pool, ..before })
    &&& match admission_refusal(
        before.state,
        before.ledger@,
        before.pool@,
        rules,
        request,
        input_bytes,
        tx,
    ) {
        Some(e) => r == Err::<AdmissionReceipt, AdmissionError>(e) && after.ledger@
            == before.ledger@ && after.pool@ == before.pool@,
        None => {
            &&& r is Ok
            &&& r->Ok_0.transaction_id == tx
            &&& r->Ok_0.session_id == request.session_id
            &&& after.pool@ == reserved(before.pool@, request.channel_id@)
            &&& after.ledger@ == before.ledger@.insert(tx, after.ledger@[tx])
            &&& is_queued_row(after.ledger@[tx], tx, request)
        },
    }
}

fn refuse(kind: AdmissionErrorKind, message: &'static str) -> (r: AdmissionError)
    ensures
        r == (AdmissionError { kind, message }),
{
    AdmissionError { kind, message }
}

pub(crate) fn find_binding<'a>(channels: &'a ChannelRegistry, id: &ChannelId) -> (r: Option<
    &'a ChannelBinding,
>)
    ensures
        match r {
            Some(b) => binding_of(channels@, id@) == Some(*b),
            None => binding_of(channels@, id@) is None,
        },
{
    let all = channels.iter();
    let mut i: usize = 0;
    assert(all@.skip(0) =~= all@);
    while i < all.len()
        invariant
            all@ == channels@,
            i <= all.len(),
            binding_of(channels@, id@) == binding_of(all@.skip(i as int), id@),
        decreases all.len() - i,
    {
        if all[i].id == *id {
            assert(all@.skip(i as int)[0] == all@[i as int]);
            return Some(&all[i]);
        }
        assert(all@.skip(i as int).drop_first() =~= all@.skip(i as int + 1));
        i = i + 1;
    }
    None
}

pub(crate) fn check_tools(selected: &Vec<ToolId>, tools: &HostToolRegistry) -> (r: Option<AdmissionError>)
    ensures
        r == tools_refusal(selected@, tools@),
{
    let mut seen: Vec<ToolId> = Vec::new();
    let mut i: usize = 0;
    assert(selected@.take(0) =~= Seq::<ToolId>::empty());
    while i < selected.len()
        invariant
            i <= selected.len(),
            seen@ == selected@.take(i as int),
            tools_refusal(selected@.take(i as int), tools@) is None,
        decreases selected.len() - i,
    {
        let ghost t = selected@.take(i as int + 1);
        assert(t.drop_last() =~= selected@.take(i as int));
        assert(t.last() == selected@[i as int]);
        if list_contains(&seen, &selected[i]) {
            let e = refuse(AdmissionErrorKind::DuplicateTool, "duplicate tool id");
            proof {
                lemma_refusal_persists(selected@, tools@, i as int + 1, e);
            }
            return Some(e);
        }
        if tools.get(&selected[i]).is_none() {
            let e = refuse(AdmissionErrorKind::UnknownTool, "unknown tool id");
            proof {
                lemma_refusal_persists(selected@, tools@, i as int + 1, e);
            }
            return Some(e);
        }
        assert(has_tool(tools@, selected@[i as int]@));
        seen.push(selected[i].clone());
        assert(seen@ =~= t);
        i = i + 1;
    }
    assert(selected@.take(i as int) =~= selected@);
    None
}

proof fn lemma_refusal_persists(
    selected: Seq<ToolId>,
    tools: Seq<RegisteredTool>,
    n: int,
    e: AdmissionError,
)
    requires
        0 <= n <= selected.len(),
        tools_refusal(selected.take(n), tools) == Some(e),
    ensures
        tools_refusal(selected, tools) == Some(e),
    decreases selected.len() - n,
{
    if n == selected.len() {
        assert(selected.take(n) =~= selected);
    } else {
        assert(selected.take(n + 1).drop_last() =~= selected.take(n));
        lemma_refusal_persists(selected, tools, n + 1, e);
    }
}

pub(crate) fn check_parts(messages: &Vec<CanonicalMessage>, max: usize) -> (r: bool)
    ensures
        r == too_many_parts(messages@, max),
{
    let mut i: usize = 0;
    while i < messages.len()
        invariant
            i <= messages.len(),
            forall|j: int| 0 <= j < i ==> (#[trigger] messages@[j]).parts().len() <= max,
        decreases messages.len() - i,
    {
        if messages[i].content().len() > max {
            assert(messages@[i as int].parts().len() > max);
            return true;
        }
        i = i + 1;
    }
    false
}

/// Checks a request in itself.
pub fn check_request(
    rules: &AdmissionRules<'_>,
    request: &TransactionSubmitRequest,
    input_bytes: Option<usize>,
) -> (r: Option<AdmissionError>)
    ensures
        r == request_refusal(*rules, *request, input_bytes),
{
    let creation_only: bool = match find_binding(rules.channels, &request.channel_id) {
        None => {
            return Some(refuse(AdmissionErrorKind::UnknownChannel, "unknown channel"));
        },
        Some(b) => b.tool_mode == ToolExecutionMode::McpGateway && b.capabilities.mcp_configuration
            == McpConfigurationCapability::CreationOnly,
    };
    if request.messages.len() > rules.limits.max_messages {
        return Some(
            refuse(AdmissionErrorKind::InvalidInput, "message count exceeds max_messages"),
        );
    }
    if check_parts(&request.messages, rules.limits.max_content_parts) {
        return Some(
            refuse(AdmissionErrorKind::InvalidInput, "content parts exceed max_content_parts"),
        );
    }
    match input_bytes {
        None => {
            return Some(
                refuse(AdmissionErrorKind::InvalidInput, "canonical input byte estimate failed"),
            );
        },
        Some(bytes) => {
            if bytes > rules.limits.max_input_bytes {
                return Some(
                    refuse(
                        AdmissionErrorKind::InvalidInput,
                        "canonical input exceeds max_input_bytes",
                    ),
                );
            }
        },
    }
    if request.tools.len() > rules.max_tools {
        return Some(refuse(AdmissionErrorKind::InvalidConfiguration, "too many tools"));
    }
    match check_tools(&request.tools, rules.tools) {
        Some(e) => {
            return Some(e);
        },
        None => {},
    }
    if request.session_id.is_some() && request.tools.len() > 0 && creation_only {
        return Some(
            refuse(
                AdmissionErrorKind::CapabilityMismatch,
                "CreationOnly rejects tool-enabled existing-session reuse",
            ),
        );
    }
    None
}

/// Admits a request under a given identity. The receipt is good once the start
/// queue took the transaction; see [`start_queue_answered`].
pub fn admit_as(
    shared: &mut RuntimeShared,
    rules: &AdmissionRules<'_>,
    request: &TransactionSubmitRequest,
    input_bytes: Option<usize>,
    tx: TransactionId,
) -> (r: Result<AdmissionReceipt, AdmissionError>)
    requires
        old(shared).wf(),
    ensures
        final(shared).wf(),
        admitted_or_refused(*old(shared), *final(shared), *rules, *request, input_bytes, tx, r),
{
    if shared.state != RuntimeState::Accepting {
        return Err(refuse(AdmissionErrorKind::RuntimeShuttingDown, "runtime not accepting"));
    }
    match check_request(rules, request, input_bytes) {
        Some(e) => {
            return Err(e);
        },
        None => {},
    }
    let ghost rows0 = shared.ledger@;
    let ghost pool0 = shared.pool@;
    proof {
        shared.pool.bounded();
    }
    let reservations = match shared.pool.try_reserve(&request.channel_id) {
        Some(held) => held,
        None => {
            return Err(refuse(AdmissionErrorKind::CapacityExceeded, "capacity exceeded"));
        },
    };
    proof {
        release_undoes_reserve(pool0, request.channel_id@);
    }
    let session_key: Option<SessionKey> = match &request.session_id {
        Some(sid) => Some(
            SessionKey { channel_id: request.channel_id.clone(), session_id: sid.clone() },
        ),
        None => None,
    };
    match &session_key {
        Some(key) => {
            if shared.ledger.session_active(key) {
                reservations.release(&mut shared.pool);
                return Err(
                    refuse(AdmissionErrorKind::SessionAlreadyActive, "session already active"),
                );
            }
        },
        None => {},
    }
    let max_distinct: Option<usize> = match find_binding(rules.channels, &request.channel_id) {
        Some(b) => Some(b.limits.max_distinct_sessions),
        None => None,
    };
    let entry = LedgerEntry {
        transaction_id: tx,
        channel_id: request.channel_id.clone(),
        session_key,
        phase: TransactionPhase::Queued,
        terminal: None,
        pending_worker_proposal: None,
        event_sequence: 0,
        ports: HeldPorts { delivery: true, completion: false, admission: false, seal: false },
        cancelled: false,
        reservations,
        usage: TransactionUsage,
    };
    match shared.ledger.insert_queued(entry, max_distinct) {
        Err(refused) => {
            let kind = match refused.0 {
                LedgerInsertError::SessionAlreadyActive => AdmissionErrorKind::SessionAlreadyActive,
                LedgerInsertError::DistinctSessionsExceeded
                | LedgerInsertError::DuplicateTransaction
                | LedgerInsertError::UnknownTransaction => AdmissionErrorKind::CapacityExceeded,
            };
            refused.1.reservations.release(&mut shared.pool);
            Err(refuse(kind, "ledger insert failed"))
        },
        Ok(()) => {
            proof {
                lemma_accounted_insert(rows0, pool0, tx, entry);
            }
            Ok(
                AdmissionReceipt {
                    transaction_id: tx,
                    session_id: clone_opt(&request.session_id),
                },
            )
        },
    }
}

/// Admits a request under a fresh random identity.
pub fn admit_transaction(
    shared: &mut RuntimeShared,
    rules: &AdmissionRules<'_>,
    request: &TransactionSubmitRequest,
    input_bytes: Option<usize>,
) -> (r: Result<AdmissionReceipt, AdmissionError>)
    requires
        old(shared).wf(),
    ensures
        final(shared).wf(),
        exists|tx: TransactionId|
            is_random_uuid(tx.value) && #[trigger] admitted_or_refused(
                *old(shared),
                *final(shared),
                *rules,
                *request,
                input_bytes,
                tx,
                r,
            ),
{
    let tx = TransactionId::generate();
    admit_as(shared, rules, request, input_bytes, tx)
}

/// The start queue took the transaction or did not. Where it did not, the row
/// and its places are taken back.
pub fn start_queue_answered(
    shared: &mut RuntimeShared,
    receipt: AdmissionReceipt,
    taken: bool,
) -> (r: Result<AdmissionReceipt, AdmissionError>)
    requires
        old(shared).wf(),
    ensures
        final(shared).wf(),
        taken ==> r == Ok::<AdmissionReceipt, AdmissionError>(receipt) && *final(shared) == *old(
            shared),
        !taken ==> {
            &&& r == Err::<AdmissionReceipt, AdmissionError>(
                AdmissionError {
                    kind: AdmissionErrorKind::SpawnFailed,
                    message: "supervisor start queue full",
                },
            )
            &&& final(shared).ledger@ == old(shared).ledger@.remove(receipt.transaction_id)
            &&& final(shared).pool@ == (if old(shared).ledger@.dom().contains(
                receipt.transaction_id,
            ) {
                released(
                    old(shared).pool@,
                    old(shared).ledger@[receipt.transaction_id].channel_id@,
                )
            } else {
                old(shared).pool@
            })
            &&& *final(shared) == (RuntimeShared {
                ledger: final(shared).ledger,
                pool: final(shared).pool,
                ..*old(shared)
            })
        },
{
    if taken {
        return Ok(receipt);
    }
    let _gone = shared.remove_row(&receipt.transaction_id);
    Err(refuse(AdmissionErrorKind::SpawnFailed, "supervisor start queue full"))
}

/// An admission that the start queue does not take leaves rows and places as
/// they were.
pub proof fn rollback_restores(
    before: RuntimeShared,
    after: RuntimeShared,
    rules: AdmissionRules<'_>,
    request: TransactionSubmitRequest,
    input_bytes: Option<usize>,
    tx: TransactionId,
    receipt: AdmissionReceipt,
)
    requires
        admitted_or_refused(
            before,
            after,
            rules,
            request,
            input_bytes,
            tx,
            Ok::<AdmissionReceipt, AdmissionError>(receipt),
        ),
    ensures
        after.ledger@.remove(receipt.transaction_id) == before.ledger@,
        released(after.pool@, after.ledger@[receipt.transaction_id].channel_id@) == before.pool@,
{
    assert(after.ledger@.remove(tx) =~= before.ledger@);
    release_undoes_reserve(before.pool@, request.channel_id@);
}

/// Once admission is closed, every request is refused and nothing changes.
pub proof fn closed_runtime_refuses(
    before: RuntimeShared,
    after: RuntimeShared,
    rules: AdmissionRules<'_>,
    request: TransactionSubmitRequest,
    input_bytes: Option<usize>,
    tx: TransactionId,
    r: Result<AdmissionReceipt, AdmissionError>,
)
    requires
        before.state != RuntimeState::Accepting,
        admitted_or_refused(before, after, rules, request, input_bytes, tx, r),
    ensures
        r is Err,
        r->Err_0.kind == AdmissionErrorKind::RuntimeShuttingDown,
        after.ledger@ == before.ledger@,
        after.pool@ == before.pool@,
{
}

/// With every place of the runtime taken, one more request is refused.
pub proof fn one_more_than_capacity_is_refused(
    before: RuntimeShared,
    after: RuntimeShared,
    rules: AdmissionRules<'_>,
    request: TransactionSubmitRequest,
    input_bytes: Option<usize>,
    tx: TransactionId,
    r: Result<AdmissionReceipt, AdmissionError>,
)
    requires
        before.wf(),
        before.state == RuntimeState::Accepting,
        before.ledger@.dom().len() == before.pool@.max_global,
        request_refusal(rules, request, input_bytes) is None,
        admitted_or_refused(before, after, rules, request, input_bytes, tx, r),
    ensures
        r == Err::<AdmissionReceipt, AdmissionError>(
            AdmissionError {
                kind: AdmissionErrorKind::CapacityExceeded,
                message: "capacity exceeded",
            },
        ),
{
}

/// A session that is in use is refused to a second request, and nothing changes.
pub proof fn second_request_for_session_is_refused(
    before: RuntimeShared,
    after: RuntimeShared,
    rules: AdmissionRules<'_>,
    request: TransactionSubmitRequest,
    input_bytes: Option<usize>,
    tx: TransactionId,
    r: Result<AdmissionReceipt, AdmissionError>,
)
    requires
        before.state == RuntimeState::Accepting,
        request_refusal(rules, request, input_bytes) is None,
        has_place(before.pool@, request.channel_id@),
        requested_session(request) is Some,
        session_held(before.ledger@, requested_session(request)->0),
        admitted_or_refused(before, after, rules, request, input_bytes, tx, r),
    ensures
        r is Err,
        r->Err_0.kind == AdmissionErrorKind::SessionAlreadyActive,
        after.ledger@ == before.ledger@,
        after.pool@ == before.pool@,
{
}

} // verus!
