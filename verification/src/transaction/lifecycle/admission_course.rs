//! Which requests are admitted, what they get, and why the others are refused.

use crate::identity::TransactionId;
use crate::messages::CanonicalMessage;
use crate::transaction::channel_registry::{
    ChannelBinding, McpConfigurationCapability, ToolExecutionMode,
};
use crate::transaction::host_tools::{has_tool, RegisteredTool};
use crate::transaction::lifecycle::admission::{
    admission_refusal, admitted_or_refused, binding_of, creation_only_gateway, request_refusal,
    too_many_parts, tools_refusal, AdmissionError, AdmissionErrorKind, AdmissionReceipt,
    AdmissionRules, TransactionSubmitRequest,
};
use crate::transaction::lifecycle::capacity::{has_place, released, reserved, PoolModel};
use crate::transaction::lifecycle::ledger::{
    bind_refusal, holds_session, insert_refusal, session_held, session_of, sessions_on, LedgerEntry,
    LedgerInsertError, TransactionPhase,
};
use crate::transaction::lifecycle::shared::{RuntimeShared, RuntimeState};
use crate::transaction::types::ToolId;
use vstd::prelude::*;

verus! {

/// A channel is found by its identity: the first one that has it, and none only
/// where none has it.
pub proof fn channel_is_found_by_its_identity(
    channels: Seq<ChannelBinding>,
    id: Seq<char>,
    k: int,
)
    ensures
        binding_of(channels, id) is None <==> forall|i: int|
            0 <= i < channels.len() ==> (#[trigger] channels[i]).id@ != id,
        0 <= k < channels.len() && channels[k].id@ == id && (forall|j: int|
            0 <= j < k ==> (#[trigger] channels[j]).id@ != id) ==> binding_of(channels, id) == Some(
            channels[k],
        ),
        binding_of(channels, id) matches Some(b) ==> b.id@ == id,
    decreases channels.len(),
{
    if channels.len() > 0 {
        let rest = channels.drop_first();
        channel_is_found_by_its_identity(rest, id, k - 1);
        assert forall|i: int| 0 <= i < rest.len() implies #[trigger] rest[i] == channels[i + 1] by {}
        if channels[0].id@ != id {
            if forall|i: int| 0 <= i < rest.len() ==> (#[trigger] rest[i]).id@ != id {
                assert forall|i: int| 0 <= i < channels.len() implies (
                #[trigger] channels[i]).id@ != id by {
                    if i > 0 {
                        assert(rest[i - 1].id@ != id);
                    }
                }
            }
            if forall|i: int| 0 <= i < channels.len() ==> (#[trigger] channels[i]).id@ != id {
                assert forall|i: int| 0 <= i < rest.len() implies (#[trigger] rest[i]).id@
                    != id by {
                    assert(channels[i + 1].id@ != id);
                }
            }
            if 0 <= k < channels.len() && channels[k].id@ == id && (forall|j: int|
                0 <= j < k ==> (#[trigger] channels[j]).id@ != id) {
                assert(rest[k - 1] == channels[k]);
                assert forall|j: int| 0 <= j < k - 1 implies (#[trigger] rest[j]).id@ != id by {
                    assert(channels[j + 1].id@ != id);
                }
            }
        } else {
            assert(channels[0].id@ == id);
        }
    }
}

/// Whether a request names no tool twice.
pub open spec fn tools_differ(selected: Seq<ToolId>) -> bool {
    forall|i: int, j: int|
        0 <= i < j < selected.len() ==> (#[trigger] selected[i])@ != (#[trigger] selected[j])@
}

/// Whether every tool that a request names is registered.
pub open spec fn tools_are_registered(
    selected: Seq<ToolId>,
    tools: Seq<RegisteredTool>,
) -> bool {
    forall|i: int|
        0 <= i < selected.len() ==> exists|k: int|
            0 <= k < tools.len() && (#[trigger] tools[k]).tool().id@ == (#[trigger] selected[i])@
}

/// Tools are accepted exactly where none is named twice and each is registered; a
/// refusal says which of the two it was.
pub proof fn tools_are_accepted_iff_known_and_different(
    selected: Seq<ToolId>,
    tools: Seq<RegisteredTool>,
)
    ensures
        tools_refusal(selected, tools) is None <==> tools_differ(selected)
            && tools_are_registered(selected, tools),
        tools_refusal(selected, tools) matches Some(e) ==> {
            &&& e.kind == AdmissionErrorKind::DuplicateTool || e.kind
                == AdmissionErrorKind::UnknownTool
            &&& e.kind == AdmissionErrorKind::DuplicateTool ==> !tools_differ(selected)
            &&& e.kind == AdmissionErrorKind::UnknownTool ==> !tools_are_registered(
                selected,
                tools,
            )
        },
    decreases selected.len(),
{
    if selected.len() > 0 {
        let before = selected.drop_last();
        let n = selected.len() - 1;
        tools_are_accepted_iff_known_and_different(before, tools);
        assert forall|i: int| 0 <= i < n implies #[trigger] before[i] == selected[i] by {}
        if tools_differ(selected) {
            assert forall|i: int, j: int| 0 <= i < j < before.len() implies (
            #[trigger] before[i])@ != (#[trigger] before[j])@ by {
                assert(selected[i]@ != selected[j]@);
            }
        }
        if tools_are_registered(selected, tools) {
            assert forall|i: int| 0 <= i < before.len() implies exists|k: int|
                0 <= k < tools.len() && (#[trigger] tools[k]).tool().id@ == (
                #[trigger] before[i])@ by {
                assert(selected[i] == before[i]);
            }
        }
        let last = selected.last()@;
        let names = crate::text::texts(before);
        assert(selected[n]@ == last);
        assert(names.contains(last) <==> exists|i: int|
            0 <= i < before.len() && (#[trigger] before[i])@ == last) by {
            if names.contains(last) {
                let i = choose|i: int| 0 <= i < names.len() && names[i] == last;
                assert(before[i]@ == last);
            }
            if exists|i: int| 0 <= i < before.len() && (#[trigger] before[i])@ == last {
                let i = choose|i: int| 0 <= i < before.len() && (#[trigger] before[i])@ == last;
                assert(names[i] == last);
            }
        }
        if tools_refusal(before, tools) is None {
            if names.contains(last) {
                let i = choose|i: int| 0 <= i < before.len() && (#[trigger] before[i])@ == last;
                assert(selected[i]@ == selected[n]@);
            } else {
                assert forall|i: int, j: int| 0 <= i < j < selected.len() implies (
                #[trigger] selected[i])@ != (#[trigger] selected[j])@ by {
                    if j == n {
                        assert(before[i]@ != last);
                    } else {
                        assert(before[i]@ != before[j]@);
                    }
                }
                if has_tool(tools, last) {
                    assert forall|i: int| 0 <= i < selected.len() implies exists|k: int|
                        0 <= k < tools.len() && (#[trigger] tools[k]).tool().id@ == (
                        #[trigger] selected[i])@ by {
                        if i < n {
                            assert(before[i] == selected[i]);
                        }
                    }
                } else {
                    assert(!tools_are_registered(selected, tools)) by {
                        if tools_are_registered(selected, tools) {
                            assert(selected[n]@ == last);
                            let k = choose|k: int|
                                0 <= k < tools.len() && (#[trigger] tools[k]).tool().id@
                                    == selected[n]@;
                            assert(tools[k].tool().id@ == last);
                        }
                    }
                }
            }
        }
    }
}

/// Whether a request is in order: its channel is known, its input and its tools
/// are within bounds, its tools are known and different, and it does not bring
/// tools to an old session of a channel that takes them only when a session is
/// created.
pub open spec fn is_in_order(
    rules: AdmissionRules<'_>,
    request: TransactionSubmitRequest,
    input_bytes: Option<usize>,
) -> bool {
    &&& binding_of(rules.channels@, request.channel_id@) is Some
    &&& request.messages@.len() <= rules.limits.max_messages
    &&& forall|i: int|
        0 <= i < request.messages@.len() ==> (#[trigger] request.messages@[i]).parts().len()
            <= rules.limits.max_content_parts
    &&& input_bytes is Some && input_bytes->0 <= rules.limits.max_input_bytes
    &&& request.tools@.len() <= rules.max_tools
    &&& tools_differ(request.tools@)
    &&& tools_are_registered(request.tools@, rules.tools@)
    &&& !(request.session_id is Some && request.tools@.len() > 0 && ({
        let b = binding_of(rules.channels@, request.channel_id@)->0;
        b.tool_mode == ToolExecutionMode::McpGateway && b.capabilities.mcp_configuration
            == McpConfigurationCapability::CreationOnly
    }))
}

/// A request passes the checks exactly where it is in order; what is wrong with
/// another one is what the refusal says.
pub proof fn request_passes_iff_in_order(
    rules: AdmissionRules<'_>,
    request: TransactionSubmitRequest,
    input_bytes: Option<usize>,
)
    ensures
        request_refusal(rules, request, input_bytes) is None <==> is_in_order(
            rules,
            request,
            input_bytes,
        ),
        request_refusal(rules, request, input_bytes) matches Some(e) ==> {
            &&& e.kind == AdmissionErrorKind::UnknownChannel <==> binding_of(
                rules.channels@,
                request.channel_id@,
            ) is None
            &&& e.kind == AdmissionErrorKind::InvalidInput ==> request.messages@.len()
                > rules.limits.max_messages || too_many_parts(
                request.messages@,
                rules.limits.max_content_parts,
            ) || input_bytes is None || input_bytes->0 > rules.limits.max_input_bytes
            &&& e.kind == AdmissionErrorKind::InvalidConfiguration ==> request.tools@.len()
                > rules.max_tools
            &&& e.kind == AdmissionErrorKind::DuplicateTool ==> !tools_differ(request.tools@)
            &&& e.kind == AdmissionErrorKind::UnknownTool ==> !tools_are_registered(
                request.tools@,
                rules.tools@,
            )
            &&& e.kind == AdmissionErrorKind::CapabilityMismatch ==> request.session_id is Some
                && request.tools@.len() > 0
            &&& e.kind != AdmissionErrorKind::RuntimeShuttingDown
            &&& e.kind != AdmissionErrorKind::CapacityExceeded
            &&& e.kind != AdmissionErrorKind::SessionAlreadyActive
            &&& e.kind != AdmissionErrorKind::SpawnFailed
        },
{
    tools_are_accepted_iff_known_and_different(request.tools@, rules.tools@);
}

/// A request is admitted exactly where it is owed a place: the runtime takes
/// requests, the request is in order, there is a place in the runtime, on the
/// channel and in the ledger, and its session, where it names one, is free and not
/// one too many. An admitted request is queued under its identity with its channel
/// and its session, nothing of it has begun, and it takes one place of each kind; a
/// refused one leaves no trace.
pub proof fn request_is_admitted_iff_owed(
    before: RuntimeShared,
    after: RuntimeShared,
    rules: AdmissionRules<'_>,
    request: TransactionSubmitRequest,
    input_bytes: Option<usize>,
    tx: TransactionId,
    r: Result<AdmissionReceipt, AdmissionError>,
)
    requires
        admitted_or_refused(before, after, rules, request, input_bytes, tx, r),
        before.pool@.global_active < usize::MAX,
        before.pool@.ledger_active < usize::MAX,
        before.pool@.channels[request.channel_id@].active < usize::MAX,
    ensures
        ({
            let channel = request.channel_id@;
            let slot = before.pool@.channels[channel];
            let place = before.pool@.channels.dom().contains(channel) && slot.active < slot.max
                && before.pool@.global_active < before.pool@.max_global
                && before.pool@.ledger_active < before.pool@.max_global;
            let session_free = match request.session_id {
                None => true,
                Some(s) => !session_held(before.ledger@, (channel, s@)) && sessions_on(
                    before.ledger@,
                    channel,
                ) < binding_of(rules.channels@, channel)->0.limits.max_distinct_sessions,
            };
            r is Ok <==> before.state == RuntimeState::Accepting && is_in_order(
                rules,
                request,
                input_bytes,
            ) && place && session_free && !before.ledger@.dom().contains(tx)
        }),
        r matches Ok(receipt) ==> {
            let channel = request.channel_id@;
            let row = after.ledger@[tx];
            &&& receipt.transaction_id == tx
            &&& receipt.session_id == request.session_id
            &&& after.ledger@.dom() == before.ledger@.dom().insert(tx)
            &&& forall|t: TransactionId|
                t != tx && before.ledger@.dom().contains(t) ==> #[trigger] after.ledger@[t]
                    == before.ledger@[t]
            &&& row.transaction_id == tx
            &&& row.channel_id@ == channel
            &&& session_of(row) == (match request.session_id {
                Some(s) => Some((channel, s@)),
                None => None,
            })
            &&& row.phase == TransactionPhase::Queued
            &&& row.terminal is None
            &&& row.pending_worker_proposal is None
            &&& !row.cancelled
            &&& row.ports.delivery
            &&& !row.ports.seal
            &&& after.pool@.global_active == before.pool@.global_active + 1
            &&& after.pool@.ledger_active == before.pool@.ledger_active + 1
            &&& after.pool@.channels[channel].active == before.pool@.channels[channel].active + 1
            &&& after.pool@.max_global == before.pool@.max_global
        },
        r is Err ==> after.ledger@ == before.ledger@ && after.pool@ == before.pool@,
        after.state == before.state,
        after.counters == before.counters,
{
    request_passes_iff_in_order(rules, request, input_bytes);
    if r is Ok {
        assert(after.ledger@.dom() =~= before.ledger@.dom().insert(tx));
    }
}

/// A refusal by the runtime says what stood against the request.
pub proof fn refusal_is_told(
    state: RuntimeState,
    rows: Map<TransactionId, LedgerEntry>,
    pool: PoolModel,
    rules: AdmissionRules<'_>,
    request: TransactionSubmitRequest,
    input_bytes: Option<usize>,
    tx: TransactionId,
)
    ensures
        ({
            let e = admission_refusal(state, rows, pool, rules, request, input_bytes, tx);
            &&& state != RuntimeState::Accepting <==> (e is Some && e->0.kind
                == AdmissionErrorKind::RuntimeShuttingDown)
            &&& state == RuntimeState::Accepting && is_in_order(rules, request, input_bytes)
                && !has_place(pool, request.channel_id@) ==> e is Some && e->0.kind
                == AdmissionErrorKind::CapacityExceeded
            &&& e is Some && e->0.kind == AdmissionErrorKind::SessionAlreadyActive ==> (
            request.session_id is Some && session_held(
                rows,
                (request.channel_id@, request.session_id->0@),
            ))
        }),
{
    request_passes_iff_in_order(rules, request, input_bytes);
}

/// A place is taken and given back on the channel that it is for, and on no
/// other.
pub proof fn place_is_on_its_channel(m: PoolModel, channel: Seq<char>, other: Seq<char>)
    requires
        m.global_active < usize::MAX,
        m.ledger_active < usize::MAX,
        m.channels[channel].active < usize::MAX,
    ensures
        has_place(m, channel) <==> m.channels.dom().contains(channel) && m.global_active
            < m.max_global && m.ledger_active < m.max_global && m.channels[channel].active
            < m.channels[channel].max,
        reserved(m, channel).global_active == m.global_active + 1,
        reserved(m, channel).ledger_active == m.ledger_active + 1,
        reserved(m, channel).channels[channel].active == m.channels[channel].active + 1,
        reserved(m, channel).channels[channel].max == m.channels[channel].max,
        other != channel ==> reserved(m, channel).channels[other] == m.channels[other]
            && released(m, channel).channels[other] == m.channels[other],
        m.global_active > 0 && m.ledger_active > 0 && m.channels[channel].active > 0 ==> released(
            m,
            channel,
        ).global_active == m.global_active - 1 && released(m, channel).ledger_active
            == m.ledger_active - 1 && released(m, channel).channels[channel].active
            == m.channels[channel].active - 1,
{
}

/// A row is taken into the ledger exactly where its transaction is new and its
/// session, where it has one, is free and not one too many.
pub proof fn row_is_taken_iff_its_session_is_free(
    rows: Map<TransactionId, LedgerEntry>,
    entry: LedgerEntry,
    max_distinct: Option<usize>,
)
    ensures
        insert_refusal(rows, entry, max_distinct) is None <==> {
            &&& !rows.dom().contains(entry.transaction_id)
            &&& session_of(entry) matches Some(key) ==> (forall|t: TransactionId|
                rows.dom().contains(t) ==> session_of(#[trigger] rows[t]) != Some(key)) && (
            max_distinct is Some ==> sessions_on(rows, key.0) < max_distinct->0)
        },
        insert_refusal(rows, entry, max_distinct) == Some(LedgerInsertError::SessionAlreadyActive)
            <==> session_of(entry) is Some && exists|t: TransactionId|
            rows.dom().contains(t) && session_of(#[trigger] rows[t]) == session_of(entry),
{
    if session_of(entry) is Some {
        let key = session_of(entry)->0;
        if session_held(rows, key) {
            let t = choose|t: TransactionId| holds_session(rows, t, key);
            assert(session_of(rows[t]) == Some(key));
        }
        assert forall|t: TransactionId|
            rows.dom().contains(t) && session_of(#[trigger] rows[t]) == Some(
                key,
            ) implies session_held(rows, key) by {
            assert(holds_session(rows, t, key));
        }
    }
}

/// A transaction gets a session exactly where it is there and either holds that
/// session already, or holds none while the session is free and not one too many.
pub proof fn session_is_bound_iff_free(
    rows: Map<TransactionId, LedgerEntry>,
    tx: TransactionId,
    key: (Seq<char>, Seq<char>),
    max_distinct: Option<usize>,
)
    ensures
        bind_refusal(rows, tx, key, max_distinct) is None <==> rows.dom().contains(tx) && (
        session_of(rows[tx]) == Some(key) || (session_of(rows[tx]) is None && !session_held(
            rows,
            key,
        ) && (max_distinct is Some ==> sessions_on(rows, key.0) < max_distinct->0))),
        bind_refusal(rows, tx, key, max_distinct) == Some(LedgerInsertError::UnknownTransaction)
            <==> !rows.dom().contains(tx),
{
}

/// A channel takes tools through its gateway only at creation exactly where it
/// says so.
pub proof fn creation_only_is_what_the_channel_says(
    b: ChannelBinding,
    messages: Seq<CanonicalMessage>,
    max: usize,
)
    ensures
        creation_only_gateway(b) <==> b.tool_mode == ToolExecutionMode::McpGateway
            && b.capabilities.mcp_configuration == McpConfigurationCapability::CreationOnly,
        !too_many_parts(messages, max) <==> forall|i: int|
            0 <= i < messages.len() ==> (#[trigger] messages[i]).parts().len() <= max,
{
}

} // verus!
