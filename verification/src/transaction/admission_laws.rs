//! Which requests begin, what they get, and what is installed.

use crate::identity::TransactionId;
use crate::messages::transcript_bytes;
use crate::text::utf8_len;
use crate::transaction::active_registry::{
    claim_refusal, has_claimed, insert_refusal, inserted, removed, session_of, sessions_on, ActiveTransaction,
    ClaimSessionError, RegistryModel,
};
use crate::transaction::admission::{
    allocated, begin_refusal, callback_released, callback_reserved, install_refusal, is_entry_of,
    is_pending_for, request_refusal, schema_bytes, selection_refusal, session_text,
    AdmissionContext, PendingAdmission, TransactionRequest, STATE_ACCEPTING,
};
use crate::transaction::callback_service::{reaped, CallbackModel};
use crate::transaction::capacity::{given_back, has_place, taken, CapacityModel};
use crate::transaction::channel_registry::{
    ChannelBinding, ChannelKind, ContinuationPolicies, ContinuationPolicy,
};
use crate::transaction::host_tools::{find_tool, RegisteredTool};
use crate::transaction::lifecycle::admission::{
    binding_of, creation_only_gateway, too_many_parts, AdmissionErrorKind,
};
use crate::transaction::lifecycle::admission_course::{
    tools_are_accepted_iff_known_and_different, tools_are_registered, tools_differ,
};
use crate::transaction::limits::TransactionLimits;
use crate::transaction::types::{SessionKey, ToolId};
use vstd::prelude::*;

verus! {

/// Whether a request is in order for its channel and within bounds.
pub open spec fn is_in_order(
    channels: Seq<ChannelBinding>,
    tools: Seq<RegisteredTool>,
    limits: TransactionLimits,
    request: TransactionRequest,
    merge_fault: Option<Seq<char>>,
) -> bool {
    let b = binding_of(channels, request.channel_id@);
    &&& b is Some
    &&& request.tools@.len() <= limits.max_tools_per_transaction
    &&& b->0.kind == ChannelKind::DirectLlm ==> !request.has_session_config
    &&& match request.continuation_policy {
        ContinuationPolicy::CallerControlled =>
            b->0.capabilities.continuation_policies.caller_controlled,
        ContinuationPolicy::InlineToolContinuation =>
            b->0.capabilities.continuation_policies.inline_tool_continuation,
    }
    &&& !(creation_only_gateway(b->0) && request.session_id is Some && request.tools@.len() > 0)
    &&& tools_differ(request.tools@)
    &&& tools_are_registered(request.tools@, tools)
    &&& transcript_bytes(request.messages@) <= limits.max_input_bytes
    &&& request.messages@.len() <= limits.max_messages
    &&& !too_many_parts(request.messages@, limits.max_content_parts)
    &&& schema_bytes(request.tools@, tools) <= limits.max_tool_schema_bytes
    &&& merge_fault is None
}

/// A request passes the checks exactly where it is in order.
pub proof fn request_passes_iff_in_order(
    channels: Seq<ChannelBinding>,
    tools: Seq<RegisteredTool>,
    limits: TransactionLimits,
    request: TransactionRequest,
    merge_fault: Option<Seq<char>>,
)
    ensures
        request_refusal(channels, tools, limits, request, merge_fault) is None <==> is_in_order(
            channels,
            tools,
            limits,
            request,
            merge_fault,
        ),
        request_refusal(channels, tools, limits, request, merge_fault) matches Some(e) ==> {
            &&& e.kind == AdmissionErrorKind::UnknownChannel ==> binding_of(
                channels,
                request.channel_id@,
            ) is None
            &&& e.kind == AdmissionErrorKind::DuplicateTool ==> !tools_differ(request.tools@)
            &&& e.kind == AdmissionErrorKind::UnknownTool ==> !tools_are_registered(
                request.tools@,
                tools,
            )
            &&& e.kind == AdmissionErrorKind::InvalidConfiguration ==> request.has_session_config
                || merge_fault is Some
            &&& e.kind == AdmissionErrorKind::CapabilityMismatch ==> {
                let b = binding_of(channels, request.channel_id@);
                ||| !b->0.capabilities.continuation_policies.has(request.continuation_policy)
                ||| creation_only_gateway(b->0) && request.session_id is Some
                    && request.tools@.len() > 0
            }
            &&& e.kind == AdmissionErrorKind::InvalidInput ==> {
                ||| request.tools@.len() > limits.max_tools_per_transaction
                ||| transcript_bytes(request.messages@) > limits.max_input_bytes
                ||| request.messages@.len() > limits.max_messages
                ||| too_many_parts(request.messages@, limits.max_content_parts)
                ||| schema_bytes(request.tools@, tools) > limits.max_tool_schema_bytes
            }
            &&& e.kind != AdmissionErrorKind::SpawnFailed
            &&& e.kind != AdmissionErrorKind::RuntimeShuttingDown
            &&& e.kind != AdmissionErrorKind::CapacityExceeded
            &&& e.kind != AdmissionErrorKind::SessionAlreadyActive
        },
{
    tools_are_accepted_iff_known_and_different(request.tools@, tools);
    policy_is_what_the_channel_says(
        binding_of(channels, request.channel_id@)->0.capabilities.continuation_policies,
        request.continuation_policy,
    );
}

/// A channel takes the policies that it names.
pub proof fn policy_is_what_the_channel_says(p: ContinuationPolicies, policy: ContinuationPolicy)
    ensures
        policy == ContinuationPolicy::CallerControlled ==> p.has(policy) == p.caller_controlled,
        policy == ContinuationPolicy::InlineToolContinuation ==> p.has(policy)
            == p.inline_tool_continuation,
{
}

/// The schemas of the selected tools count together: those of two lists come to
/// the sum, one tool counts for the bytes of its schema, and an unknown one for
/// nothing.
pub proof fn schemas_add_up(
    a: Seq<ToolId>,
    one: ToolId,
    tools: Seq<RegisteredTool>,
)
    ensures
        schema_bytes(Seq::<ToolId>::empty(), tools) == 0,
        find_tool(tools, one@) is None ==> schema_bytes(a.push(one), tools) == schema_bytes(
            a,
            tools,
        ),
        find_tool(tools, one@) matches Some(t) ==> (schema_bytes(a, tools) + utf8_len(
            t.tool().input_schema@,
        ) <= usize::MAX ==> schema_bytes(a.push(one), tools) == schema_bytes(a, tools) + utf8_len(
            t.tool().input_schema@,
        )),
{
    assert(a.push(one).drop_last() =~= a);
    assert(a.push(one).last() == one);
}

/// A request begins exactly where it is owed: it is in order, its session is free,
/// the runtime takes requests, and there is a place in all, on its channel and for
/// its callback.
pub proof fn request_begins_iff_owed<C, P>(
    ctx: AdmissionContext<C, P>,
    request: TransactionRequest,
    merge_fault: Option<Seq<char>>,
    fresh: Seq<char>,
    finished: usize,
)
    requires
        finished <= ctx.callbacks@.retained,
        ctx.callbacks@.available + finished <= usize::MAX,
    ensures
        ({
            let channel = request.channel_id@;
            let slot = ctx.capacity@.channels[channel];
            let kind = binding_of(ctx.channels@, channel)->0.kind;
            let session = match request.session_id {
                Some(s) => Some(s@),
                None => if kind == ChannelKind::DirectLlm {
                    Some(fresh)
                } else {
                    None
                },
            };
            begin_refusal(ctx, request, merge_fault, fresh, finished) is None <==> {
                &&& is_in_order(ctx.channels@, ctx.tools@, ctx.limits, request, merge_fault)
                &&& session matches Some(s) ==> !ctx.registry@.by_session.dom().contains(
                    (channel, s),
                )
                &&& ctx.runtime_state == 1
                &&& ctx.capacity@.channels.dom().contains(channel)
                &&& slot.active < slot.max
                &&& ctx.capacity@.global_active < ctx.capacity@.max_global
                &&& ctx.callbacks@.available + finished > 0
            }
        }),
{
    request_passes_iff_in_order(ctx.channels@, ctx.tools@, ctx.limits, request, merge_fault);
}

/// What a request that begins gets is what it asked for: its channel, its session
/// or a fresh one where its channel has none of its own, its time or that of the
/// runtime, and queues that hold at least one.
pub proof fn pending_is_what_was_asked<C, P>(
    p: PendingAdmission,
    ctx: AdmissionContext<C, P>,
    request: TransactionRequest,
    tx: TransactionId,
    fresh: Seq<char>,
)
    requires
        is_pending_for(p, ctx, request, tx, fresh),
    ensures
        p.transaction_id == tx,
        p.channel_id == request.channel_id,
        request.session_id is Some ==> p.session_id == request.session_id && p.existing_session
            && !p.provisional_external,
        ({
            let kind = binding_of(ctx.channels@, request.channel_id@)->0.kind;
            &&& request.session_id is None && kind == ChannelKind::DirectLlm ==> (
            p.session_id is Some && p.session_id->0@ == fresh && !p.provisional_external
                && !p.existing_session)
            &&& request.session_id is None && kind == ChannelKind::ExternalAgent ==> (
            p.session_id is None && p.session_key is None && p.provisional_external)
        }),
        p.session_id matches Some(s) ==> (p.session_key matches Some(k) && k.channel_id
            == request.channel_id && k.session_id == s),
        request.deadline matches Some(d) ==> p.deadline == d,
        request.deadline is None ==> p.deadline == ctx.limits.transaction_deadline,
        p.control_cap >= 1,
        p.event_cap >= 1,
        ctx.limits.max_actor_commands > 0 ==> p.control_cap == ctx.limits.max_actor_commands,
        ctx.limits.max_event_queue > 0 ==> p.event_cap == ctx.limits.max_event_queue,
        p.max_distinct_sessions == binding_of(
            ctx.channels@,
            request.channel_id@,
        )->0.limits.max_distinct_sessions,
{
}

/// A pending admission is installed exactly where the runtime still takes
/// requests, its session is still free and not one too many, its tasks run, and
/// its identity is new.
pub proof fn pending_is_installed_iff_owed<C, P>(
    ctx: AdmissionContext<C, P>,
    pending: PendingAdmission,
    reaper_spawned: bool,
)
    ensures
        install_refusal(ctx, pending, reaper_spawned) is None <==> {
            &&& ctx.runtime_state == 1
            &&& pending.session_key matches Some(k) ==> !ctx.registry@.by_session.dom().contains(
                (k.channel_id@, k.session_id@),
            ) && sessions_on(ctx.registry@, k.channel_id@) < pending.max_distinct_sessions
            &&& reaper_spawned
            &&& !ctx.registry@.by_tx.dom().contains(pending.transaction_id)
        },
        STATE_ACCEPTING == 1,
        install_refusal(ctx, pending, reaper_spawned) matches Some(e) ==> {
            let registry = ctx.registry@;
            &&& e.kind == AdmissionErrorKind::RuntimeShuttingDown <==> ctx.runtime_state != 1 || (
            !reaper_spawned && e.kind != AdmissionErrorKind::SessionAlreadyActive && e.kind
                != AdmissionErrorKind::CapacityExceeded)
            &&& e.kind == AdmissionErrorKind::SessionAlreadyActive <==> ctx.runtime_state == 1
                && pending.session_key is Some && registry.by_session.dom().contains(
                (pending.session_key->0.channel_id@, pending.session_key->0.session_id@),
            )
            &&& e.kind == AdmissionErrorKind::CapacityExceeded ==> pending.session_key is Some
                && sessions_on(registry, pending.session_key->0.channel_id@)
                >= pending.max_distinct_sessions
            &&& e.kind == AdmissionErrorKind::SpawnFailed ==> registry.by_tx.dom().contains(
                pending.transaction_id,
            ) && reaper_spawned
            &&& e.kind == AdmissionErrorKind::RuntimeShuttingDown || e.kind
                == AdmissionErrorKind::SessionAlreadyActive || e.kind
                == AdmissionErrorKind::CapacityExceeded || e.kind
                == AdmissionErrorKind::SpawnFailed
        },
{
}

/// An entry is that of its admission: its identity, its channel, its session, and
/// the callback, which nobody has claimed yet.
pub proof fn entry_is_that_of_its_admission<C, P>(
    e: ActiveTransaction<C, P>,
    pending: PendingAdmission,
    completion: C,
    ports: P,
)
    requires
        is_entry_of(e, pending, completion, ports),
    ensures
        e.transaction_id == pending.transaction_id,
        e.channel_id == pending.channel_id,
        e.session_key == pending.session_key,
        e.ports == ports,
        !e.guard@.claimed,
        !e.guard@.scheduled,
        e.guard@.payload matches Some(p) && p.callback == completion && p.channel_id
            == pending.channel_id && p.session_id == pending.session_id && p.transaction_id
            == pending.transaction_id,
{
}

/// Places are taken and given back on the channel that they are for, and on no
/// other.
pub proof fn place_is_on_its_channel(m: CapacityModel, channel: Seq<char>, other: Seq<char>)
    requires
        m.global_active < usize::MAX,
        m.channels[channel].active < usize::MAX,
    ensures
        has_place(m, channel) <==> m.channels.dom().contains(channel) && m.global_active
            < m.max_global && m.channels[channel].active < m.channels[channel].max,
        taken(m, channel).global_active == m.global_active + 1,
        taken(m, channel).channels[channel].active == m.channels[channel].active + 1,
        taken(m, channel).channels[channel].max == m.channels[channel].max,
        taken(m, channel).max_global == m.max_global,
        other != channel ==> taken(m, channel).channels[other] == m.channels[other]
            && given_back(m, channel).channels[other] == m.channels[other],
        m.global_active > 0 ==> given_back(m, channel).global_active == m.global_active - 1,
        m.channels.dom().contains(channel) && m.channels[channel].active > 0 ==> given_back(
            m,
            channel,
        ).channels[channel].active == m.channels[channel].active - 1,
{
}

/// A place for a callback is taken and given back as one place.
pub proof fn callback_place_is_one_place(m: CallbackModel, finished: usize)
    requires
        m.available + finished <= usize::MAX,
        m.reserved < usize::MAX,
        finished <= m.retained,
        finished <= m.inflight,
    ensures
        m.available > 0 ==> callback_reserved(m).available == m.available - 1
            && callback_reserved(m).reserved == m.reserved + 1,
        m.available < usize::MAX && m.reserved > 0 ==> callback_released(m).available
            == m.available + 1 && callback_released(m).reserved == m.reserved - 1,
        reaped(m, finished).available == m.available + finished,
        reaped(m, finished).inflight == m.inflight - finished,
        reaped(m, finished).retained == m.retained - finished,
        reaped(m, finished).reserved == m.reserved,
{
}

/// An entry is taken in exactly where its transaction is new and its session free,
/// and is found by both from then on; taken out, it is found by neither.
pub proof fn entry_is_found_by_both<C, P>(
    m: RegistryModel<C, P>,
    e: ActiveTransaction<C, P>,
    t: TransactionId,
    key: (Seq<char>, Seq<char>),
)
    ensures
        insert_refusal(m, e) is None <==> !m.by_tx.dom().contains(e.transaction_id) && (
        session_of(e) is Some ==> !m.by_session.dom().contains(session_of(e)->0)),
        inserted(m, e).by_tx[e.transaction_id] == e,
        session_of(e) matches Some(k) ==> inserted(m, e).by_session[k] == e.transaction_id,
        t != e.transaction_id ==> inserted(m, e).by_tx.dom().contains(t) == m.by_tx.dom().contains(
            t,
        ),
        session_of(e) != Some(key) ==> inserted(m, e).by_session.dom().contains(key)
            == m.by_session.dom().contains(key),
        !removed(m, t).by_tx.dom().contains(t),
        m.by_tx.dom().contains(t) && session_of(m.by_tx[t]) is Some ==> !removed(
            m,
            t,
        ).by_session.dom().contains(session_of(m.by_tx[t])->0),
{
}

/// A transaction claims a session exactly where it is there, has none, and the
/// session is free and not one too many.
pub proof fn session_is_claimed_iff_free<C, P>(
    m: RegistryModel<C, P>,
    tx: TransactionId,
    key: (Seq<char>, Seq<char>),
    max_distinct: Option<usize>,
)
    ensures
        claim_refusal(m, tx, key, max_distinct) is None <==> m.by_tx.dom().contains(tx)
            && session_of(m.by_tx[tx]) is None && !m.by_session.dom().contains(key) && (
        max_distinct is Some ==> sessions_on(m, key.0) < max_distinct->0),
        claim_refusal(m, tx, key, max_distinct) == Some(ClaimSessionError::Collision) <==> (
        m.by_session.dom().contains(key)),
        claim_refusal(m, tx, key, max_distinct) == Some(ClaimSessionError::UnknownTransaction) ==> (
        !m.by_tx.dom().contains(tx)),
        claim_refusal(m, tx, key, max_distinct) == Some(ClaimSessionError::CapacityExceeded) ==> (
        max_distinct is Some && sessions_on(m, key.0) >= max_distinct->0),
        claim_refusal(m, tx, key, max_distinct) == Some(ClaimSessionError::AlreadyClaimed) ==> (
        m.by_tx.dom().contains(tx) && session_of(m.by_tx[tx]) is Some),
{
}

/// An entry is refused for a session that is held, else for an identity that is
/// there, and each is told as what it is.
pub proof fn refused_entry_is_told<C, P>(m: RegistryModel<C, P>, e: ActiveTransaction<C, P>)
    ensures
        insert_refusal(m, e) == Some(AdmissionErrorKind::SessionAlreadyActive) <==> (
        e.session_key matches Some(k) && m.by_session.dom().contains(
            (k.channel_id@, k.session_id@),
        )),
        insert_refusal(m, e) == Some(AdmissionErrorKind::SpawnFailed) <==> m.by_tx.dom().contains(
            e.transaction_id,
        ) && !(e.session_key matches Some(k) && m.by_session.dom().contains(
            (k.channel_id@, k.session_id@),
        )),
{
}

/// A session that was claimed is the entry's, and its callback will be told of it;
/// nothing else of the entry changes.
pub proof fn claimed_session_is_told<C, P>(
    after: ActiveTransaction<C, P>,
    before: ActiveTransaction<C, P>,
    key: SessionKey,
)
    requires
        has_claimed(after, before, key),
    ensures
        after.session_key == Some(key),
        after.transaction_id == before.transaction_id,
        after.channel_id == before.channel_id,
        after.ports == before.ports,
        after.guard@.claimed == before.guard@.claimed,
        after.guard@.scheduled == before.guard@.scheduled,
        before.guard@.payload matches Some(p) ==> (after.guard@.payload matches Some(q)
            && q.session_id == Some(key.session_id) && q.callback == p.callback
            && q.transaction_id == p.transaction_id && q.channel_id == p.channel_id),
        before.guard@.payload is None ==> after.guard@.payload is None,
{
}

/// What is wrong with the selection is told as what it is.
pub proof fn selection_is_told(selected: Seq<ToolId>, tools: Seq<RegisteredTool>)
    ensures
        selection_refusal(selected, tools) is None <==> tools_differ(selected)
            && tools_are_registered(selected, tools),
        selection_refusal(selected, tools) matches Some(e) ==> (e.kind
            == AdmissionErrorKind::DuplicateTool ==> !tools_differ(selected)) && (e.kind
            == AdmissionErrorKind::UnknownTool ==> !tools_are_registered(selected, tools)),
{
    tools_are_accepted_iff_known_and_different(selected, tools);
}

/// The session of a new transaction is the one that was named; else a fresh one
/// where the channel keeps none, and none where the agent tells it.
pub proof fn session_is_the_one_that_was_named(named: Seq<char>, fresh: Seq<char>)
    ensures
        allocated(ChannelKind::DirectLlm, Some(named), fresh) == Some(named),
        allocated(ChannelKind::ExternalAgent, Some(named), fresh) == Some(named),
        allocated(ChannelKind::DirectLlm, None, fresh) == Some(fresh),
        allocated(ChannelKind::ExternalAgent, None, fresh) is None,
        session_text(None) is None,
{
}

} // verus!
