//! Admission with an actor per transaction: checks, reservation, installation.
//!
//! The order is fixed: what the request says is checked first, then places are
//! reserved, then the tasks are spawned, and the entry is installed last. Work
//! starts only once the entry is installed. A refusal at any point gives back
//! what was reserved.

use crate::identity::{fresh_id_text, is_random_uuid, uuid_text, TransactionId};
use crate::messages::{estimate_messages_bytes, sat_sum, transcript_bytes, CanonicalMessage};
use crate::text::{clone_opt, clone_texts, join, list_contains, texts, utf8_len};
use crate::transaction::active_registry::{
    inserted, sessions_on, ActiveTransaction, ActiveTransactionRegistry,
};
use crate::transaction::callback_service::{
    reaped, CallbackModel, CallbackReservation, CallbackService,
};
use crate::transaction::capacity::{
    give_back_undoes_take, given_back, has_place, taken, CapacityManagers,
};
use crate::transaction::channel_registry::{
    ChannelBinding, ChannelKind, ChannelRegistry, ContinuationPolicy, McpConfigurationCapability,
    ToolExecutionMode,
};
use crate::transaction::finalization::{FinalizationGuard, FinalizationPayload, GuardModel};
use crate::transaction::host_tools::{find_tool, HostToolRegistry, RegisteredTool};
use crate::transaction::lifecycle::admission::{
    binding_of, check_parts, check_tools, creation_only_gateway, find_binding, too_many_parts,
    tools_refusal, AdmissionErrorKind, AdmissionReceipt,
};
use crate::transaction::limits::TransactionLimits;
use crate::transaction::types::{ChannelId, SessionId, SessionKey, ToolId};
use vstd::prelude::*;

verus! {

/// State of a runtime that takes requests.
pub const STATE_ACCEPTING: u8 = 1;

/// A request.
#[derive(Clone, Debug)]
pub struct TransactionRequest {
    /// Channel.
    pub channel_id: ChannelId,
    /// Session to go on with.
    pub session_id: Option<SessionId>,
    /// Messages.
    pub messages: Vec<CanonicalMessage>,
    /// Tools.
    pub tools: Vec<ToolId>,
    /// Whether it brings a configuration for the session.
    pub has_session_config: bool,
    /// Who goes on after tool calls.
    pub continuation_policy: ContinuationPolicy,
    /// Time for it, unless the limits say.
    pub deadline: Option<u128>,
}

/// A refusal, with the reason in words.
#[derive(Clone, Debug)]
pub struct Refusal {
    /// Why.
    pub kind: AdmissionErrorKind,
    /// In words.
    pub message: String,
}

/// A refusal as kind and text.
pub struct RefusalModel {
    /// Why.
    pub kind: AdmissionErrorKind,
    /// In words.
    pub message: Seq<char>,
}

impl View for Refusal {
    type V = RefusalModel;

    open spec fn view(&self) -> RefusalModel {
        RefusalModel { kind: self.kind, message: self.message@ }
    }
}

/// What admission works on.
pub struct AdmissionContext<C, P> {
    /// Channels.
    pub channels: ChannelRegistry,
    /// Host tools.
    pub tools: HostToolRegistry,
    /// Places for transactions.
    pub capacity: CapacityManagers,
    /// Active transactions.
    pub registry: ActiveTransactionRegistry<C, P>,
    /// Bounds.
    pub limits: TransactionLimits,
    /// State of the runtime.
    pub runtime_state: u8,
    /// Places for completion callbacks.
    pub callbacks: CallbackService,
}

impl<C, P> AdmissionContext<C, P> {
    /// Internal consistency of the parts.
    pub open spec fn wf(&self) -> bool {
        &&& self.capacity.wf()
        &&& self.registry.wf()
        &&& self.callbacks.wf()
    }
}

/// A request that holds its places and waits to be installed.
pub struct PendingAdmission {
    /// Transaction.
    pub transaction_id: TransactionId,
    /// Channel.
    pub channel_id: ChannelId,
    /// Session, where it is known.
    pub session_id: Option<SessionId>,
    /// Session on its channel, where it is known.
    pub session_key: Option<SessionKey>,
    /// Whether the session is the agent's to tell.
    pub provisional_external: bool,
    /// Whether the request named the session.
    pub existing_session: bool,
    /// Most sessions on the channel.
    pub max_distinct_sessions: usize,
    /// Control commands that may wait.
    pub control_cap: usize,
    /// Events that may wait.
    pub event_cap: usize,
    /// Time for the transaction.
    pub deadline: u128,
    /// Place for the completion callback.
    pub reservation: CallbackReservation,
}

/// An installed transaction whose work may start.
pub struct InstalledTransaction {
    /// Receipt for the caller.
    pub receipt: AdmissionReceipt,
    /// Place for the completion callback.
    pub reservation: CallbackReservation,
}

/// A task that admission needs.
#[derive(Clone, Copy, Debug, PartialEq, Eq, Structural)]
pub enum AdmissionTask {
    /// It hands events to the sink.
    Delivery,
    /// It does the work.
    Actor,
    /// It joins the other two.
    Reaper,
}

impl AdmissionTask {
    /// Message where the task could not be spawned.
    pub open spec fn text(self) -> Seq<char> {
        match self {
            AdmissionTask::Delivery => "executor unavailable for delivery task"@,
            AdmissionTask::Actor => "executor unavailable for actor task"@,
            AdmissionTask::Reaper => "executor unavailable for reaper task"@,
        }
    }

    fn message(self) -> (r: &'static str)
        ensures
            r@ == self.text(),
    {
        match self {
            AdmissionTask::Delivery => "executor unavailable for delivery task",
            AdmissionTask::Actor => "executor unavailable for actor task",
            AdmissionTask::Reaper => "executor unavailable for reaper task",
        }
    }
}

/// A refusal in the model.
pub open spec fn refusal(kind: AdmissionErrorKind, message: Seq<char>) -> Option<RefusalModel> {
    Some(RefusalModel { kind, message })
}

/// Bytes of the schemas of selected tools; a tool that is not registered has none.
pub open spec fn schema_bytes(selected: Seq<ToolId>, tools: Seq<RegisteredTool>) -> usize
    decreases selected.len(),
{
    if selected.len() == 0 {
        0
    } else {
        let before = schema_bytes(selected.drop_last(), tools);
        match find_tool(tools, selected.last()@) {
            Some(t) => sat_sum(before, utf8_len(t.tool().input_schema@)),
            None => before,
        }
    }
}

/// What is wrong with the selected tools, if anything.
pub open spec fn selection_refusal(
    selected: Seq<ToolId>,
    tools: Seq<RegisteredTool>,
) -> Option<RefusalModel> {
    match tools_refusal(selected, tools) {
        Some(e) => if e.kind == AdmissionErrorKind::DuplicateTool {
            refusal(e.kind, "duplicate tool id on request"@)
        } else {
            refusal(e.kind, "unknown tool id"@)
        },
        None => None,
    }
}

/// What is wrong with a request in itself, if anything. `merge_fault` says why
/// its configuration could not be merged with the channel's.
pub open spec fn request_refusal(
    channels: Seq<ChannelBinding>,
    tools: Seq<RegisteredTool>,
    limits: TransactionLimits,
    request: TransactionRequest,
    merge_fault: Option<Seq<char>>,
) -> Option<RefusalModel> {
    let binding = binding_of(channels, request.channel_id@);
    if request.tools@.len() > limits.max_tools_per_transaction {
        refusal(AdmissionErrorKind::InvalidInput, "too many tools on request"@)
    } else if binding is None {
        refusal(AdmissionErrorKind::UnknownChannel, "unknown channel"@)
    } else if binding->0.kind == ChannelKind::DirectLlm && request.has_session_config {
        refusal(AdmissionErrorKind::InvalidConfiguration, "DirectLlm rejects SessionConfig"@)
    } else if !binding->0.capabilities.continuation_policies.has(request.continuation_policy) {
        refusal(
            AdmissionErrorKind::CapabilityMismatch,
            "continuation policy not supported by channel"@,
        )
    } else if creation_only_gateway(binding->0) && request.session_id is Some
        && request.tools@.len() > 0 {
        refusal(
            AdmissionErrorKind::CapabilityMismatch,
            "CreationOnly MCP cannot refresh tools on an existing session"@,
        )
    } else if selection_refusal(request.tools@, tools) is Some {
        selection_refusal(request.tools@, tools)
    } else if transcript_bytes(request.messages@) > limits.max_input_bytes {
        refusal(AdmissionErrorKind::InvalidInput, "canonical input exceeds max_input_bytes"@)
    } else if request.messages@.len() > limits.max_messages {
        refusal(AdmissionErrorKind::InvalidInput, "canonical input exceeds max_messages"@)
    } else if too_many_parts(request.messages@, limits.max_content_parts) {
        refusal(AdmissionErrorKind::InvalidInput, "canonical message exceeds max_content_parts"@)
    } else if schema_bytes(request.tools@, tools) > limits.max_tool_schema_bytes {
        refusal(
            AdmissionErrorKind::InvalidInput,
            "selected tool schemas exceed max_tool_schema_bytes"@,
        )
    } else if merge_fault is Some {
        refusal(
            AdmissionErrorKind::InvalidConfiguration,
            "config merge failed: "@ + merge_fault->0,
        )
    } else {
        None
    }
}

/// Session of a new transaction, as its text: the one that was named; else, on
/// a channel without sessions of its own, a fresh one.
pub open spec fn allocated(
    kind: ChannelKind,
    supplied: Option<Seq<char>>,
    fresh: Seq<char>,
) -> Option<Seq<char>> {
    match supplied {
        Some(s) => Some(s),
        None => match kind {
            ChannelKind::DirectLlm => Some(fresh),
            ChannelKind::ExternalAgent => None,
        },
    }
}

/// The session of a request.
pub open spec fn session_text(s: Option<SessionId>) -> Option<Seq<char>> {
    match s {
        Some(t) => Some(t@),
        None => None,
    }
}

/// Why a request gets no place as a transaction, if so: by itself, its session,
/// the runtime's state, or for want of places, in this order.
pub open spec fn place_refusal<C, P>(
    ctx: AdmissionContext<C, P>,
    request: TransactionRequest,
    merge_fault: Option<Seq<char>>,
    fresh: Seq<char>,
) -> Option<RefusalModel> {
    let binding = binding_of(ctx.channels@, request.channel_id@);
    let bad = request_refusal(ctx.channels@, ctx.tools@, ctx.limits, request, merge_fault);
    let session = allocated(binding->0.kind, session_text(request.session_id), fresh);
    if bad is Some {
        bad
    } else if session is Some && ctx.registry@.by_session.dom().contains(
        (request.channel_id@, session->0),
    ) {
        refusal(
            AdmissionErrorKind::SessionAlreadyActive,
            "session already has an active transaction"@,
        )
    } else if ctx.runtime_state != STATE_ACCEPTING {
        refusal(AdmissionErrorKind::RuntimeShuttingDown, "runtime is not accepting submissions"@)
    } else if !has_place(ctx.capacity@, request.channel_id@) {
        refusal(AdmissionErrorKind::CapacityExceeded, "active transaction capacity exceeded"@)
    } else {
        None
    }
}

/// Why a request gets no places, if so: none as a transaction, or none for its
/// callback.
pub open spec fn begin_refusal<C, P>(
    ctx: AdmissionContext<C, P>,
    request: TransactionRequest,
    merge_fault: Option<Seq<char>>,
    fresh: Seq<char>,
    finished: usize,
) -> Option<RefusalModel> {
    if place_refusal(ctx, request, merge_fault, fresh) is Some {
        place_refusal(ctx, request, merge_fault, fresh)
    } else if reaped(ctx.callbacks@, finished).available == 0 {
        refusal(AdmissionErrorKind::CapacityExceeded, "callback capacity exceeded"@)
    } else {
        None
    }
}

/// One place for a callback is reserved.
pub open spec fn callback_reserved(m: CallbackModel) -> CallbackModel {
    CallbackModel {
        available: (m.available - 1) as usize,
        reserved: (m.reserved + 1) as usize,
        ..m
    }
}

/// One reserved place for a callback is given back.
pub open spec fn callback_released(m: CallbackModel) -> CallbackModel {
    CallbackModel {
        available: (m.available + 1) as usize,
        reserved: (m.reserved - 1) as usize,
        ..m
    }
}

/// At least one.
pub open spec fn at_least_one(n: usize) -> usize {
    if n == 0 {
        1
    } else {
        n
    }
}

/// Whether a pending admission is what a request comes to.
pub open spec fn is_pending_for<C, P>(
    p: PendingAdmission,
    ctx: AdmissionContext<C, P>,
    request: TransactionRequest,
    tx: TransactionId,
    fresh: Seq<char>,
) -> bool {
    let binding = binding_of(ctx.channels@, request.channel_id@)->0;
    let session = allocated(binding.kind, session_text(request.session_id), fresh);
    &&& p.transaction_id == tx
    &&& p.channel_id == request.channel_id
    &&& session_text(p.session_id) == session
    &&& session_text(request.session_id) is Some ==> p.session_id == request.session_id
    &&& p.session_key is Some == session is Some
    &&& p.session_key matches Some(k) ==> k.channel_id == request.channel_id && p.session_id
        == Some(k.session_id)
    &&& p.provisional_external == (session is None)
    &&& p.existing_session == (request.session_id is Some)
    &&& p.max_distinct_sessions == binding.limits.max_distinct_sessions
    &&& p.control_cap == at_least_one(ctx.limits.max_actor_commands)
    &&& p.event_cap == at_least_one(ctx.limits.max_event_queue)
    &&& p.deadline == (match request.deadline {
        Some(d) => d,
        None => ctx.limits.transaction_deadline,
    })
}

fn refuse(kind: AdmissionErrorKind, message: &str) -> (r: Refusal)
    ensures
        Some(r@) == refusal(kind, message@),
{
    Refusal { kind, message: String::from_str(message) }
}

/// Resolves the tools of a request, in its order.
pub fn resolve_tools<'a>(host: &'a HostToolRegistry, tools: &Vec<ToolId>) -> (r: Result<
    Vec<&'a RegisteredTool>,
    Refusal,
>)
    ensures
        match r {
            Ok(found) => selection_refusal(tools@, host@) is None && found@.len() == tools@.len()
                && forall|i: int|
                0 <= i < tools@.len() ==> find_tool(host@, (#[trigger] tools@[i])@) == Some(
                    *found@[i],
                ),
            Err(e) => selection_refusal(tools@, host@) == Some(e@),
        },
{
    match check_tools(tools, host) {
        Some(e) => {
            if e.kind == AdmissionErrorKind::DuplicateTool {
                return Err(refuse(e.kind, "duplicate tool id on request"));
            }
            return Err(refuse(e.kind, "unknown tool id"));
        },
        None => {},
    }
    let mut found: Vec<&'a RegisteredTool> = Vec::new();
    let mut i: usize = 0;
    while i < tools.len()
        invariant
            i <= tools.len(),
            tools_refusal(tools@, host@) is None,
            found@.len() == i,
            forall|j: int|
                0 <= j < i ==> find_tool(host@, (#[trigger] tools@[j])@) == Some(*found@[j]),
        decreases tools.len() - i,
    {
        match host.get(&tools[i]) {
            Some(t) => {
                found.push(t);
            },
            None => {
                proof {
                    lemma_all_registered(tools@, host@, i as int);
                }
                return Err(refuse(AdmissionErrorKind::UnknownTool, "unknown tool id"));
            },
        }
        i = i + 1;
    }
    Ok(found)
}

proof fn lemma_all_registered(selected: Seq<ToolId>, tools: Seq<RegisteredTool>, i: int)
    requires
        tools_refusal(selected, tools) is None,
        0 <= i < selected.len(),
    ensures
        crate::transaction::host_tools::has_tool(tools, selected[i]@),
    decreases selected.len(),
{
    if i < selected.len() - 1 {
        lemma_all_registered(selected.drop_last(), tools, i);
    }
}

/// Bytes of the schemas of a request's tools.
pub fn schema_total(host: &HostToolRegistry, tools: &Vec<ToolId>) -> (r: usize)
    ensures
        r == schema_bytes(tools@, host@),
{
    let mut total: usize = 0;
    let mut i: usize = 0;
    assert(tools@.take(0) =~= Seq::<ToolId>::empty());
    while i < tools.len()
        invariant
            i <= tools.len(),
            total == schema_bytes(tools@.take(i as int), host@),
        decreases tools.len() - i,
    {
        assert(tools@.take(i as int + 1).drop_last() =~= tools@.take(i as int));
        match host.get_spec(&tools[i]) {
            Some(spec) => {
                let bytes: usize = spec.input_schema.as_str().len();
                total = total.saturating_add(bytes);
            },
            None => {},
        }
        i = i + 1;
    }
    assert(tools@.take(i as int) =~= tools@);
    total
}

/// Session of a new transaction, its place on the channel, and whether the
/// session is the agent's to tell.
pub fn allocate_session(
    kind: ChannelKind,
    channel_id: &ChannelId,
    supplied: &Option<SessionId>,
    fresh: SessionId,
) -> (r: (Option<SessionId>, Option<SessionKey>, bool))
    ensures
        session_text(r.0) == allocated(kind, session_text(*supplied), fresh@),
        supplied is Some ==> r.0 == *supplied,
        r.1 is Some == r.0 is Some,
        r.1 matches Some(k) ==> k.channel_id == *channel_id && r.0 == Some(k.session_id),
        r.2 == (r.0 is None),
{
    let session: Option<SessionId> = match supplied {
        Some(s) => Some(s.clone()),
        None => match kind {
            ChannelKind::DirectLlm => Some(fresh),
            ChannelKind::ExternalAgent => None,
        },
    };
    match session {
        Some(s) => {
            let key = SessionKey { channel_id: channel_id.clone(), session_id: s.clone() };
            (Some(s), Some(key), false)
        },
        None => (None, None, true),
    }
}

/// Extension keys that a channel permits: those that its policy names and those
/// of its own defaults.
pub fn channel_option_policy(allowed: &Vec<String>, defaults: &Vec<String>) -> (r: Vec<String>)
    ensures
        forall|t: Seq<char>|
            #![trigger texts(r@).contains(t)]
            texts(r@).contains(t) <==> texts(allowed@).contains(t) || texts(defaults@).contains(t),
{
    let mut keys: Vec<String> = clone_texts(allowed);
    let mut i: usize = 0;
    while i < defaults.len()
        invariant
            i <= defaults.len(),
            keys@ == allowed@ + defaults@.take(i as int),
        decreases defaults.len() - i,
    {
        keys.push(defaults[i].clone());
        assert(defaults@.take(i as int + 1) =~= defaults@.take(i as int).push(defaults@[i as int]));
        i = i + 1;
    }
    assert(defaults@.take(i as int) =~= defaults@);
    proof {
        assert forall|t: Seq<char>| #[trigger] texts(keys@).contains(t) implies texts(
            allowed@,
        ).contains(t) || texts(defaults@).contains(t) by {
            let j = choose|j: int| 0 <= j < keys@.len() && texts(keys@)[j] == t;
            if j < allowed@.len() {
                assert(texts(allowed@)[j] == t);
            } else {
                assert(texts(defaults@)[j - allowed@.len()] == t);
            }
        }
        assert forall|t: Seq<char>| texts(allowed@).contains(t) || texts(defaults@).contains(
            t,
        ) implies #[trigger] texts(keys@).contains(t) by {
            if texts(allowed@).contains(t) {
                let j = choose|j: int| 0 <= j < allowed@.len() && texts(allowed@)[j] == t;
                assert(texts(keys@)[j] == t);
            } else {
                let j = choose|j: int| 0 <= j < defaults@.len() && texts(defaults@)[j] == t;
                assert(texts(keys@)[j + allowed@.len()] == t);
            }
        }
    }
    keys
}

/// Checks a request in itself.
pub fn check_request(
    channels: &ChannelRegistry,
    tools: &HostToolRegistry,
    limits: &TransactionLimits,
    request: &TransactionRequest,
    merge_fault: &Option<String>,
) -> (r: Option<Refusal>)
    ensures
        match r {
            Some(e) => request_refusal(
                channels@,
                tools@,
                *limits,
                *request,
                session_text(*merge_fault),
            ) == Some(e@),
            None => request_refusal(
                channels@,
                tools@,
                *limits,
                *request,
                session_text(*merge_fault),
            ) is None,
        },
{
    if request.tools.len() > limits.max_tools_per_transaction {
        return Some(refuse(AdmissionErrorKind::InvalidInput, "too many tools on request"));
    }
    let binding = match find_binding(channels, &request.channel_id) {
        Some(b) => b,
        None => {
            return Some(refuse(AdmissionErrorKind::UnknownChannel, "unknown channel"));
        },
    };
    if binding.kind == ChannelKind::DirectLlm && request.has_session_config {
        return Some(
            refuse(AdmissionErrorKind::InvalidConfiguration, "DirectLlm rejects SessionConfig"),
        );
    }
    if !binding.capabilities.continuation_policies.contains(request.continuation_policy) {
        return Some(
            refuse(
                AdmissionErrorKind::CapabilityMismatch,
                "continuation policy not supported by channel",
            ),
        );
    }
    if binding.tool_mode == ToolExecutionMode::McpGateway && binding.capabilities.mcp_configuration
        == McpConfigurationCapability::CreationOnly && request.session_id.is_some()
        && request.tools.len() > 0 {
        return Some(
            refuse(
                AdmissionErrorKind::CapabilityMismatch,
                "CreationOnly MCP cannot refresh tools on an existing session",
            ),
        );
    }
    match resolve_tools(tools, &request.tools) {
        Ok(_) => {},
        Err(e) => {
            return Some(e);
        },
    }
    if estimate_messages_bytes(&request.messages) > limits.max_input_bytes {
        return Some(
            refuse(AdmissionErrorKind::InvalidInput, "canonical input exceeds max_input_bytes"),
        );
    }
    if request.messages.len() > limits.max_messages {
        return Some(
            refuse(AdmissionErrorKind::InvalidInput, "canonical input exceeds max_messages"),
        );
    }
    if check_parts(&request.messages, limits.max_content_parts) {
        return Some(
            refuse(AdmissionErrorKind::InvalidInput, "canonical message exceeds max_content_parts"),
        );
    }
    if schema_total(tools, &request.tools) > limits.max_tool_schema_bytes {
        return Some(
            refuse(
                AdmissionErrorKind::InvalidInput,
                "selected tool schemas exceed max_tool_schema_bytes",
            ),
        );
    }
    match merge_fault {
        Some(fault) => Some(
            Refusal {
                kind: AdmissionErrorKind::InvalidConfiguration,
                message: join("config merge failed: ", fault.as_str()),
            },
        ),
        None => None,
    }
}

fn floor_one(n: usize) -> (r: usize)
    ensures
        r == at_least_one(n),
{
    if n == 0 {
        1
    } else {
        n
    }
}

/// Checks a request and reserves its places under given identities; `finished`
/// callbacks out of time are found ended meanwhile.
pub fn begin_admission_as<C, P>(
    ctx: &mut AdmissionContext<C, P>,
    request: &TransactionRequest,
    merge_fault: &Option<String>,
    tx: TransactionId,
    fresh: SessionId,
    finished: usize,
) -> (r: Result<PendingAdmission, Refusal>)
    requires
        old(ctx).wf(),
        finished <= old(ctx).callbacks@.retained,
    ensures
        final(ctx).wf(),
        *final(ctx) == (AdmissionContext {
            capacity: final(ctx).capacity,
            callbacks: final(ctx).callbacks,
            ..*old(ctx)
        }),
        match begin_refusal(*old(ctx), *request, session_text(*merge_fault), fresh@, finished) {
            Some(e) => r is Err && r->Err_0@ == e && final(ctx).capacity@ == old(ctx).capacity@
                && final(ctx).callbacks@ == (if place_refusal(
                *old(ctx),
                *request,
                session_text(*merge_fault),
                fresh@,
            ) is Some {
                old(ctx).callbacks@
            } else {
                reaped(old(ctx).callbacks@, finished)
            }),
            None => r is Ok && is_pending_for(r->Ok_0, *old(ctx), *request, tx, fresh@) && final(ctx).capacity@ == taken(old(ctx).capacity@, request.channel_id@) && final(ctx).callbacks@
                == callback_reserved(reaped(old(ctx).callbacks@, finished)),
        },
{
    match check_request(&ctx.channels, &ctx.tools, &ctx.limits, request, merge_fault) {
        Some(e) => {
            return Err(e);
        },
        None => {},
    }
    let (kind, max_distinct_sessions): (ChannelKind, usize) = match find_binding(
        &ctx.channels,
        &request.channel_id,
    ) {
        Some(b) => (b.kind, b.limits.max_distinct_sessions),
        None => {
            return Err(refuse(AdmissionErrorKind::UnknownChannel, "unknown channel"));
        },
    };
    let (session_id, session_key, provisional_external) = allocate_session(
        kind,
        &request.channel_id,
        &request.session_id,
        fresh,
    );
    match &session_key {
        Some(key) => {
            if ctx.registry.session_active(key) {
                return Err(
                    refuse(
                        AdmissionErrorKind::SessionAlreadyActive,
                        "session already has an active transaction",
                    ),
                );
            }
        },
        None => {},
    }
    if ctx.runtime_state != STATE_ACCEPTING {
        return Err(
            refuse(AdmissionErrorKind::RuntimeShuttingDown, "runtime is not accepting submissions"),
        );
    }
    let ghost before = ctx.capacity@;
    if !ctx.capacity.try_reserve(&request.channel_id) {
        return Err(
            refuse(AdmissionErrorKind::CapacityExceeded, "active transaction capacity exceeded"),
        );
    }
    proof {
        ctx.capacity.bounded();
        give_back_undoes_take(before, request.channel_id@);
    }
    let reservation = match ctx.callbacks.try_reserve(finished) {
        Some(held) => held,
        None => {
            ctx.capacity.release(&request.channel_id);
            return Err(refuse(AdmissionErrorKind::CapacityExceeded, "callback capacity exceeded"));
        },
    };
    Ok(
        PendingAdmission {
            transaction_id: tx,
            channel_id: request.channel_id.clone(),
            session_id,
            session_key,
            provisional_external,
            existing_session: request.session_id.is_some(),
            max_distinct_sessions,
            control_cap: floor_one(ctx.limits.max_actor_commands),
            event_cap: floor_one(ctx.limits.max_event_queue),
            deadline: match request.deadline {
                Some(d) => d,
                None => ctx.limits.transaction_deadline,
            },
            reservation,
        },
    )
}

/// Whether something is what a request comes to under some random identities.
pub open spec fn begun_or_refused<C, P>(
    before: AdmissionContext<C, P>,
    after: AdmissionContext<C, P>,
    request: TransactionRequest,
    merge_fault: Option<Seq<char>>,
    finished: usize,
    tx: TransactionId,
    fresh: u128,
    r: Result<PendingAdmission, Refusal>,
) -> bool {
    match begin_refusal(before, request, merge_fault, uuid_text(fresh), finished) {
        Some(e) => r is Err && r->Err_0@ == e && after.capacity@ == before.capacity@
            && after.callbacks@ == (if place_refusal(
            before,
            request,
            merge_fault,
            uuid_text(fresh),
        ) is Some {
            before.callbacks@
        } else {
            reaped(before.callbacks@, finished)
        }),
        None => r is Ok && is_pending_for(r->Ok_0, before, request, tx, uuid_text(fresh))
            && after.capacity@ == taken(before.capacity@, request.channel_id@) && after.callbacks@
            == callback_reserved(reaped(before.callbacks@, finished)),
    }
}

/// Checks a request and reserves its places under fresh random identities.
pub fn begin_admission<C, P>(
    ctx: &mut AdmissionContext<C, P>,
    request: &TransactionRequest,
    merge_fault: &Option<String>,
    finished: usize,
) -> (r: Result<PendingAdmission, Refusal>)
    requires
        old(ctx).wf(),
        finished <= old(ctx).callbacks@.retained,
    ensures
        final(ctx).wf(),
        *final(ctx) == (AdmissionContext {
            capacity: final(ctx).capacity,
            callbacks: final(ctx).callbacks,
            ..*old(ctx)
        }),
        exists|tx: TransactionId, fresh: u128|
            is_random_uuid(tx.value) && is_random_uuid(fresh) && #[trigger] begun_or_refused(
                *old(ctx),
                *final(ctx),
                *request,
                session_text(*merge_fault),
                finished,
                tx,
                fresh,
                r,
            ),
{
    let tx = TransactionId::generate();
    let fresh = fresh_id_text();
    let ghost v = choose|v: u128| is_random_uuid(v) && fresh@ == #[trigger] uuid_text(v);
    let ghost before = *ctx;
    let r = begin_admission_as(ctx, request, merge_fault, tx, fresh, finished);
    assert(begun_or_refused(
        before,
        *ctx,
        *request,
        session_text(*merge_fault),
        finished,
        tx,
        v,
        r,
    ));
    r
}

/// Gives back the places of a transaction and of its callback.
pub(crate) fn give_back<C, P>(
    ctx: &mut AdmissionContext<C, P>,
    channel_id: &ChannelId,
    reservation: CallbackReservation,
)
    requires
        old(ctx).wf(),
        old(ctx).capacity@.global_active > 0,
        old(ctx).capacity@.channels.dom().contains(channel_id@) ==> old(ctx).capacity@.channels[channel_id@].active > 0,
        old(ctx).callbacks@.reserved > 0,
    ensures
        final(ctx).wf(),
        *final(ctx) == (AdmissionContext {
            capacity: final(ctx).capacity,
            callbacks: final(ctx).callbacks,
            ..*old(ctx)
        }),
        final(ctx).capacity@ == given_back(old(ctx).capacity@, channel_id@),
        final(ctx).callbacks@ == callback_released(old(ctx).callbacks@),
{
    ctx.capacity.release(channel_id);
    reservation.release(&mut ctx.callbacks);
}

/// A task of a pending admission could not be spawned.
pub fn spawn_failed<C, P>(
    ctx: &mut AdmissionContext<C, P>,
    pending: PendingAdmission,
    task: AdmissionTask,
) -> (r: Refusal)
    requires
        old(ctx).wf(),
        holds_places(*old(ctx), pending.channel_id@),
    ensures
        final(ctx).wf(),
        *final(ctx) == (AdmissionContext {
            capacity: final(ctx).capacity,
            callbacks: final(ctx).callbacks,
            ..*old(ctx)
        }),
        final(ctx).capacity@ == given_back(old(ctx).capacity@, pending.channel_id@),
        final(ctx).callbacks@ == callback_released(old(ctx).callbacks@),
        Some(r@) == refusal(AdmissionErrorKind::RuntimeShuttingDown, task.text()),
{
    give_back(ctx, &pending.channel_id, pending.reservation);
    refuse(AdmissionErrorKind::RuntimeShuttingDown, task.message())
}

/// Whether a transaction on a channel and a callback hold places.
pub open spec fn holds_places<C, P>(ctx: AdmissionContext<C, P>, channel: Seq<char>) -> bool {
    &&& ctx.capacity@.global_active > 0
    &&& ctx.capacity@.channels.dom().contains(channel) ==> ctx.capacity@.channels[channel].active
        > 0
    &&& ctx.callbacks@.reserved > 0
}

/// Why a pending admission is not installed, if so.
pub open spec fn install_refusal<C, P>(
    ctx: AdmissionContext<C, P>,
    pending: PendingAdmission,
    reaper_spawned: bool,
) -> Option<RefusalModel> {
    if ctx.runtime_state != STATE_ACCEPTING {
        refusal(AdmissionErrorKind::RuntimeShuttingDown, "runtime is not accepting submissions"@)
    } else if pending.session_key is Some && ctx.registry@.by_session.dom().contains(
        pending.session_key->0@,
    ) {
        refusal(
            AdmissionErrorKind::SessionAlreadyActive,
            "session already has an active transaction"@,
        )
    } else if pending.session_key is Some && sessions_on(
        ctx.registry@,
        pending.session_key->0.channel_id@,
    ) >= pending.max_distinct_sessions {
        refusal(
            AdmissionErrorKind::CapacityExceeded,
            "channel distinct session capacity exceeded"@,
        )
    } else if !reaper_spawned {
        refusal(AdmissionErrorKind::RuntimeShuttingDown, AdmissionTask::Reaper.text())
    } else if ctx.registry@.by_tx.dom().contains(pending.transaction_id) {
        refusal(AdmissionErrorKind::SpawnFailed, "registry install failed"@)
    } else {
        None
    }
}

/// Whether an entry is that of a pending admission.
pub open spec fn is_entry_of<C, P>(
    e: ActiveTransaction<C, P>,
    pending: PendingAdmission,
    completion: C,
    ports: P,
) -> bool {
    &&& e.transaction_id == pending.transaction_id
    &&& e.channel_id == pending.channel_id
    &&& e.session_key == pending.session_key
    &&& e.ports == ports
    &&& e.guard@ == (GuardModel {
        claimed: false,
        payload: Some(
            FinalizationPayload {
                callback: completion,
                channel_id: pending.channel_id,
                session_id: pending.session_id,
                transaction_id: pending.transaction_id,
            },
        ),
        scheduled: false,
    })
}

/// Installs a pending admission, once its tasks are spawned; what it held is
/// given back where that is refused.
pub fn install<C, P>(
    ctx: &mut AdmissionContext<C, P>,
    pending: PendingAdmission,
    completion: C,
    ports: P,
    reaper_spawned: bool,
) -> (r: Result<InstalledTransaction, Refusal>)
    requires
        old(ctx).wf(),
        holds_places(*old(ctx), pending.channel_id@),
    ensures
        final(ctx).wf(),
        *final(ctx) == (AdmissionContext {
            capacity: final(ctx).capacity,
            callbacks: final(ctx).callbacks,
            registry: final(ctx).registry,
            ..*old(ctx)
        }),
        match install_refusal(*old(ctx), pending, reaper_spawned) {
            Some(e) => r is Err && r->Err_0@ == e && final(ctx).registry@ == old(ctx).registry@
                && final(ctx).capacity@ == given_back(old(ctx).capacity@, pending.channel_id@)
                && final(ctx).callbacks@ == callback_released(old(ctx).callbacks@),
            None => {
                let entry = final(ctx).registry@.by_tx[pending.transaction_id];
                &&& r is Ok
                &&& r->Ok_0.receipt == (AdmissionReceipt {
                    transaction_id: pending.transaction_id,
                    session_id: pending.session_id,
                })
                &&& is_entry_of(entry, pending, completion, ports)
                &&& final(ctx).registry@ == inserted(old(ctx).registry@, entry)
                &&& final(ctx).capacity == old(ctx).capacity
                &&& final(ctx).callbacks == old(ctx).callbacks
            },
        },
{
    if ctx.runtime_state != STATE_ACCEPTING {
        give_back(ctx, &pending.channel_id, pending.reservation);
        return Err(
            refuse(AdmissionErrorKind::RuntimeShuttingDown, "runtime is not accepting submissions"),
        );
    }
    match &pending.session_key {
        Some(key) => {
            if ctx.registry.session_active(key) {
                give_back(ctx, &pending.channel_id, pending.reservation);
                return Err(
                    refuse(
                        AdmissionErrorKind::SessionAlreadyActive,
                        "session already has an active transaction",
                    ),
                );
            }
            if ctx.registry.distinct_sessions_on_channel(&key.channel_id)
                >= pending.max_distinct_sessions {
                give_back(ctx, &pending.channel_id, pending.reservation);
                return Err(
                    refuse(
                        AdmissionErrorKind::CapacityExceeded,
                        "channel distinct session capacity exceeded",
                    ),
                );
            }
        },
        None => {},
    }
    if !reaper_spawned {
        give_back(ctx, &pending.channel_id, pending.reservation);
        return Err(
            refuse(AdmissionErrorKind::RuntimeShuttingDown, AdmissionTask::Reaper.message()),
        );
    }
    let receipt = AdmissionReceipt {
        transaction_id: pending.transaction_id,
        session_id: clone_opt(&pending.session_id),
    };
    let entry = ActiveTransaction {
        transaction_id: pending.transaction_id,
        channel_id: pending.channel_id.clone(),
        guard: FinalizationGuard::new(
            pending.transaction_id,
            pending.channel_id.clone(),
            pending.session_id,
            completion,
        ),
        session_key: pending.session_key,
        ports,
    };
    match ctx.registry.insert(entry) {
        Ok(()) => Ok(InstalledTransaction { receipt, reservation: pending.reservation }),
        Err(kind) => {
            give_back(ctx, &pending.channel_id, pending.reservation);
            Err(refuse(kind, "registry install failed"))
        },
    }
}

/// A request that got its places and is given up leaves the counts as they were.
pub proof fn giving_up_restores<C, P>(
    before: AdmissionContext<C, P>,
    request: TransactionRequest,
    merge_fault: Option<Seq<char>>,
    fresh: Seq<char>,
    finished: usize,
)
    requires
        begin_refusal(before, request, merge_fault, fresh, finished) is None,
        before.wf(),
        finished <= before.callbacks@.retained,
    ensures
        given_back(taken(before.capacity@, request.channel_id@), request.channel_id@)
            == before.capacity@,
        callback_released(callback_reserved(reaped(before.callbacks@, finished))) == reaped(
            before.callbacks@,
            finished,
        ),
{
    give_back_undoes_take(before.capacity@, request.channel_id@);
    before.callbacks.adds_up();
}

/// A session that has an active transaction takes no second one, and an
/// installed transaction makes its session such a one.
pub proof fn second_request_for_session_is_refused<C, P>(
    ctx: AdmissionContext<C, P>,
    pending: PendingAdmission,
    reaper_spawned: bool,
)
    requires
        ctx.runtime_state == STATE_ACCEPTING,
        pending.session_key is Some,
        ctx.registry@.by_session.dom().contains(pending.session_key->0@),
    ensures
        install_refusal(ctx, pending, reaper_spawned) is Some,
        install_refusal(ctx, pending, reaper_spawned)->0.kind
            == AdmissionErrorKind::SessionAlreadyActive,
{
}

/// A runtime that takes no requests admits and installs nothing.
pub proof fn closed_runtime_refuses<C, P>(
    ctx: AdmissionContext<C, P>,
    request: TransactionRequest,
    merge_fault: Option<Seq<char>>,
    fresh: Seq<char>,
    finished: usize,
    pending: PendingAdmission,
    reaper_spawned: bool,
)
    requires
        ctx.runtime_state != STATE_ACCEPTING,
    ensures
        begin_refusal(ctx, request, merge_fault, fresh, finished) is Some,
        install_refusal(ctx, pending, reaper_spawned) is Some,
{
}

} // verus!
