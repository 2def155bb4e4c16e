//! The end of an actor: the result of a rejected tool call, the session of an
//! event, and finalization.

use crate::contracts::ToolActionId;
use crate::identity::{ExchangeId, TransactionId};
use crate::text::utf8_len;
use crate::transaction::active_registry::removed;
use crate::transaction::admission::{
    callback_released, give_back, holds_places, AdmissionContext,
};
use crate::transaction::callback_service::{
    reaped, scheduled, unscheduled, CallbackReservation,
};
use crate::transaction::capacity::given_back;
use crate::transaction::events::OrderedEventPublisher;
use crate::transaction::finalization::{
    build_transaction_end, claim_tried, claim_yields, restored, start_taken_back,
    ClaimedFinalization, FinalizationGuard, FinalizationPayload, GuardModel,
};
use crate::transaction::types::{
    CanonicalToolError, CanonicalToolResult, CanonicalToolResultOutcome, ChannelId,
    EventDeliveryOutcome, ProviderToolCallId, SessionId, SessionKey, TransactionEnd,
    TransactionEndKind, TransactionEvent, TransactionEventPayload,
};
use vstd::prelude::*;

verus! {

/// Most bytes of the message of a rejected call.
pub const REJECTION_MESSAGE_BYTES: usize = 256;

/// Units that may wait to be handed on in the first exchange: one for every 256
/// bytes that may be received, but at least 8, and at most 64 for each exchange.
pub fn live_capacity(max_output_bytes: usize, max_provider_exchanges: usize) -> (r: usize)
    ensures
        ({
            let wanted = max_output_bytes as int / 256;
            let most = if max_provider_exchanges <= 1 {
                64
            } else if max_provider_exchanges * 64 > usize::MAX {
                usize::MAX as int
            } else {
                max_provider_exchanges * 64
            };
            r == (if wanted < 8 {
                8
            } else if wanted > most {
                most
            } else {
                wanted
            })
        }),
{
    let wanted: usize = max_output_bytes / 256;
    let product: usize = match max_provider_exchanges.checked_mul(64) {
        Some(n) => n,
        None => usize::MAX,
    };
    let most: usize = if product < 64 {
        64
    } else {
        product
    };
    if wanted < 8 {
        8
    } else if wanted > most {
        most
    } else {
        wanted
    }
}

/// Units that may wait to be handed on in a continuation.
pub fn continuation_live_capacity(max_output_bytes: usize) -> (r: usize)
    ensures
        ({
            let wanted = max_output_bytes as int / 256;
            r == (if wanted < 8 {
                8
            } else if wanted > 64 {
                64
            } else {
                wanted
            })
        }),
{
    let wanted: usize = max_output_bytes / 256;
    if wanted < 8 {
        8
    } else if wanted > 64 {
        64
    } else {
        wanted
    }
}

/// The result that stands for a rejected call: a failure in its own domain.
pub fn rejection_result(
    transaction_id: TransactionId,
    session_key: &SessionKey,
    exchange_id: ExchangeId,
    tool_action_id: &ToolActionId,
    provider_tool_call_id: &ProviderToolCallId,
    request_ordinal: u32,
    code: &str,
    message: &str,
) -> (r: CanonicalToolResult)
    ensures
        r.transaction_id == transaction_id,
        r.session_key == *session_key,
        r.exchange_id == exchange_id,
        r.tool_action_id == *tool_action_id,
        r.tool_id@ == "rejected"@,
        r.provider_tool_call_id == *provider_tool_call_id,
        r.request_ordinal == request_ordinal,
        r.outcome matches CanonicalToolResultOutcome::DomainFailed(e) && e.data is None && (
        if utf8_len(message@) <= REJECTION_MESSAGE_BYTES {
            e.code@ == code@ && e.message@ == message@
        } else {
            e.code@ == "tool_rejected"@ && e.message@ == "rejected"@
        }),
{
    let error = match CanonicalToolError::try_new(code, message, None, REJECTION_MESSAGE_BYTES) {
        Some(e) => e,
        None => CanonicalToolError {
            code: String::from_str("tool_rejected"),
            message: String::from_str("rejected"),
            data: None,
        },
    };
    CanonicalToolResult {
        transaction_id,
        session_key: session_key.clone(),
        exchange_id,
        tool_action_id: tool_action_id.clone(),
        tool_id: String::from_str("rejected"),
        provider_tool_call_id: provider_tool_call_id.clone(),
        request_ordinal,
        outcome: CanonicalToolResultOutcome::DomainFailed(error),
    }
}

/// The event to be put into the queue; none while no session is known.
pub fn emit_unit_or_session(
    events: &OrderedEventPublisher,
    transaction_id: TransactionId,
    channel_id: &ChannelId,
    session_key: &Option<SessionKey>,
    payload: TransactionEventPayload,
) -> (r: Option<TransactionEvent>)
    ensures
        r == (match *session_key {
            Some(k) => Some(
                TransactionEvent {
                    transaction_id,
                    channel_id: *channel_id,
                    session_id: k.session_id,
                    sequence: events.upcoming(),
                    payload,
                },
            ),
            None => None,
        }),
{
    match session_key {
        Some(k) => Some(
            events.publish(transaction_id, channel_id.clone(), k.session_id.clone(), payload),
        ),
        None => None,
    }
}

/// What an actor came to.
pub struct ActorResult {
    /// Terminal kind.
    pub kind: TransactionEndKind,
    /// Kind before delivery failed.
    pub prior: Option<TransactionEndKind>,
    /// Whether events were delivered so far.
    pub delivery: EventDeliveryOutcome,
    /// Session, where it is known.
    pub session_key: Option<SessionKey>,
}

/// How the terminal event was taken.
#[derive(Clone, Copy, Debug, PartialEq, Eq, Structural)]
pub struct TerminalSend {
    /// Whether the queue took it in time.
    pub sent: bool,
    /// Whether the sink acknowledged it in time.
    pub acknowledged: bool,
    /// Sequence that it would get.
    pub preview: u64,
    /// Sequence that was allocated last.
    pub last_allocated: u64,
}

/// What a transaction ends with.
pub struct FinalizedTransaction<C> {
    /// The end.
    pub end: TransactionEnd,
    /// The callback that gets it.
    pub callback: C,
    /// Time for the callback, or its place where nothing may be started.
    pub schedule: Result<u128, CallbackReservation>,
}

/// Claims the finalization; `None` means that someone else did.
pub fn begin_finalization<C>(guard: &mut FinalizationGuard<C>) -> (r: Option<
    ClaimedFinalization<C>,
>)
    ensures
        final(guard)@ == claim_tried(old(guard)@),
        match claim_yields(old(guard)@) {
            Some(p) => r is Some && r->0.claim() == p,
            None => r is None,
        },
{
    match guard.try_claim() {
        Some(p) => Some(ClaimedFinalization::new(p)),
        None => None,
    }
}

/// Leaves without an end: the places are given back, and the entry is removed.
pub fn abandon<C, P>(
    ctx: &mut AdmissionContext<C, P>,
    transaction_id: &TransactionId,
    channel_id: &ChannelId,
    reservation: CallbackReservation,
)
    requires
        old(ctx).wf(),
        holds_places(*old(ctx), channel_id@),
    ensures
        final(ctx).wf(),
        *final(ctx) == (AdmissionContext {
            capacity: final(ctx).capacity,
            callbacks: final(ctx).callbacks,
            registry: final(ctx).registry,
            ..*old(ctx)
        }),
        final(ctx).capacity@ == given_back(old(ctx).capacity@, channel_id@),
        final(ctx).callbacks@ == callback_released(old(ctx).callbacks@),
        final(ctx).registry@ == removed(old(ctx).registry@, *transaction_id),
{
    give_back(ctx, channel_id, reservation);
    let _gone = ctx.registry.remove(transaction_id);
}

/// Session of the terminal event: the one that was claimed, else the actor's,
/// else a fresh one.
pub fn terminal_session<C>(
    payload: &FinalizationPayload<C>,
    result: &ActorResult,
    fresh: SessionId,
) -> (r: SessionId)
    ensures
        r == (match payload.session_id {
            Some(s) => s,
            None => match result.session_key {
                Some(k) => k.session_id,
                None => fresh,
            },
        }),
{
    match &payload.session_id {
        Some(s) => s.clone(),
        None => match &result.session_key {
            Some(k) => k.session_id.clone(),
            None => fresh,
        },
    }
}

/// The terminal event, as it is told before anyone knows whether it arrives.
pub fn terminal_payload<C>(
    payload: &FinalizationPayload<C>,
    result: &ActorResult,
    preview: u64,
) -> (r: TransactionEventPayload)
    ensures
        r matches TransactionEventPayload::Ended(end) && end.kind == result.kind
            && end.prior_terminal_cause == result.prior && end.event_delivery == result.delivery
            && end.emitted_events == preview && end.transaction_id == payload.transaction_id
            && end.session_id == payload.session_id && end.channel_id == payload.channel_id
            && end.diagnostics@.len() == 0,
{
    TransactionEventPayload::Ended(
        build_transaction_end(payload, result.kind, result.prior, result.delivery, preview),
    )
}

/// Whether an end is that of a result whose terminal event went a certain way.
pub open spec fn is_end_of<C>(
    end: TransactionEnd,
    payload: FinalizationPayload<C>,
    result: ActorResult,
    send: TerminalSend,
) -> bool {
    let arrived = send.sent && send.acknowledged;
    &&& end.transaction_id == payload.transaction_id
    &&& end.session_id == payload.session_id
    &&& end.channel_id == payload.channel_id
    &&& end.diagnostics@.len() == 0
    &&& end.kind == (if arrived {
        result.kind
    } else {
        TransactionEndKind::EventDeliveryFailed
    })
    &&& end.prior_terminal_cause == (if arrived {
        result.prior
    } else {
        Some(result.kind)
    })
    &&& end.event_delivery == (if arrived {
        result.delivery
    } else {
        EventDeliveryOutcome::Failed
    })
    &&& end.emitted_events == (if send.sent {
        send.last_allocated
    } else {
        send.preview
    })
}

/// Ends a transaction whose finalization was claimed: its entry and its place
/// are given up, and its callback is scheduled on the place that was reserved.
/// Where nothing may be started, nothing counts as scheduled and the place is in
/// the answer.
pub fn finalize_and_cleanup<C, D, P>(
    ctx: &mut AdmissionContext<D, P>,
    guard: &mut FinalizationGuard<C>,
    claimed: ClaimedFinalization<C>,
    result: ActorResult,
    send: TerminalSend,
    reservation: CallbackReservation,
    finished: usize,
    gate_open: bool,
    callback_deadline: u128,
) -> (r: FinalizedTransaction<C>)
    requires
        old(ctx).wf(),
        holds_places(*old(ctx), claimed.claim().channel_id@),
        finished <= old(ctx).callbacks@.retained,
    ensures
        final(ctx).wf(),
        *final(ctx) == (AdmissionContext {
            capacity: final(ctx).capacity,
            callbacks: final(ctx).callbacks,
            registry: final(ctx).registry,
            ..*old(ctx)
        }),
        is_end_of(r.end, claimed.claim(), result, send),
        r.callback == claimed.claim().callback,
        final(ctx).registry@ == removed(old(ctx).registry@, claimed.claim().transaction_id),
        final(ctx).capacity@ == given_back(old(ctx).capacity@, claimed.claim().channel_id@),
        final(guard)@ == (if r.schedule is Ok {
            GuardModel { scheduled: true, ..old(guard)@ }
        } else {
            old(guard)@
        }),
        ({
            let m = reaped(old(ctx).callbacks@, finished);
            if gate_open {
                &&& r.schedule == Ok::<u128, CallbackReservation>(callback_deadline)
                &&& final(ctx).callbacks@ == scheduled(m)
            } else {
                &&& r.schedule == Err::<u128, CallbackReservation>(reservation)
                &&& final(ctx).callbacks@ == m
            }
        }),
{
    let arrived: bool = send.sent && send.acknowledged;
    let emitted: u64 = if send.sent {
        send.last_allocated
    } else {
        send.preview
    };
    let payload = claimed.take();
    let end = if arrived {
        build_transaction_end(&payload, result.kind, result.prior, result.delivery, emitted)
    } else {
        build_transaction_end(
            &payload,
            TransactionEndKind::EventDeliveryFailed,
            Some(result.kind),
            EventDeliveryOutcome::Failed,
            emitted,
        )
    };
    let _gone = ctx.registry.remove(&payload.transaction_id);
    ctx.capacity.release(&payload.channel_id);
    let schedule = ctx.callbacks.schedule_reserved(
        reservation,
        finished,
        gate_open,
        Some(callback_deadline),
    );
    if schedule.is_ok() {
        guard.mark_callback_scheduled();
    }
    FinalizedTransaction { end, callback: payload.callback, schedule }
}

/// What an end with its callback was claimed as.
pub open spec fn material<C>(callback: C, end: TransactionEnd) -> FinalizationPayload<C> {
    FinalizationPayload {
        callback,
        channel_id: end.channel_id,
        session_id: end.session_id,
        transaction_id: end.transaction_id,
    }
}

fn material_of<C>(callback: C, end: TransactionEnd) -> (r: FinalizationPayload<C>)
    ensures
        r == material(callback, end),
{
    FinalizationPayload {
        callback,
        channel_id: end.channel_id,
        session_id: end.session_id,
        transaction_id: end.transaction_id,
    }
}

/// A callback could not be scheduled: it can be claimed again.
pub fn put_back_unscheduled<C>(guard: &mut FinalizationGuard<C>, callback: C, end: TransactionEnd)
    ensures
        final(guard)@ == restored(old(guard)@, material(callback, end)),
{
    guard.restore_unscheduled(material_of(callback, end));
}

/// A callback was scheduled, and the executor refused to start it: its place
/// comes back, and it can be claimed again.
pub fn callback_refused<C, D, P>(
    ctx: &mut AdmissionContext<D, P>,
    guard: &mut FinalizationGuard<C>,
    callback: C,
    end: TransactionEnd,
) -> (r: CallbackReservation)
    requires
        old(ctx).wf(),
        old(ctx).callbacks@.inflight > old(ctx).callbacks@.retained,
    ensures
        final(ctx).wf(),
        *final(ctx) == (AdmissionContext { callbacks: final(ctx).callbacks, ..*old(ctx) }),
        final(ctx).callbacks@ == unscheduled(old(ctx).callbacks@),
        final(guard)@ == start_taken_back(old(guard)@, material(callback, end)),
{
    guard.start_refused(material_of(callback, end));
    ctx.callbacks.start_refused()
}

/// A transaction whose callback could not be scheduled, or not be started, is
/// not lost: the very material that was claimed can be claimed again.
pub proof fn refused_callback_can_be_claimed_again<C>(
    m: GuardModel<C>,
    payload: FinalizationPayload<C>,
    end: TransactionEnd,
    result: ActorResult,
    send: TerminalSend,
)
    requires
        is_end_of(end, payload, result, send),
    ensures
        material(payload.callback, end) == payload,
        !m.scheduled ==> claim_yields(restored(m, material(payload.callback, end))) == Some(
            payload,
        ),
        claim_yields(start_taken_back(m, material(payload.callback, end))) == Some(payload),
{
}

/// A transaction ends once: once its callback was scheduled and started, nobody can claim
/// its finalization, even if someone tried to put it back.
pub proof fn scheduled_end_is_final<C>(m: GuardModel<C>, payload: FinalizationPayload<C>)
    requires
        m.claimed,
    ensures
        ({
            let done = GuardModel { scheduled: true, ..m };
            &&& claim_yields(done) is None
            &&& claim_yields(restored(done, payload)) is None
        }),
{
}

/// A terminal event that did not arrive is no success: the kind says so, and
/// the kind that it would have had is kept.
pub proof fn undelivered_end_is_told<C>(
    end: TransactionEnd,
    payload: FinalizationPayload<C>,
    result: ActorResult,
    send: TerminalSend,
)
    requires
        is_end_of(end, payload, result, send),
        !(send.sent && send.acknowledged),
    ensures
        end.kind == TransactionEndKind::EventDeliveryFailed,
        end.prior_terminal_cause == Some(result.kind),
        end.event_delivery == EventDeliveryOutcome::Failed,
{
}

} // verus!
