//! What the services of a transaction owe: claims, ends, callbacks, registries.

use crate::identity::{ExchangeId, TransactionId};
use crate::text::utf8_len;
use crate::transaction::active_registry::ClaimSessionError;
use crate::transaction::actor::claim_kind;
use crate::transaction::actor_claim::{claim_next, ClaimAction, ClaimInput, ClaimPhase};
use crate::transaction::actor_end::{
    continuation_live_capacity, emit_unit_or_session, is_end_of, live_capacity, rejection_result,
    terminal_session, ActorResult, TerminalSend,
};
use crate::transaction::bootstrap::{config_fault, RuntimeConfig};
use crate::transaction::callback_service::{
    drain_next, scheduled, time_left, unscheduled, CallbackDrain, CallbackModel, DrainAction,
    DrainInput, DrainPhase,
};
use crate::transaction::channel_registry::{binding_fault, ChannelBinding, ChannelRegistry};
use crate::transaction::error::StartupError;
use crate::transaction::events::{
    deliver_isolated, estimate_event_bytes, sequence_after, OrderedEventPublisher, SinkRun,
};
use crate::transaction::executor_spawn::{
    confirm_started, handed_over, HandedOver, SpawnGate, SpawnVerdict,
};
use crate::transaction::finalization::{
    bound_diagnostics, build_transaction_end, claim_tried, claim_yields, cut_place, is_cut, kept_count, restored,
    start_taken_back,
    FinalizationPayload, GuardModel,
};
use crate::transaction::host_tools::{
    bytes_before, find_tool, rearranges, tool_fault, HostToolRegistry, RegisteredTool, ToolSpec,
};
use crate::transaction::limits::LimitsError;
use crate::transaction::types::{
    CanonicalToolResult, CanonicalToolResultOutcome, ChannelId, EventDeliveryOutcome, SessionId,
    SessionKey, TransactionDiagnostic, TransactionEnd, TransactionEndKind, TransactionEvent,
    TransactionEventPayload,
};
use vstd::prelude::*;
use vstd::set_lib::{lemma_int_range, lemma_subset_equality, set_int_range};
use vstd::utf8::{encode_utf8, is_char_boundary};

verus! {

/// A session that the first exchange tells is claimed, announced, and its route
/// activated where there is one; then the prompt may go.
pub proof fn told_session_is_claimed(has_route: bool, has_gateway: bool)
    ensures
        ({
            let a = claim_next(
                ClaimPhase::AwaitingId,
                has_route,
                has_gateway,
                ClaimInput::Told(true),
            );
            let b = claim_next(a.0, has_route, has_gateway, ClaimInput::Claimed);
            let c = claim_next(b.0, has_route, has_gateway, ClaimInput::Announced(true));
            let d = claim_next(c.0, has_route, has_gateway, ClaimInput::Activated(true));
            &&& a.1 == ClaimAction::Claim
            &&& b.1 == ClaimAction::Announce
            &&& has_route && has_gateway ==> c.1 == ClaimAction::Activate && d.1
                == ClaimAction::Release && d.0 == ClaimPhase::Done
            &&& !(has_route && has_gateway) ==> c.1 == ClaimAction::Release && c.0
                == ClaimPhase::Done
        }),
{
}

/// A claim that fails is told as what it was, and the prompt does not go.
pub proof fn failed_claim_is_told(has_route: bool, has_gateway: bool, e: ClaimSessionError)
    ensures
        claim_next(
            ClaimPhase::AwaitingId,
            has_route,
            has_gateway,
            ClaimInput::Told(false),
        ).1 == ClaimAction::Fail(TransactionEndKind::InvariantFailed),
        claim_next(
            ClaimPhase::Claiming,
            has_route,
            has_gateway,
            ClaimInput::NotClaimed(e),
        ).1 == ClaimAction::Fail(claim_kind(e)),
        claim_next(
            ClaimPhase::Announcing,
            has_route,
            has_gateway,
            ClaimInput::Announced(false),
        ).1 == ClaimAction::Fail(TransactionEndKind::EventDeliveryFailed),
        claim_next(
            ClaimPhase::Activating,
            has_route,
            has_gateway,
            ClaimInput::Activated(false),
        ).1 == ClaimAction::Fail(TransactionEndKind::InvariantFailed),
{
}

/// The end of a transaction is that of its payload and its result: whose it is, and
/// of which kind. A terminal event that arrived keeps the kind; one that did not
/// makes it undelivered and keeps the kind as what came before. The count of events
/// is that of the last one that was numbered.
pub proof fn end_goes_by_the_terminal_event<C>(
    end: TransactionEnd,
    payload: FinalizationPayload<C>,
    result: ActorResult,
    send: TerminalSend,
)
    requires
        is_end_of(end, payload, result, send),
    ensures
        end.transaction_id == payload.transaction_id,
        end.session_id == payload.session_id,
        end.channel_id == payload.channel_id,
        send.sent && send.acknowledged ==> end.kind == result.kind && end.prior_terminal_cause
            == result.prior && end.event_delivery == result.delivery,
        !(send.sent && send.acknowledged) ==> end.kind == TransactionEndKind::EventDeliveryFailed
            && end.prior_terminal_cause == Some(result.kind) && end.event_delivery
            == EventDeliveryOutcome::Failed,
        send.sent ==> end.emitted_events == send.last_allocated,
        !send.sent ==> end.emitted_events == send.preview,
{
}

/// The session of the terminal event is the claimed one; else the actor's; else a
/// fresh one.
pub proof fn terminal_session_is_the_claimed_one(
    payload: FinalizationPayload<u8>,
    result: ActorResult,
    fresh: SessionId,
    r: SessionId,
)
    requires
        call_ensures(terminal_session::<u8>, (&payload, &result, fresh), r),
    ensures
        payload.session_id matches Some(s) ==> r == s,
        payload.session_id is None && result.session_key is Some ==> r
            == result.session_key->0.session_id,
        payload.session_id is None && result.session_key is None ==> r == fresh,
{
}

/// A rejected call is answered: as a failure of its own, for the action, the call
/// and the place that asked, with its code and message where the message is short.
pub proof fn rejected_call_is_answered(
    transaction_id: TransactionId,
    session_key: SessionKey,
    exchange_id: ExchangeId,
    action: String,
    provider: String,
    ordinal: u32,
    code: &str,
    message: &str,
    r: CanonicalToolResult,
)
    requires
        call_ensures(
            rejection_result,
            (
                transaction_id,
                &session_key,
                exchange_id,
                &action,
                &provider,
                ordinal,
                code,
                message,
            ),
            r,
        ),
    ensures
        r.transaction_id == transaction_id,
        r.session_key == session_key,
        r.exchange_id == exchange_id,
        r.tool_action_id == action,
        r.provider_tool_call_id == provider,
        r.request_ordinal == ordinal,
        r.outcome is DomainFailed,
        utf8_len(message@) <= 256 ==> (r.outcome matches CanonicalToolResultOutcome::DomainFailed(
            e,
        ) && e.code@ == code@ && e.message@ == message@),
{
}

/// The first claim gets what there is; a later one nothing, until it was put back;
/// and once the callback was scheduled nothing is put back, unless it could not be
/// started.
pub proof fn claim_gets_what_there_is<C>(m: GuardModel<C>, p: FinalizationPayload<C>)
    ensures
        !m.claimed ==> claim_yields(m) == m.payload,
        m.claimed ==> claim_yields(m) is None,
        claim_tried(m).claimed,
        claim_tried(m).scheduled == m.scheduled,
        !m.claimed ==> claim_tried(m).payload is None,
        m.scheduled ==> restored(m, p) == m,
        !m.scheduled ==> !restored(m, p).claimed && restored(m, p).payload == Some(p)
            && !restored(m, p).scheduled,
        !start_taken_back(m, p).claimed && start_taken_back(m, p).payload == Some(p)
            && !start_taken_back(m, p).scheduled,
{
}

/// An end says what it was built from.
pub proof fn end_says_what_it_was_built_from(
    payload: FinalizationPayload<u8>,
    kind: TransactionEndKind,
    prior: Option<TransactionEndKind>,
    delivery: EventDeliveryOutcome,
    emitted: u64,
    r: TransactionEnd,
)
    requires
        call_ensures(build_transaction_end::<u8>, (&payload, kind, prior, delivery, emitted), r),
    ensures
        r.transaction_id == payload.transaction_id,
        r.session_id == payload.session_id,
        r.channel_id == payload.channel_id,
        r.kind == kind,
        r.prior_terminal_cause == prior,
        r.event_delivery == delivery,
        r.emitted_events == emitted,
        r.diagnostics@.len() == 0,
{
}

proof fn lemma_cut_place(bytes: Seq<u8>, max: int)
    requires
        0 <= max,
    ensures
        0 <= cut_place(bytes, max) <= max,
        cut_place(bytes, max) == 0 || is_char_boundary(bytes, cut_place(bytes, max)),
        forall|i: int|
            cut_place(bytes, max) < i <= max ==> !(#[trigger] is_char_boundary(bytes, i)),
    decreases max,
{
    if max > 0 && !is_char_boundary(bytes, max) {
        lemma_cut_place(bytes, max - 1);
    }
}

/// Diagnostics are bounded and no more is lost than that: as many are kept as the
/// bound allows, a message that fits is kept as it is, and one that does not is cut
/// at the last place that fits.
pub proof fn diagnostics_lose_no_more_than_the_bound(
    len: nat,
    max_count: usize,
    cut: Option<String>,
    whole: Option<String>,
    max: usize,
)
    requires
        is_cut(cut, whole, max),
        whole is Some ==> encode_utf8(whole->0@).len() <= usize::MAX,
    ensures
        kept_count(len, max_count) <= len,
        kept_count(len, max_count) <= max_count,
        kept_count(len, max_count) == len || kept_count(len, max_count) == max_count,
        cut is Some <==> whole is Some,
        whole is Some && encode_utf8(whole->0@).len() <= max ==> cut == whole,
        whole is Some && encode_utf8(whole->0@).len() > max ==> ({
            let bytes = encode_utf8(whole->0@);
            let k = encode_utf8(cut->0@).len() as int;
            &&& k <= max
            &&& encode_utf8(cut->0@) == bytes.take(k)
            &&& k == 0 || is_char_boundary(bytes, k)
            &&& forall|i: int| k < i <= max ==> !(#[trigger] is_char_boundary(bytes, i))
        }),
{
    if whole is Some && encode_utf8(whole->0@).len() > max {
        let bytes = encode_utf8(whole->0@);
        lemma_cut_place(bytes, max as int);
        assert(bytes.take(cut_place(bytes, max as int)).len() == cut_place(bytes, max as int));
    }
}

/// A callback that is scheduled uses the place that was reserved for it.
pub proof fn scheduled_callback_uses_its_place(m: CallbackModel)
    requires
        m.reserved > 0,
        m.inflight < usize::MAX,
    ensures
        scheduled(m).reserved == m.reserved - 1,
        scheduled(m).inflight == m.inflight + 1,
        scheduled(m).available == m.available,
        unscheduled(scheduled(m)) == m,
{
}

/// A drain waits while callbacks run and time is left, then stops what runs with
/// what is left of the time, and then joins what was told to stop.
pub proof fn drain_takes_its_course(
    d: CallbackDrain,
    m: CallbackModel,
    finished: usize,
    elapsed: u128,
    ended: usize,
    kept: usize,
)
    ensures
        d.phase == DrainPhase::Waiting && m.inflight > 0 && elapsed < d.deadline ==> drain_next(
            d,
            m,
            DrainInput::Looked { finished, elapsed },
        ).2 == (DrainAction::Sleep { nanos: 5_000_000 }),
        d.phase == DrainPhase::Waiting && (m.inflight == 0 || elapsed >= d.deadline)
            ==> drain_next(d, m, DrainInput::Looked { finished, elapsed }).2
            == DrainAction::ReadClock,
        d.phase == DrainPhase::Timing ==> drain_next(d, m, DrainInput::Clock { elapsed }).2 == (
        DrainAction::Stop { budget: time_left(d.deadline, elapsed) }),
        d.phase == DrainPhase::Stopping && m.retained + kept <= usize::MAX ==> drain_next(
            d,
            m,
            DrainInput::Stopped { ended, kept, elapsed },
        ).2 == (DrainAction::Join {
            taken: (m.retained + kept) as usize,
            budget: time_left(d.deadline, elapsed),
        }),
        elapsed < d.deadline ==> time_left(d.deadline, elapsed) == d.deadline - elapsed,
        elapsed >= d.deadline ==> time_left(d.deadline, elapsed) == 0,
{
}

/// A drain that runs out of time, or has nothing to wait for, reads the clock, stops
/// what runs, joins what was told to stop, and is then over.
pub proof fn drain_ends(
    deadline: u128,
    m: CallbackModel,
    finished: usize,
    elapsed: u128,
    ended: usize,
    kept: usize,
    joined: usize,
)
    requires
        m.inflight == 0 || elapsed >= deadline,
        m.retained + kept <= usize::MAX,
    ensures
        ({
            let at = |phase: DrainPhase| CallbackDrain { deadline, phase };
            let a = drain_next(at(DrainPhase::Waiting), m, DrainInput::Looked { finished, elapsed });
            let b = drain_next(at(a.0), a.1, DrainInput::Clock { elapsed });
            let c = drain_next(at(b.0), b.1, DrainInput::Stopped { ended, kept, elapsed });
            let d = drain_next(at(c.0), c.1, DrainInput::Joined { joined });
            &&& a.2 == DrainAction::ReadClock
            &&& b.2 is Stop
            &&& c.2 is Join
            &&& d.2 == DrainAction::Done
            &&& d.0 == DrainPhase::Over
            &&& b.1 == a.1
        }),
{
}

/// Only a sink that says so took an event; an event counts for the bytes of its
/// text, and for some where it has none; numbers follow one another.
pub proof fn events_count_for_what_they_are(
    run: SinkRun,
    took: bool,
    encoded: Option<usize>,
    size: usize,
    n: u64,
)
    requires
        call_ensures(deliver_isolated, (run,), took),
        call_ensures(estimate_event_bytes, (encoded,), size),
    ensures
        took <==> run == (SinkRun::Answered { ok: true }),
        encoded matches Some(k) ==> size >= k && (k >= 64 ==> size == k) && (k < 64 ==> size
            == 64),
        encoded is None ==> size == 256,
        n < u64::MAX ==> sequence_after(n) == n + 1,
{
}

/// A tool is fit for the registry exactly where its implementation is what its class
/// needs, its schema fits, and neither its identity nor its name was there before.
pub proof fn tool_is_fit_iff_it_is_what_its_class_needs(
    tools: Seq<RegisteredTool>,
    max_schema_bytes: usize,
    i: int,
)
    requires
        0 <= i < tools.len(),
    ensures
        tool_fault(tools, max_schema_bytes, i) is None <==> {
            &&& tools[i].tool().execution_class is ProcessIsolated ==> (
            tools[i].linked().os_process_isolated)
            &&& tools[i].tool().execution_class is AbortableAtYield ==> (
            tools[i].linked().runtime_owns_abortable_drive)
            &&& utf8_len(tools[i].tool().input_schema@) <= max_schema_bytes
            &&& forall|j: int|
                0 <= j < i ==> (#[trigger] tools[j]).tool().id@ != tools[i].tool().id@
                    && tools[j].tool().name@ != tools[i].tool().name@
        },
{
    if tool_fault(tools, max_schema_bytes, i) is None {
        assert forall|j: int| 0 <= j < i implies (#[trigger] tools[j]).tool().id@
            != tools[i].tool().id@ && tools[j].tool().name@ != tools[i].tool().name@ by {}
    }
}

/// A tool is found by its identity: the first one that has it.
pub proof fn tool_is_found_by_its_identity(tools: Seq<RegisteredTool>, id: Seq<char>, k: int)
    ensures
        0 <= k < tools.len() && tools[k].tool().id@ == id && (forall|j: int|
            0 <= j < k ==> (#[trigger] tools[j]).tool().id@ != id) ==> find_tool(tools, id) == Some(
            tools[k],
        ),
        find_tool(tools, id) matches Some(t) ==> t.tool().id@ == id && tools.contains(t),
        find_tool(tools, id) is None ==> forall|j: int|
            0 <= j < tools.len() ==> (#[trigger] tools[j]).tool().id@ != id,
    decreases tools.len(),
{
    if tools.len() > 0 {
        let rest = tools.drop_first();
        tool_is_found_by_its_identity(rest, id, k - 1);
        assert forall|j: int| 0 <= j < rest.len() implies #[trigger] rest[j] == tools[j + 1] by {}
        if tools[0].tool().id@ == id {
            assert(tools.contains(tools[0]));
        } else {
            if find_tool(rest, id) is Some {
                let t = find_tool(rest, id)->0;
                let j = choose|j: int| 0 <= j < rest.len() && rest[j] == t;
                assert(tools[j + 1] == t);
            } else {
                assert forall|j: int| 0 <= j < tools.len() implies (
                #[trigger] tools[j]).tool().id@ != id by {
                    if j > 0 {
                        assert(rest[j - 1].tool().id@ != id);
                    }
                }
            }
            if 0 <= k < tools.len() && tools[k].tool().id@ == id && (forall|j: int|
                0 <= j < k ==> (#[trigger] tools[j]).tool().id@ != id) {
                assert(rest[k - 1] == tools[k]);
                assert forall|j: int| 0 <= j < k - 1 implies (#[trigger] rest[j]).tool().id@
                    != id by {
                    assert(tools[j + 1].tool().id@ != id);
                }
            }
        }
    }
}

/// The order of identities is one: nothing comes before itself, of two different
/// ones exactly one comes first, and a beginning comes before what it begins.
pub proof fn order_of_bytes_is_total(a: Seq<u8>, b: Seq<u8>)
    ensures
        !bytes_before(a, a),
        a != b ==> bytes_before(a, b) != bytes_before(b, a),
        b.len() > 0 ==> bytes_before(a, a + b),
        a.len() > 0 && b.len() > 0 && a[0] < b[0] ==> bytes_before(a, b),
    decreases a.len(),
{
    if a.len() > 0 {
        let x = a.drop_first();
        let y = if b.len() > 0 {
            b.drop_first()
        } else {
            b
        };
        order_of_bytes_is_total(x, y);
        order_of_bytes_is_total(x, b);
        assert((a + b).drop_first() =~= x + b);
        if b.len() > 0 && a[0] == b[0] && a != b {
            if x == y {
                assert(a =~= seq![a[0]] + x);
                assert(b =~= seq![b[0]] + y);
            }
        }
    } else {
        assert(a + b =~= b);
        if b.len() == 0 {
            assert(a =~= b);
        }
    }
}

/// Every tool is listed, as it is, in the order of the identities.
pub proof fn every_tool_is_listed(registry: HostToolRegistry, r: Vec<&ToolSpec>, k: int)
    requires
        call_ensures(HostToolRegistry::specs_sorted, (&registry,), r),
        0 <= k < registry@.len(),
    ensures
        r@.len() == registry@.len(),
        exists|j: int| 0 <= j < r@.len() && *(#[trigger] r@[j]) == registry@[k].tool(),
        forall|i: int, j: int|
            0 <= i < j < r@.len() ==> !bytes_before(
                encode_utf8((#[trigger] r@[j]).id@),
                encode_utf8((#[trigger] r@[i]).id@),
            ),
{
    let places = choose|places: Seq<int>| #[trigger] rearranges(r@, registry@, places);
    let n = registry@.len() as int;
    places.unique_seq_to_set();
    lemma_int_range(0, n);
    assert(places.to_set().subset_of(set_int_range(0, n))) by {
        assert forall|x: int| places.to_set().contains(x) implies 0 <= x < n by {
            assert(places.contains(x));
        }
    }
    lemma_subset_equality(places.to_set(), set_int_range(0, n));
    assert(places.to_set().contains(k));
    let j = choose|j: int| 0 <= j < places.len() && places[j] == k;
    assert(*r@[j] == registry@[k].tool());
}

/// A channel is fit exactly where nothing is wrong with its capabilities and its
/// identity was not there before.
pub proof fn channel_is_fit_iff_new(
    bindings: Seq<ChannelBinding>,
    faults: Seq<Option<String>>,
    i: int,
)
    requires
        0 <= i < bindings.len(),
    ensures
        binding_fault(bindings, faults, i) is None <==> faults[i] is None && forall|j: int|
            0 <= j < i ==> (#[trigger] bindings[j]).id@ != bindings[i].id@,
        faults[i] matches Some(f) ==> binding_fault(bindings, faults, i) == Some(
            StartupError::ChannelCapability(f),
        ),
{
    if binding_fault(bindings, faults, i) is None {
        assert forall|j: int| 0 <= j < i implies (#[trigger] bindings[j]).id@
            != bindings[i].id@ by {}
    }
}

/// A configuration is fit exactly where its limits are and it leaves time to stop.
pub proof fn configuration_is_fit_iff_bounded(
    config: RuntimeConfig,
    limits: Result<(), LimitsError>,
)
    ensures
        config_fault(config, limits) is None <==> limits is Ok && config.default_shutdown_deadline
            > 0,
        limits matches Err(LimitsError::ZeroCapacity(f)) ==> config_fault(config, limits) == Some(
            StartupError::InvalidConfig(f),
        ),
{
}

/// Work is accepted only where the executor took it and the barrier is open; work
/// that started is never given up, and work that never starts is not waited for
/// without end.
pub proof fn work_is_accepted_once_it_started(
    gate: SpawnGate,
    seen: HandedOver,
    v: SpawnVerdict,
    started: bool,
    finished: bool,
    elapsed: u128,
    w: SpawnVerdict,
)
    requires
        call_ensures(handed_over, (&gate, seen), v),
        call_ensures(confirm_started, (started, finished, elapsed), w),
    ensures
        v == SpawnVerdict::Accepted || v == SpawnVerdict::Confirm ==> seen.taken && gate.accepts,
        seen.taken && gate.accepts && !(seen.finished && !seen.started) ==> v
            == SpawnVerdict::Accepted || v == SpawnVerdict::Confirm,
        seen.taken && !gate.accepts ==> v == SpawnVerdict::Abort,
        !seen.taken ==> v == SpawnVerdict::Refused,
        started <==> w == SpawnVerdict::Accepted,
        !started && finished ==> w == SpawnVerdict::Refused,
{
}

/// A live queue has room for what the bounds allow: never fewer than eight places,
/// never more than the exchanges need, and more output never makes it smaller.
pub proof fn live_queue_has_room(
    bytes: usize,
    more: usize,
    exchanges: usize,
    r: usize,
    s: usize,
    c: usize,
)
    requires
        call_ensures(live_capacity, (bytes, exchanges), r),
        call_ensures(live_capacity, (more, exchanges), s),
        call_ensures(continuation_live_capacity, (bytes,), c),
        bytes <= more,
    ensures
        8 <= r <= s,
        exchanges <= 1 ==> r <= 64 && r == c,
        1 <= exchanges && exchanges * 64 <= usize::MAX ==> r <= exchanges * 64,
        2048 <= bytes && bytes as int / 256 <= 64 ==> r == bytes as int / 256,
        8 <= c <= 64,
{
}

/// A unit is told under the session where there is one, as it is, and for its
/// transaction; where there is none nothing is told.
pub proof fn unit_is_told_to_its_session(
    events: OrderedEventPublisher,
    tx: TransactionId,
    channel_id: ChannelId,
    key: Option<SessionKey>,
    payload: TransactionEventPayload,
    r: Option<TransactionEvent>,
)
    requires
        call_ensures(emit_unit_or_session, (&events, tx, &channel_id, &key, payload), r),
    ensures
        r is Some <==> key is Some,
        r matches Some(e) ==> e.transaction_id == tx && e.channel_id == channel_id && e.session_id
            == key->0.session_id && e.payload == payload && e.sequence == events.upcoming(),
{
}

/// A registry of channels is built from channels that are all fit; it holds them in
/// their order, and finds each by its identity.
pub proof fn registry_holds_its_channels(
    bindings: Vec<ChannelBinding>,
    faults: Vec<Option<String>>,
    r: Result<ChannelRegistry, StartupError>,
    k: int,
    id: ChannelId,
    found: Option<&ChannelBinding>,
)
    requires
        bindings.len() == faults.len(),
        call_ensures(ChannelRegistry::build, (bindings, &faults), r),
        r is Ok ==> call_ensures(ChannelRegistry::get, (&r->Ok_0, &id), found),
        0 <= k < bindings@.len(),
    ensures
        r is Ok ==> r->Ok_0@ == bindings@ && faults@[k] is None,
        r is Ok && bindings@[k].id@ == id@ ==> found is Some && *found->0 == bindings@[k],
        r is Ok && found is Some ==> found->0.id@ == id@,
{
    if r is Ok {
        channel_is_fit_iff_new(bindings@, faults@, k);
        if bindings@[k].id@ == id@ && found is Some {
            let i = choose|i: int|
                0 <= i < bindings@.len() && *found->0 == #[trigger] bindings@[i] && found->0.id@
                    == id@ && forall|j: int|
                    0 <= j < i ==> (#[trigger] bindings@[j]).id@ != id@;
            if i < k {
                assert(bindings@[i].id@ != bindings@[k].id@);
            }
        }
    }
}

/// Bounded diagnostics are the first ones, in their order, each with its code.
pub proof fn first_diagnostics_are_kept(
    all: Vec<TransactionDiagnostic>,
    max_count: usize,
    max_bytes: usize,
    r: Vec<TransactionDiagnostic>,
    i: int,
)
    requires
        call_ensures(bound_diagnostics, (all, max_count, max_bytes), r),
        0 <= i < all@.len(),
        i < max_count,
    ensures
        i < r@.len(),
        r@.len() <= max_count,
        r@[i].diagnostic.code == all@[i].diagnostic.code,
        all@[i].diagnostic.message is None ==> r@[i].diagnostic.message is None,
        all@[i].diagnostic.message is Some && encode_utf8(all@[i].diagnostic.message->0@).len()
            <= max_bytes ==> r@[i].diagnostic.message == all@[i].diagnostic.message,
{
}

} // verus!
