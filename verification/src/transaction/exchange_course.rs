//! What an exchange with a provider owes: its steps in order, the failure that
//! stopped it, and the size of what came.

use crate::contracts::{CanonicalUnit, CanonicalUnitEvent, ExternalSessionId, InterpretationEndKind};
use crate::identity::ExchangeId;
use crate::text::utf8_len;
use crate::transaction::exchange::{
    after_body, failure_kind, next, opt_len, plus_units, pump_step, reconciled, unit_size,
    ConnectionEndKind, EncodedFacts, ExchangeAction, ExchangeCleanup, ExchangeFailure,
    ExchangeInput, ExchangePhase, ExchangeRun, PumpAction, PumpInput,
};
use crate::transaction::lifecycle::exchange::{
    direct_outcome, ends_failure, next as supervised_next, retained_size, ChildSpawn,
    DirectExchangeOutcome, OpenOutcome, PromptProceedError, SupervisedAction, SupervisedFailure,
    SupervisedInput, SupervisedLimits, SupervisedPhase,
};
use crate::transaction::types::TransactionEndKind;
use vstd::prelude::*;

verus! {

/// What an exchange comes to goes by its two ends: a connection that was
/// cancelled, terminated or broken says so whatever was read, and else the
/// interpretation says it.
pub proof fn exchange_goes_by_its_ends(conn: ConnectionEndKind, interp: InterpretationEndKind)
    ensures
        conn == ConnectionEndKind::Cancelled ==> reconciled(conn, interp) == Some(
            ExchangeFailure::Cancelled,
        ),
        conn == ConnectionEndKind::Terminated ==> reconciled(conn, interp) == Some(
            ExchangeFailure::Terminated,
        ),
        conn == ConnectionEndKind::TransportFailure ==> reconciled(conn, interp) == Some(
            ExchangeFailure::ConnectorFailed,
        ),
        conn == ConnectionEndKind::RemoteEof || conn == ConnectionEndKind::LocalShutdown ==> {
            let r = reconciled(conn, interp);
            &&& interp == InterpretationEndKind::Complete <==> r is None
            &&& interp == InterpretationEndKind::Cancelled <==> r == Some(
                ExchangeFailure::Cancelled,
            )
            &&& interp == InterpretationEndKind::Terminated <==> r == Some(
                ExchangeFailure::Terminated,
            )
            &&& interp == InterpretationEndKind::TransportFailed <==> r == Some(
                ExchangeFailure::ConnectorFailed,
            )
            &&& interp == InterpretationEndKind::DialectFailed || interp
                == InterpretationEndKind::LimitExceeded || interp
                == InterpretationEndKind::InvariantFailed <==> r == Some(
                ExchangeFailure::InterpretationFailed,
            )
        },
{
}

/// A supervised exchange comes to the same.
pub proof fn supervised_exchange_goes_by_its_ends(
    conn: ConnectionEndKind,
    interp: InterpretationEndKind,
)
    ensures
        ends_failure(conn, interp) is None <==> reconciled(conn, interp) is None,
        ends_failure(conn, interp) == Some(SupervisedFailure::Cancelled) <==> reconciled(
            conn,
            interp,
        ) == Some(ExchangeFailure::Cancelled),
        ends_failure(conn, interp) == Some(SupervisedFailure::Terminated) <==> reconciled(
            conn,
            interp,
        ) == Some(ExchangeFailure::Terminated),
        ends_failure(conn, interp) == Some(SupervisedFailure::ConnectorFailed) <==> reconciled(
            conn,
            interp,
        ) == Some(ExchangeFailure::ConnectorFailed),
        ends_failure(conn, interp) == Some(SupervisedFailure::InterpretationFailed)
            <==> reconciled(conn, interp) == Some(ExchangeFailure::InterpretationFailed),
{
}

/// Every failure has its terminal kind: each is told as what it is.
pub proof fn failure_is_told_as_what_it_is(f: ExchangeFailure, g: SupervisedFailure)
    ensures
        f == ExchangeFailure::ChannelOpenFailed <==> failure_kind(f)
            == TransactionEndKind::ChannelOpenFailed,
        f == ExchangeFailure::EncodingFailed <==> failure_kind(f)
            == TransactionEndKind::EncodingFailed,
        f == ExchangeFailure::ConnectorFailed <==> failure_kind(f)
            == TransactionEndKind::ConnectorFailed,
        f == ExchangeFailure::InterpretationFailed <==> failure_kind(f)
            == TransactionEndKind::InterpretationFailed,
        f == ExchangeFailure::Cancelled <==> failure_kind(f) == TransactionEndKind::Cancelled,
        f == ExchangeFailure::Terminated <==> failure_kind(f) == TransactionEndKind::Terminated,
        f == ExchangeFailure::LimitExceeded <==> failure_kind(f)
            == TransactionEndKind::LimitExceeded,
        f == ExchangeFailure::InvariantFailed <==> failure_kind(f)
            == TransactionEndKind::InvariantFailed,
        f == ExchangeFailure::ClaimDeadlineExceeded <==> failure_kind(f)
            == TransactionEndKind::DeadlineExceeded,
        g == SupervisedFailure::ChannelOpenFailed <==> g.kind()
            == TransactionEndKind::ChannelOpenFailed,
        g == SupervisedFailure::EncodingFailed <==> g.kind() == TransactionEndKind::EncodingFailed,
        g == SupervisedFailure::ConnectorFailed <==> g.kind()
            == TransactionEndKind::ConnectorFailed,
        g == SupervisedFailure::InterpretationFailed <==> g.kind()
            == TransactionEndKind::InterpretationFailed,
        g == SupervisedFailure::Cancelled <==> g.kind() == TransactionEndKind::Cancelled,
        g == SupervisedFailure::Terminated <==> g.kind() == TransactionEndKind::Terminated,
        g == SupervisedFailure::LimitExceeded <==> g.kind() == TransactionEndKind::LimitExceeded,
        g == SupervisedFailure::DeadlineExceeded <==> g.kind()
            == TransactionEndKind::DeadlineExceeded,
        g == SupervisedFailure::InvariantFailed || g == SupervisedFailure::SpawnFailed <==> (
        g.kind() == TransactionEndKind::InvariantFailed),
{
}

/// An exchange that nothing stands against takes every step, in order: it opens,
/// starts interpreter and pump, waits for the barrier where there is one, sends
/// the body where there is any, closes the input where none follows, collects, and
/// waits for both ends and its children; then it tells what the ends tell.
pub proof fn exchange_takes_every_step(
    s: ExchangeRun,
    b: EncodedFacts,
    conn: ConnectionEndKind,
    interp: InterpretationEndKind,
)
    requires
        s.phase == ExchangePhase::Encoding,
        b.bytes <= s.max_encoded_bytes,
        b.bytes <= s.max_remaining_input_bytes,
    ensures
        ({
            let at = |p: ExchangePhase| ExchangeRun { phase: p, ..s };
            let opening = next(s, ExchangeInput::Encoded(Some(b)));
            let reading = next(at(opening.0), ExchangeInput::Opened(true));
            let pumping = next(at(reading.0), ExchangeInput::InterpreterStarted(true));
            let pumped = next(at(pumping.0), ExchangeInput::PumpStarted);
            let ready = if s.gated {
                next(at(pumped.0), ExchangeInput::GateOpened)
            } else {
                pumped
            };
            let said = if b.bytes > 0 {
                next(at(ready.0), ExchangeInput::BodySent(true))
            } else {
                ready
            };
            let closed = if b.finish {
                next(at(said.0), ExchangeInput::InputFinished(true))
            } else {
                said
            };
            let running = next(at(closed.0), ExchangeInput::CollectorStarted(true));
            let ended = next(at(running.0), ExchangeInput::Ended(conn, interp));
            let told = next(at(ended.0), ExchangeInput::Joined { exceeded: false });
            let excess = next(at(ended.0), ExchangeInput::Joined { exceeded: true });
            &&& opening.1 == ExchangeAction::Open
            &&& reading.1 == ExchangeAction::StartInterpreter
            &&& pumping.1 == ExchangeAction::StartPump
            &&& s.gated ==> pumped.1 == ExchangeAction::AwaitGate
            &&& b.bytes > 0 ==> ready.1 == ExchangeAction::SendBody
            &&& b.finish ==> said.1 == ExchangeAction::FinishInput
            &&& closed.1 == ExchangeAction::StartCollector
            &&& running.1 == ExchangeAction::AwaitEnds
            &&& ended.1 == ExchangeAction::JoinChildren
            &&& told.1 == ExchangeAction::Finish(reconciled(conn, interp))
            &&& excess.1 == ExchangeAction::Fail(
                ExchangeFailure::LimitExceeded,
                ExchangeCleanup::Nothing,
            )
        }),
{
}

/// What stopped an exchange is told as what it was.
pub proof fn stopped_exchange_is_told(s: ExchangeRun, b: EncodedFacts)
    ensures
        s.phase == ExchangePhase::Encoding ==> next(s, ExchangeInput::Encoded(None)).1
            == ExchangeAction::Fail(ExchangeFailure::EncodingFailed, ExchangeCleanup::Nothing),
        s.phase == ExchangePhase::Encoding && b.bytes > s.max_encoded_bytes ==> next(
            s,
            ExchangeInput::Encoded(Some(b)),
        ).1 == ExchangeAction::Fail(ExchangeFailure::EncodingFailed, ExchangeCleanup::Nothing),
        s.phase == ExchangePhase::Encoding && b.bytes <= s.max_encoded_bytes && b.bytes
            > s.max_remaining_input_bytes ==> next(s, ExchangeInput::Encoded(Some(b))).1
            == ExchangeAction::Fail(ExchangeFailure::LimitExceeded, ExchangeCleanup::Nothing),
        s.phase is Opening ==> next(s, ExchangeInput::Opened(false)).1 == ExchangeAction::Fail(
            ExchangeFailure::ChannelOpenFailed,
            ExchangeCleanup::TerminateOpen,
        ),
        s.phase is StartingInterpreter ==> (next(
            s,
            ExchangeInput::InterpreterStarted(false),
        ).1 matches ExchangeAction::Fail(f, _) && f == ExchangeFailure::InterpretationFailed),
        s.phase is SendingBody ==> (next(s, ExchangeInput::BodySent(false)).1 matches
            ExchangeAction::Fail(f, _) && f == ExchangeFailure::ConnectorFailed),
        s.phase is FinishingInput ==> (next(s, ExchangeInput::InputFinished(false)).1 matches
            ExchangeAction::Fail(f, _) && f == ExchangeFailure::ConnectorFailed),
        s.phase is StartingCollector ==> (next(s, ExchangeInput::CollectorStarted(false)).1 matches
            ExchangeAction::Fail(f, _) && f == ExchangeFailure::ConnectorFailed),
        s.phase is Running ==> (next(s, ExchangeInput::DeadlineExpired).1 matches
            ExchangeAction::Fail(f, c) && f == ExchangeFailure::ConnectorFailed && c
            == ExchangeCleanup::TerminateAll),
        s.phase is AwaitingGate ==> (next(s, ExchangeInput::GateFailed).1 matches
            ExchangeAction::Fail(f, _) && f == ExchangeFailure::InvariantFailed),
        s.phase is AwaitingGate ==> (next(s, ExchangeInput::GateTimedOut).1 matches
            ExchangeAction::Fail(f, _) && f == ExchangeFailure::ClaimDeadlineExceeded),
{
}

/// The pump hands on what it reads: bytes, a clean end, a cancellation, a failure.
pub proof fn pump_hands_on_what_it_reads(input: PumpInput, r: PumpAction)
    requires
        call_ensures(pump_step, (input,), r),
    ensures
        input == PumpInput::Chunk <==> r == PumpAction::Push,
        input == PumpInput::Eof <==> r == PumpAction::FinishClean,
        input == PumpInput::Cancelled || input == PumpInput::Terminated <==> r
            == PumpAction::Cancel,
        input == PumpInput::Failed <==> r == PumpAction::TransportFailed,
        input == PumpInput::Refused <==> r == PumpAction::Stop,
{
}

/// A supervised exchange that nothing stands against takes every step, in order.
pub proof fn supervised_exchange_takes_every_step(
    limits: SupervisedLimits,
    b: EncodedFacts,
    conn: ConnectionEndKind,
    interp: InterpretationEndKind,
)
    requires
        b.bytes <= limits.max_encoded_bytes,
        b.bytes <= limits.max_remaining_input_bytes,
    ensures
        ({
            let taken = SupervisedInput::Spawned(ChildSpawn::Taken);
            let opening = supervised_next(
                SupervisedPhase::Encoding,
                limits,
                SupervisedInput::Encoded(Some(b)),
            );
            let owning = supervised_next(
                opening.0,
                limits,
                SupervisedInput::Opened(OpenOutcome::Opened { owner_work: true }),
            );
            let reading = supervised_next(owning.0, limits, taken);
            let pumping = supervised_next(
                reading.0,
                limits,
                SupervisedInput::InterpreterStarted(true),
            );
            let pumped = supervised_next(pumping.0, limits, taken);
            let waiting = supervised_next(pumped.0, limits, SupervisedInput::SessionTold(true));
            let ready = if limits.gated {
                supervised_next(waiting.0, limits, SupervisedInput::Proceed(Ok(())))
            } else {
                pumped
            };
            let said = if b.bytes > 0 {
                supervised_next(ready.0, limits, SupervisedInput::BodySent(true))
            } else {
                ready
            };
            let closed = if b.finish {
                supervised_next(said.0, limits, SupervisedInput::InputFinished(true))
            } else {
                said
            };
            let running = supervised_next(closed.0, limits, taken);
            let ended = supervised_next(running.0, limits, SupervisedInput::Ended(conn, interp));
            let told = supervised_next(ended.0, limits, SupervisedInput::ChildrenJoined);
            &&& opening.1 == SupervisedAction::Open
            &&& owning.1 == SupervisedAction::SpawnOwner
            &&& reading.1 == SupervisedAction::StartInterpreter
            &&& pumping.1 == SupervisedAction::SpawnPump
            &&& limits.gated ==> pumped.1 == SupervisedAction::TellSession && waiting.1
                == SupervisedAction::AwaitProceed
            &&& b.bytes > 0 ==> ready.1 == SupervisedAction::SendBody
            &&& b.finish ==> said.1 == SupervisedAction::FinishInput
            &&& closed.1 == SupervisedAction::SpawnCollector
            &&& running.1 == SupervisedAction::AwaitEnds
            &&& ended.1 == (SupervisedAction::JoinChildren { terminate: false })
            &&& told.1 == SupervisedAction::Finish(ends_failure(conn, interp))
        }),
{
}

/// What stopped a supervised exchange is told as what it was; one that runs is
/// terminated and its children are waited for before it is told.
pub proof fn stopped_supervised_exchange_is_told(
    phase: SupervisedPhase,
    limits: SupervisedLimits,
    b: EncodedFacts,
)
    ensures
        phase == SupervisedPhase::Encoding && (b.bytes > limits.max_encoded_bytes) ==> (
        supervised_next(phase, limits, SupervisedInput::Encoded(Some(b))).1 matches
            SupervisedAction::Fail(f, _) && f == SupervisedFailure::EncodingFailed),
        phase == SupervisedPhase::Encoding ==> (supervised_next(
            phase,
            limits,
            SupervisedInput::Encoded(None),
        ).1 matches SupervisedAction::Fail(f, _) && f == SupervisedFailure::EncodingFailed),
        phase == SupervisedPhase::Encoding && b.bytes <= limits.max_encoded_bytes && b.bytes
            > limits.max_remaining_input_bytes ==> (supervised_next(
            phase,
            limits,
            SupervisedInput::Encoded(Some(b)),
        ).1 matches SupervisedAction::Fail(f, _) && f == SupervisedFailure::LimitExceeded),
        phase is Opening ==> ({
            let cancelled = supervised_next(phase, limits, SupervisedInput::Cancelled).1;
            let failed = supervised_next(
                phase,
                limits,
                SupervisedInput::Opened(OpenOutcome::Failed),
            ).1;
            let late = supervised_next(
                phase,
                limits,
                SupervisedInput::Opened(OpenOutcome::TimedOut),
            ).1;
            let idle = supervised_next(
                phase,
                limits,
                SupervisedInput::Opened(OpenOutcome::Opened { owner_work: false }),
            ).1;
            &&& cancelled matches SupervisedAction::Fail(f, c) && f
                == SupervisedFailure::Cancelled && c.terminate
            &&& failed matches SupervisedAction::Fail(f, _) && f
                == SupervisedFailure::ChannelOpenFailed
            &&& late matches SupervisedAction::Fail(f, c) && f
                == SupervisedFailure::DeadlineExceeded && c.terminate
            &&& idle matches SupervisedAction::Fail(f, c) && f
                == SupervisedFailure::InvariantFailed && c.terminate
        }),
        phase is AwaitingProceed ==> ({
            let full = supervised_next(
                phase,
                limits,
                SupervisedInput::Proceed(Err(PromptProceedError::DistinctSessionsExceeded)),
            ).1;
            let shut = supervised_next(
                phase,
                limits,
                SupervisedInput::Proceed(Err(PromptProceedError::Failed)),
            ).1;
            let cancelled = supervised_next(phase, limits, SupervisedInput::Cancelled).1;
            &&& full matches SupervisedAction::Fail(f, c) && f == SupervisedFailure::LimitExceeded
                && c.await_children
            &&& shut matches SupervisedAction::Fail(f, c) && f
                == SupervisedFailure::InvariantFailed && c.await_children
            &&& cancelled matches SupervisedAction::Fail(f, c) && f
                == SupervisedFailure::Cancelled && c.await_children
        }),
        phase is StartingInterpreter ==> (supervised_next(
            phase,
            limits,
            SupervisedInput::InterpreterStarted(false),
        ).1 matches SupervisedAction::Fail(f, c) && f == SupervisedFailure::InterpretationFailed
            && c.await_children),
        phase is SendingBody ==> (supervised_next(
            phase,
            limits,
            SupervisedInput::BodySent(false),
        ).1 matches SupervisedAction::Fail(f, c) && f == SupervisedFailure::ConnectorFailed
            && c.await_children),
        phase is FinishingInput ==> (supervised_next(
            phase,
            limits,
            SupervisedInput::InputFinished(false),
        ).1 matches SupervisedAction::Fail(f, c) && f == SupervisedFailure::ConnectorFailed
            && c.await_children),
        phase == SupervisedPhase::Running ==> ({
            let cancelled = supervised_next(phase, limits, SupervisedInput::Cancelled);
            let excess = supervised_next(phase, limits, SupervisedInput::LimitExceeded);
            let late = supervised_next(phase, limits, SupervisedInput::DeadlineExpired);
            let joined = SupervisedInput::ChildrenJoined;
            &&& cancelled.1 == (SupervisedAction::JoinChildren { terminate: true })
            &&& excess.1 == (SupervisedAction::JoinChildren { terminate: true })
            &&& late.1 == (SupervisedAction::JoinChildren { terminate: true })
            &&& supervised_next(cancelled.0, limits, joined).1 == SupervisedAction::Finish(
                Some(SupervisedFailure::Cancelled),
            )
            &&& supervised_next(excess.0, limits, joined).1 == SupervisedAction::Finish(
                Some(SupervisedFailure::LimitExceeded),
            )
            &&& supervised_next(late.0, limits, joined).1 == SupervisedAction::Finish(
                Some(SupervisedFailure::DeadlineExceeded),
            )
        }),
{
}

/// An exchange that succeeded hands over all its units, in order, and its session;
/// one that failed hands over neither, and its kind.
pub proof fn outcome_hands_over_the_units(
    failure: Option<SupervisedFailure>,
    units: Vec<CanonicalUnitEvent>,
    exchange_id: ExchangeId,
    session: Option<ExternalSessionId>,
    r: DirectExchangeOutcome<CanonicalUnitEvent>,
)
    requires
        call_ensures(
            direct_outcome::<CanonicalUnitEvent>,
            (failure, units, exchange_id, session),
            r,
        ),
    ensures
        r.exchange_id == exchange_id,
        failure is None ==> r.units@ == units@ && r.terminal == TransactionEndKind::Completed
            && r.external_session_id == session,
        failure is Some ==> r.units@.len() == 0 && r.terminal != TransactionEndKind::Completed
            && r.terminal == failure->0.kind() && r.external_session_id is None,
{
}

/// The size of units is the sum of their sizes.
pub proof fn units_add_up(
    start: usize,
    a: Seq<CanonicalUnitEvent>,
    b: Seq<CanonicalUnitEvent>,
    one: CanonicalUnitEvent,
)
    ensures
        plus_units(start, Seq::<CanonicalUnitEvent>::empty()) == start,
        plus_units(start, a + b) == plus_units(plus_units(start, a), b),
        start + unit_size(one) <= usize::MAX ==> plus_units(start, seq![one]) == start + unit_size(
            one,
        ),
    decreases b.len(),
{
    let single = seq![one];
    assert(single.drop_last() =~= Seq::<CanonicalUnitEvent>::empty());
    assert(plus_units(start, single.drop_last()) == start);
    if b.len() == 0 {
        assert(a + b =~= a);
    } else {
        units_add_up(start, a, b.drop_last(), one);
        assert((a + b).drop_last() =~= a + b.drop_last());
        assert((a + b).last() == b.last());
    }
}

/// Bytes of the identities of a unit.
pub open spec fn identity_bytes(u: CanonicalUnitEvent) -> int {
    let s = u.unit_snapshot();
    utf8_len(s.unit_id@) + utf8_len(s.interpretation_id@) + utf8_len(s.connection_id@) + (
    match s.external_session_id {
        Some(x) => utf8_len(x@) as int,
        None => 0,
    }) + utf8_len(s.flow_id@) + utf8_len(s.lane_id@)
}

/// Bytes of an optional text.
pub open spec fn text_bytes(s: Option<String>) -> int {
    match s {
        Some(t) => utf8_len(t@) as int,
        None => 0,
    }
}

/// A unit counts for its identities and all that it carries: a text and a structure
/// for their content, a tool for its name, its request, its result and its action.
pub proof fn unit_counts_for_what_it_carries(u: CanonicalUnitEvent)
    ensures
        ({
            let ids = identity_bytes(u);
            let small = |n: int| ids + n + 64 <= usize::MAX;
            match u.unit_snapshot().unit {
                CanonicalUnit::Text(t) => small(utf8_len(t.content@) as int) ==> unit_size(u)
                    == ids + utf8_len(t.content@) + 64,
                CanonicalUnit::Structure(t) => small(utf8_len(t@) as int) ==> unit_size(u) == ids
                    + utf8_len(t@) + 64,
                CanonicalUnit::Diagnostic(t) => small(utf8_len(t@) + 16) ==> unit_size(u) == ids
                    + utf8_len(t@) + 16 + 64,
                CanonicalUnit::Tool(t) => {
                    let n = text_bytes(t.tool_name) + text_bytes(t.request_payload) + text_bytes(
                        t.result_payload,
                    ) + utf8_len(t.tool_action_id@);
                    small(n) ==> unit_size(u) == ids + n + 64
                },
                CanonicalUnit::Usage => small(32) ==> unit_size(u) == ids + 32 + 64,
                CanonicalUnit::Paragraph | CanonicalUnit::Boundary => small(16) ==> unit_size(u)
                    == ids + 16 + 64,
            }
        }),
        ({
            let small = |n: int| n + 128 <= usize::MAX;
            match u.unit_snapshot().unit {
                CanonicalUnit::Text(t) => small(utf8_len(t.content@) as int) ==> retained_size(u)
                    == utf8_len(t.content@) + 128,
                CanonicalUnit::Structure(t) => small(utf8_len(t@) as int) ==> retained_size(u)
                    == utf8_len(t@) + 128,
                CanonicalUnit::Diagnostic(t) => small(utf8_len(t@) as int) ==> retained_size(u)
                    == utf8_len(t@) + 128,
                CanonicalUnit::Tool(t) => {
                    let n = text_bytes(t.request_payload) + text_bytes(t.result_payload);
                    small(n) ==> retained_size(u) == n + 128
                },
                _ => retained_size(u) == 160,
            }
        }),
{
}

/// The input is closed after the body exactly where no more follows.
pub proof fn input_is_closed_where_none_follows(finish: bool, s: Option<String>)
    ensures
        finish <==> after_body(finish).1 == ExchangeAction::FinishInput,
        opt_len(s) == text_bytes(s),
{
}

} // verus!
