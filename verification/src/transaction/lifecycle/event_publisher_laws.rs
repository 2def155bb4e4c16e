//! What holds of every run of a publisher.

use crate::identity::TransactionId;
use crate::transaction::lifecycle::event_publisher::{
    after_command, initial, next, successor, EventPublisherCommand, PublisherInput, PublisherModel,
    PublisherPhase, PublisherVerdict, TerminalPublicationResult,
};
use crate::transaction::types::{TerminalEventDelivery, TransactionEndEvent};
use vstd::prelude::*;

verus! {

/// Sequence of the event that a report says was taken by the mailbox.
pub open spec fn taken(m: PublisherModel, input: PublisherInput) -> Option<u64> {
    match (m.phase, input) {
        (PublisherPhase::Sending { .. }, PublisherInput::SendDone(Ok(()))) => Some(m.next_seq),
        (PublisherPhase::DrainSending { .. }, PublisherInput::SendDone(Ok(()))) => Some(m.next_seq),
        (PublisherPhase::SendingEnded, PublisherInput::SendDone(Ok(()))) => Some(m.next_seq),
        _ => None,
    }
}

/// Sequences of the events that a run delivers, in order.
pub open spec fn delivered(
    m: PublisherModel,
    transaction_id: TransactionId,
    inputs: Seq<PublisherInput>,
) -> Seq<u64>
    decreases inputs.len(),
{
    if inputs.len() == 0 {
        Seq::empty()
    } else {
        let rest = delivered(
            next(m, transaction_id, inputs[0]).0,
            transaction_id,
            inputs.drop_first(),
        );
        match taken(m, inputs[0]) {
            Some(seq) => seq![seq] + rest,
            None => rest,
        }
    }
}

/// How often a run finishes.
pub open spec fn finish_count(
    m: PublisherModel,
    transaction_id: TransactionId,
    inputs: Seq<PublisherInput>,
) -> nat
    decreases inputs.len(),
{
    if inputs.len() == 0 {
        0
    } else {
        let s = next(m, transaction_id, inputs[0]);
        finish_count(s.0, transaction_id, inputs.drop_first()) + if s.1 is Finish {
            1nat
        } else {
            0nat
        }
    }
}

/// What every reachable state has: sequences are contiguous, and behind the
/// fence nothing is admitted.
pub open spec fn ordered(m: PublisherModel) -> bool {
    &&& !(m.phase is Done) ==> m.next_seq == successor(m.last_committed)
    &&& (m.phase is Draining || m.phase is DrainSending || m.phase is Discarding
        || m.phase is SendingEnded) ==> !m.admission_open
    &&& m.seal_closed ==> !m.admission_open
}

/// A fresh publisher is ordered.
pub proof fn order_starts(session: Option<Seq<char>>)
    ensures
        ordered(initial(session)),
{
}

/// Every step keeps the order, never reopens admission, and moves the last
/// committed sequence only when the mailbox took an event.
pub proof fn order_is_kept(m: PublisherModel, transaction_id: TransactionId, input: PublisherInput)
    requires
        ordered(m),
    ensures
        ({
            let s = next(m, transaction_id, input);
            &&& ordered(s.0)
            &&& s.0.admission_open ==> m.admission_open
            &&& s.0.last_committed == (match taken(m, input) {
                Some(seq) => seq,
                None => m.last_committed,
            })
        }),
{
}

proof fn lemma_delivered(
    m: PublisherModel,
    transaction_id: TransactionId,
    inputs: Seq<PublisherInput>,
)
    requires
        ordered(m),
        m.last_committed + inputs.len() < u64::MAX,
    ensures
        delivered(m, transaction_id, inputs).len() <= inputs.len(),
        m.phase is Done ==> delivered(m, transaction_id, inputs).len() == 0,
        forall|i: int|
            0 <= i < delivered(m, transaction_id, inputs).len() ==> #[trigger] delivered(
                m,
                transaction_id,
                inputs,
            )[i] == m.last_committed + 1 + i,
    decreases inputs.len(),
{
    if inputs.len() > 0 {
        order_is_kept(m, transaction_id, inputs[0]);
        lemma_delivered(
            next(m, transaction_id, inputs[0]).0,
            transaction_id,
            inputs.drop_first(),
        );
    }
}

/// The events that a run delivers are numbered 1, 2, 3 and so on.
pub proof fn delivered_sequences_are_contiguous(
    session: Option<Seq<char>>,
    transaction_id: TransactionId,
    inputs: Seq<PublisherInput>,
)
    requires
        inputs.len() < u64::MAX,
    ensures
        forall|i: int|
            0 <= i < delivered(initial(session), transaction_id, inputs).len()
                ==> #[trigger] delivered(initial(session), transaction_id, inputs)[i] == i + 1,
{
    lemma_delivered(initial(session), transaction_id, inputs);
}

/// A run finishes at most once.
pub proof fn finish_is_unique(
    m: PublisherModel,
    transaction_id: TransactionId,
    inputs: Seq<PublisherInput>,
)
    ensures
        finish_count(m, transaction_id, inputs) <= 1,
        m.phase is Done ==> finish_count(m, transaction_id, inputs) == 0,
    decreases inputs.len(),
{
    if inputs.len() > 0 {
        finish_is_unique(
            next(m, transaction_id, inputs[0]).0,
            transaction_id,
            inputs.drop_first(),
        );
    }
}

/// Once an event was not delivered, nothing more is sent, and the result says
/// how delivery failed; it never says that the terminal event was published.
pub proof fn failure_is_sticky(
    m: PublisherModel,
    transaction_id: TransactionId,
    input: PublisherInput,
    fail: TerminalEventDelivery,
)
    requires
        m.phase == PublisherPhase::Failed(fail) || m.phase == PublisherPhase::Discarding(fail),
    ensures
        ({
            let s = next(m, transaction_id, input);
            &&& !(s.1 is Send) && !(s.1 is SendEnded)
            &&& s.0.phase == PublisherPhase::Failed(fail) || s.0.phase
                == PublisherPhase::Discarding(fail) || s.0.phase is Done
            &&& s.1 matches PublisherVerdict::Finish(result, _) ==> result.delivery == fail
                && result.last_sequence == m.last_committed
        }),
{
}

/// A refused or late event makes the publisher fail with that cause.
pub proof fn undelivered_event_fails(
    m: PublisherModel,
    transaction_id: TransactionId,
    input: PublisherInput,
)
    requires
        m.phase is Sending || m.phase is DrainSending,
        input is DeadlineExpired || (input matches PublisherInput::SendDone(r) && r is Err),
    ensures
        ({
            let s = next(m, transaction_id, input);
            s.0.phase is Failed || s.0.phase is Discarding
        }),
{
}

/// The terminal event is sent only behind the fence, when every admitted
/// command was handled; it has the next sequence, and a published result
/// names that sequence.
pub proof fn terminal_event_is_last(
    m: PublisherModel,
    transaction_id: TransactionId,
    input: PublisherInput,
)
    requires
        ordered(m),
        next(m, transaction_id, input).1 is SendEnded,
    ensures
        m.phase is Draining,
        input == PublisherInput::Command(None),
        !next(m, transaction_id, input).0.admission_open,
        next(m, transaction_id, input).1->SendEnded_1 == successor(m.last_committed),
        ({
            let sent = next(m, transaction_id, input).0;
            let end = next(sent, transaction_id, PublisherInput::SendDone(Ok(())));
            &&& end.1 == PublisherVerdict::Finish(
                TerminalPublicationResult {
                    delivery: TerminalEventDelivery::Published,
                    last_sequence: successor(m.last_committed),
                },
                true,
            )
            &&& end.0.phase is Done
        }),
{
}

/// Whatever arrives after the end changes nothing.
pub proof fn done_is_final(m: PublisherModel, transaction_id: TransactionId, input: PublisherInput)
    requires
        m.phase is Done,
    ensures
        next(m, transaction_id, input) == (m, PublisherVerdict::Ignore),
{
}

/// A session is announced as the first event or not at all.
pub proof fn session_is_announced_first(
    m: PublisherModel,
    transaction_id: TransactionId,
    external: String,
    seal: Option<TransactionEndEvent>,
)
    ensures
        after_command(
            m,
            transaction_id,
            EventPublisherCommand::EstablishExternal(external),
            seal,
        ).1 matches PublisherVerdict::Send(session, seq, payload, _) ==> seq == 1 && session
            == external@,
{
}

/// A seal that arrives while an event is in flight does not drop that event:
/// if the mailbox takes it, it is committed before the fence is drained.
pub proof fn seal_finishes_event_in_flight(
    m: PublisherModel,
    transaction_id: TransactionId,
    seal: TransactionEndEvent,
)
    requires
        ordered(m),
        m.phase matches PublisherPhase::Sending { establishes, seal: none } && none is None,
    ensures
        ({
            let a = next(m, transaction_id, PublisherInput::Seal(Some(seal)));
            let b = next(a.0, transaction_id, PublisherInput::SendDone(Ok(())));
            &&& a.1 is AwaitSend
            &&& b.0.last_committed == m.next_seq
            &&& b.0.phase == PublisherPhase::Draining(seal)
            &&& !b.0.admission_open
        }),
{
}

} // verus!
