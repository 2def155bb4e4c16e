//! What a publisher owes to every command and to its seal.

use crate::contracts::ExternalSessionId;
use crate::identity::TransactionId;
use crate::text::opt_text;
use crate::transaction::lifecycle::event_publisher::{
    carries_out, next, refusal, EventPublisherCommand, PublisherAction, PublisherDeadline,
    PublisherInput, PublisherModel, PublisherPhase, PublisherSetting, PublisherVerdict,
    TerminalPublicationResult,
};
use crate::transaction::types::{
    EventEnqueueError, TerminalEventDelivery, TransactionEndEvent, TransactionEventPayload,
};
use vstd::prelude::*;

verus! {

/// State after a sequence of reports.
pub open spec fn run(
    m: PublisherModel,
    tx: TransactionId,
    inputs: Seq<PublisherInput>,
) -> PublisherModel
    decreases inputs.len(),
{
    if inputs.len() == 0 {
        m
    } else {
        run(next(m, tx, inputs[0]).0, tx, inputs.drop_first())
    }
}

/// Payloads of the ordinary events that a run sends, each with its sequence, in
/// order.
pub open spec fn sent(
    m: PublisherModel,
    tx: TransactionId,
    inputs: Seq<PublisherInput>,
) -> Seq<(u64, TransactionEventPayload)>
    decreases inputs.len(),
{
    if inputs.len() == 0 {
        Seq::empty()
    } else {
        let s = next(m, tx, inputs[0]);
        let rest = sent(s.0, tx, inputs.drop_first());
        match s.1 {
            PublisherVerdict::Send(_, sequence, payload, _) => seq![(sequence, payload)] + rest,
            _ => rest,
        }
    }
}

/// Reports about payloads that are to be published and that the mailbox takes.
pub open spec fn reports(payloads: Seq<TransactionEventPayload>) -> Seq<PublisherInput>
    decreases payloads.len(),
{
    if payloads.len() == 0 {
        Seq::empty()
    } else {
        seq![
            PublisherInput::Command(Some(EventPublisherCommand::Publish(payloads[0]))),
            PublisherInput::SendDone(Ok(())),
        ] + reports(payloads.drop_first())
    }
}

/// A command is published as it is: its payload, under the next sequence, for the
/// session that is known, else for the transaction's own; before the seal under
/// the deadline of the transaction, and behind it, where commands are still read,
/// under that of the seal. Once the mailbox took it, the sequence is used up and
/// the next command is read.
pub proof fn command_is_published_as_it_is(
    m: PublisherModel,
    tx: TransactionId,
    payload: TransactionEventPayload,
)
    requires
        m.phase is Open || m.phase is Draining,
        m.next_seq < u64::MAX,
    ensures
        ({
            let input = PublisherInput::Command(Some(EventPublisherCommand::Publish(payload)));
            let s = next(m, tx, input);
            let t = next(s.0, tx, PublisherInput::SendDone(Ok(())));
            let session = match m.session {
                Some(known) => known,
                None => "tx-"@ + tx.text(),
            };
            &&& s.1 == PublisherVerdict::Send(
                session,
                m.next_seq,
                payload,
                if m.phase is Open {
                    PublisherDeadline::Transaction
                } else {
                    PublisherDeadline::Seal
                },
            )
            &&& t.0.phase == m.phase
            &&& t.0.session == Some(session)
            &&& t.0.last_committed == m.next_seq
            &&& t.0.next_seq == m.next_seq + 1
            &&& t.0.session_established == m.session_established
            &&& t.0.commands_closed == m.commands_closed
            &&& t.0.seal_closed == m.seal_closed
        }),
{
}

/// However many payloads are to be published: each is sent once, in order, under
/// sequences that follow one another, whatever was published before.
pub proof fn every_command_is_published(
    m: PublisherModel,
    tx: TransactionId,
    payloads: Seq<TransactionEventPayload>,
)
    requires
        m.phase is Open || m.phase is Draining,
        m.next_seq + payloads.len() < u64::MAX,
    ensures
        ({
            let said = sent(m, tx, reports(payloads));
            let after = run(m, tx, reports(payloads));
            &&& said.len() == payloads.len()
            &&& forall|i: int|
                0 <= i < payloads.len() ==> #[trigger] said[i] == (
                    (m.next_seq + i) as u64,
                    payloads[i],
                )
            &&& after.phase == m.phase
            &&& after.next_seq == m.next_seq + payloads.len()
            &&& payloads.len() > 0 ==> after.last_committed == m.next_seq + payloads.len() - 1
        }),
    decreases payloads.len(),
{
    if payloads.len() > 0 {
        let first = PublisherInput::Command(Some(EventPublisherCommand::Publish(payloads[0])));
        let took = PublisherInput::SendDone(Ok(()));
        let rest = payloads.drop_first();
        let all = reports(payloads);
        command_is_published_as_it_is(m, tx, payloads[0]);
        let a = next(m, tx, first);
        let b = next(a.0, tx, took);
        every_command_is_published(b.0, tx, rest);
        assert(all[0] == first);
        assert(all.drop_first()[0] == took);
        assert(all.drop_first().drop_first() =~= reports(rest));
        assert(run(a.0, tx, all.drop_first()) == run(b.0, tx, reports(rest)));
        assert(run(m, tx, all) == run(b.0, tx, reports(rest)));
        let later = sent(b.0, tx, reports(rest));
        assert(sent(a.0, tx, all.drop_first()) == later);
        let said = sent(m, tx, all);
        assert(said == seq![(m.next_seq, payloads[0])] + later);
        assert forall|i: int| 0 <= i < payloads.len() implies #[trigger] said[i] == (
            (m.next_seq + i) as u64,
            payloads[i],
        ) by {
            if i > 0 {
                assert(said[i] == later[i - 1]);
                assert(rest[i - 1] == payloads[i]);
            }
        }
    }
}

/// A seal closes admission; once the commands that were admitted are read, the
/// terminal event goes out under the next sequence with the seal's own body, and a
/// mailbox that takes it makes the result a published one.
pub proof fn seal_is_published(m: PublisherModel, tx: TransactionId, seal: TransactionEndEvent)
    requires
        m.phase is Open,
    ensures
        ({
            let a = next(m, tx, PublisherInput::Seal(Some(seal)));
            let b = next(a.0, tx, PublisherInput::Command(None));
            let c = next(b.0, tx, PublisherInput::SendDone(Ok(())));
            &&& a.1 == PublisherVerdict::AwaitCommand
            &&& !a.0.admission_open
            &&& b.1 matches PublisherVerdict::SendEnded(_, sequence, body) && sequence
                == m.next_seq && body == seal
            &&& c.1 == PublisherVerdict::Finish(
                TerminalPublicationResult {
                    delivery: TerminalEventDelivery::Published,
                    last_sequence: m.next_seq,
                },
                true,
            )
        }),
{
}

/// The terminal event goes to the session that is known; to the seal's, where
/// none is known; else to the transaction's own.
pub proof fn terminal_event_goes_to_the_session(
    m: PublisherModel,
    tx: TransactionId,
    seal: TransactionEndEvent,
)
    requires
        m.phase == PublisherPhase::Draining(seal),
    ensures
        ({
            let v = next(m, tx, PublisherInput::Command(None)).1;
            &&& m.session is None && seal.session_id is Some ==> v->SendEnded_0
                == seal.session_id->0@
            &&& m.session is None && seal.session_id is None ==> v->SendEnded_0 == "tx-"@
                + tx.text()
            &&& m.session is Some && m.session->0 != "direct"@ && m.session->0 != "tx-"@
                + tx.text() ==> v->SendEnded_0 == m.session->0
            &&& m.session is Some && seal.session_id is None ==> v->SendEnded_0 == m.session->0
        }),
{
}

/// An outside session that is told as the first event is announced, with its own
/// identity, and is the session of what follows unless another one was known.
pub proof fn session_is_announced(
    m: PublisherModel,
    tx: TransactionId,
    external: ExternalSessionId,
)
    requires
        m.phase is Open || m.phase is Draining,
        !m.session_established,
        m.next_seq == 1,
    ensures
        ({
            let s = next(
                m,
                tx,
                PublisherInput::Command(Some(EventPublisherCommand::EstablishExternal(external))),
            );
            let t = next(s.0, tx, PublisherInput::SendDone(Ok(())));
            &&& s.1 matches PublisherVerdict::Send(session, sequence, payload, _) && session
                == external@ && sequence == 1 && payload
                == (TransactionEventPayload::SessionEstablished { external_session_id: external })
            &&& t.0.session_established
            &&& t.0.last_committed == 1
            &&& m.session is None ==> t.0.session == Some(external@)
            &&& m.session is Some && m.session->0 == "tx-"@ + tx.text() ==> t.0.session == Some(
                external@,
            )
        }),
{
}

/// A second announcement, or one that comes too late, says nothing and changes
/// nothing.
pub proof fn late_announcement_says_nothing(
    m: PublisherModel,
    tx: TransactionId,
    external: ExternalSessionId,
)
    requires
        m.phase is Open || m.phase is Draining,
        m.session_established || m.next_seq != 1,
    ensures
        ({
            let s = next(
                m,
                tx,
                PublisherInput::Command(Some(EventPublisherCommand::EstablishExternal(external))),
            );
            s.0 == m && !(s.1 is Send) && !(s.1 is SendEnded) && !(s.1 is Finish)
        }),
{
}

/// Why an event was not delivered is told as what it was: a closed mailbox, a
/// bound of the mailbox, or time. An event that was not delivered uses no
/// sequence.
pub proof fn undelivered_event_is_told(
    m: PublisherModel,
    tx: TransactionId,
    e: EventEnqueueError,
)
    requires
        m.phase is Sending || m.phase is DrainSending || m.phase is SendingEnded,
    ensures
        refusal(e) == (if e == EventEnqueueError::Closed {
            TerminalEventDelivery::QueueClosed
        } else {
            TerminalEventDelivery::LimitExceeded
        }),
        ({
            let refused = next(m, tx, PublisherInput::SendDone(Err(e)));
            let late = next(m, tx, PublisherInput::DeadlineExpired);
            &&& refused.0.last_committed == m.last_committed
            &&& late.0.last_committed == m.last_committed
            &&& refused.0.next_seq == m.next_seq
            &&& late.0.next_seq == m.next_seq
            &&& m.phase is SendingEnded ==> refused.1 == PublisherVerdict::Finish(
                TerminalPublicationResult {
                    delivery: refusal(e),
                    last_sequence: m.last_committed,
                },
                true,
            ) && late.1 == PublisherVerdict::Finish(
                TerminalPublicationResult {
                    delivery: TerminalEventDelivery::DeadlineExceeded,
                    last_sequence: m.last_committed,
                },
                true,
            )
            &&& !(m.phase is SendingEnded) ==> (refused.0.phase == PublisherPhase::Failed(
                refusal(e),
            ) || refused.0.phase == PublisherPhase::Discarding(refusal(e))) && (late.0.phase
                == PublisherPhase::Failed(TerminalEventDelivery::DeadlineExceeded)
                || late.0.phase == PublisherPhase::Discarding(
                TerminalEventDelivery::DeadlineExceeded,
            ))
        }),
{
}

/// A publisher that failed answers its seal with how it failed, once the commands
/// are out of the way.
pub proof fn failed_publisher_answers_its_seal(
    m: PublisherModel,
    tx: TransactionId,
    seal: TransactionEndEvent,
    fail: TerminalEventDelivery,
)
    requires
        m.phase == PublisherPhase::Failed(fail),
    ensures
        ({
            let a = next(m, tx, PublisherInput::Seal(Some(seal)));
            let b = next(a.0, tx, PublisherInput::Command(None));
            &&& a.1 == PublisherVerdict::AwaitCommand
            &&& b.1 == PublisherVerdict::Finish(
                TerminalPublicationResult {
                    delivery: fail,
                    last_sequence: m.last_committed,
                },
                true,
            )
        }),
{
}

/// A publisher to which nobody can speak any more stops, and tells nobody.
pub proof fn abandoned_publisher_stops(m: PublisherModel, tx: TransactionId)
    requires
        m.phase is Open,
        !m.commands_closed,
        !m.seal_closed,
    ensures
        ({
            let a = next(m, tx, PublisherInput::Seal(None));
            let b = next(a.0, tx, PublisherInput::Command(None));
            let c = next(m, tx, PublisherInput::Command(None));
            let d = next(c.0, tx, PublisherInput::Seal(None));
            let end = PublisherVerdict::Finish(
                TerminalPublicationResult {
                    delivery: TerminalEventDelivery::QueueClosed,
                    last_sequence: m.last_committed,
                },
                false,
            );
            &&& a.1 == PublisherVerdict::Await
            &&& b.1 == end
            &&& c.1 == PublisherVerdict::Await
            &&& d.1 == end
        }),
{
}

/// What is handed to the mailbox is what the verdict says, as an event of the
/// transaction on its channel; the terminal event says what the seal says, with
/// its own sequence as the count of events and its own session.
pub proof fn event_is_that_of_the_command(
    action: PublisherAction,
    setting: PublisherSetting,
    m: PublisherModel,
    v: PublisherVerdict,
)
    requires
        carries_out(action, setting, m, v),
    ensures
        v matches PublisherVerdict::Send(session, sequence, payload, under) ==> (action matches
            PublisherAction::Send(event, deadline) && {
            &&& deadline == under
            &&& event.transaction_id == setting.transaction_id
            &&& event.channel_id == setting.channel_id
            &&& event.session_id@ == session
            &&& event.sequence == sequence
            &&& event.payload == payload
        }),
        v matches PublisherVerdict::SendEnded(session, sequence, seal) ==> (action matches
            PublisherAction::Send(event, deadline) && {
            &&& deadline == PublisherDeadline::Seal
            &&& event.transaction_id == setting.transaction_id
            &&& event.channel_id == setting.channel_id
            &&& event.session_id@ == session
            &&& event.sequence == sequence
            &&& event.payload matches TransactionEventPayload::EndedEvent(end) && {
                &&& end.transaction_id == seal.transaction_id
                &&& end.channel_id == seal.channel_id
                &&& end.kind == seal.kind
                &&& end.usage == seal.usage
                &&& end.diagnostics == seal.diagnostics
                &&& end.emitted_events == sequence
                &&& opt_text(end.session_id) == Some(session)
            }
        }),
        v matches PublisherVerdict::Finish(result, reply) ==> action == PublisherAction::Finish(
            result,
            reply,
        ),
{
}

} // verus!
