//! Publisher of the events of one transaction.
//!
//! It alone allocates event sequences. A seal is an ordering fence: admission
//! closes, the event in flight is finished under the seal's deadline, what was
//! admitted before the fence is published, and then the terminal event. Once an
//! event could not be delivered, the terminal one is not attempted.
//!
//! [`EventPublisher::step`] is the whole machine; the driver performs the
//! action that a step returns and reports what happened.

use crate::contracts::ExternalSessionId;
use crate::identity::TransactionId;
use crate::text::{clone_opt, opt_text};
use crate::transaction::lifecycle::session_identity::{ensure_session, resolved_session};
use crate::transaction::types::{
    ChannelId, EventEnqueueError, SessionId, TerminalEventDelivery, TransactionEndEvent,
    TransactionEvent, TransactionEventPayload,
};
use vstd::prelude::*;

verus! {

/// Ordinary commands from the coordinator.
#[derive(Clone, Debug)]
pub enum EventPublisherCommand {
    /// Establish an external session before ordinary events.
    EstablishExternal(ExternalSessionId),
    /// Publish one ordinary payload.
    Publish(TransactionEventPayload),
}

/// Result of a seal.
#[derive(Clone, Copy, Debug, PartialEq, Eq, Structural)]
pub struct TerminalPublicationResult {
    /// How the terminal event was (or was not) delivered.
    pub delivery: TerminalEventDelivery,
    /// Last committed sequence (the terminal one, if published).
    pub last_sequence: u64,
}

/// What the publisher waits for.
#[allow(inconsistent_fields)]
pub enum PublisherPhase {
    /// A seal, or else a command.
    Open,
    /// An ordinary event to be taken; with the session that it establishes,
    /// and the seal that arrived meanwhile.
    Sending {
        /// Session to remember once the event is taken.
        establishes: Option<SessionId>,
        /// The seal that waits for this event.
        seal: Option<TransactionEndEvent>,
    },
    /// A seal only: an event was not delivered.
    Failed(TerminalEventDelivery),
    /// The rest of the commands, up to the end of their channel.
    Draining(TransactionEndEvent),
    /// An event of the rest to be taken.
    DrainSending {
        /// Session to remember once the event is taken.
        establishes: Option<SessionId>,
        /// The seal.
        seal: TransactionEndEvent,
    },
    /// The end of the command channel; what comes is thrown away.
    Discarding(TerminalEventDelivery),
    /// The terminal event to be taken.
    SendingEnded,
    /// Nothing.
    Done,
}

/// What the driver reports.
pub enum PublisherInput {
    /// The seal channel gave this; `None` means that it is closed.
    Seal(Option<TransactionEndEvent>),
    /// The command channel gave this; `None` means that it is closed.
    Command(Option<EventPublisherCommand>),
    /// The mailbox took the event, or refused it.
    SendDone(Result<(), EventEnqueueError>),
    /// The deadline of the pending action passed.
    DeadlineExpired,
}

/// Which deadline bounds an action.
#[derive(Clone, Copy, Debug, PartialEq, Eq, Structural)]
pub enum PublisherDeadline {
    /// That of the transaction.
    Transaction,
    /// That of the seal.
    Seal,
}

/// What the driver has to do.
pub enum PublisherAction {
    /// Wait for the channels that are still open, the seal first.
    Await {
        /// Whether the seal channel is to be read.
        seal: bool,
        /// Whether the command channel is to be read.
        commands: bool,
    },
    /// Hand the event to the mailbox. Under the transaction's deadline a seal
    /// is listened for as well.
    Send(TransactionEvent, PublisherDeadline),
    /// Go on waiting for the mailbox, and listen for no further seal.
    AwaitSend(PublisherDeadline),
    /// Wait for the seal.
    AwaitSeal,
    /// Wait for a command, under the seal's deadline.
    AwaitCommand,
    /// Stop, and answer the seal where there was one.
    Finish(TerminalPublicationResult, bool),
    /// Nothing: the report answers no pending action.
    Ignore,
}

/// Abstract state of a publisher.
pub struct PublisherModel {
    /// Sequence for the next event.
    pub next_seq: u64,
    /// Last sequence that the mailbox took.
    pub last_committed: u64,
    /// Session of the events, once resolved.
    pub session: Option<Seq<char>>,
    /// Whether the external session was announced.
    pub session_established: bool,
    /// Whether commands are admitted.
    pub admission_open: bool,
    /// Whether the command channel has ended.
    pub commands_closed: bool,
    /// Whether the seal channel has ended.
    pub seal_closed: bool,
    /// What the publisher waits for.
    pub phase: PublisherPhase,
}

/// Identity under which events are published.
pub struct PublisherSetting {
    /// Transaction.
    pub transaction_id: TransactionId,
    /// Channel.
    pub channel_id: ChannelId,
}

/// What a step decides, before it is put into an action.
pub enum PublisherVerdict {
    /// Wait for both channels, as far as they are open.
    Await,
    /// Send an ordinary event with this session, sequence and payload.
    Send(Seq<char>, u64, TransactionEventPayload, PublisherDeadline),
    /// Send the terminal event with this session and sequence.
    SendEnded(Seq<char>, u64, TransactionEndEvent),
    /// Go on waiting for the mailbox.
    AwaitSend(PublisherDeadline),
    /// Wait for the seal.
    AwaitSeal,
    /// Wait for a command.
    AwaitCommand,
    /// Stop.
    Finish(TerminalPublicationResult, bool),
    /// Nothing.
    Ignore,
}

/// How a refused event shows in the result.
pub open spec fn refusal(e: EventEnqueueError) -> TerminalEventDelivery {
    if e == EventEnqueueError::Closed {
        TerminalEventDelivery::QueueClosed
    } else {
        TerminalEventDelivery::LimitExceeded
    }
}

/// The sequence after one; the last machine number is its own successor.
pub open spec fn successor(seq: u64) -> u64 {
    if seq == u64::MAX {
        seq
    } else {
        (seq + 1) as u64
    }
}

/// State after the mailbox took the event with the next sequence.
pub open spec fn committed(
    m: PublisherModel,
    transaction_id: TransactionId,
    establishes: Option<SessionId>,
) -> PublisherModel {
    let base = PublisherModel {
        last_committed: m.next_seq,
        next_seq: successor(m.next_seq),
        ..m
    };
    match establishes {
        None => base,
        Some(s) => PublisherModel {
            session: Some(resolved_session(m.session, Some(s@), transaction_id)),
            session_established: true,
            ..base
        },
    }
}

/// The end.
pub open spec fn done(
    m: PublisherModel,
    delivery: TerminalEventDelivery,
    last_sequence: u64,
    reply: bool,
) -> (PublisherModel, PublisherVerdict) {
    (
        PublisherModel { phase: PublisherPhase::Done, ..m },
        PublisherVerdict::Finish(TerminalPublicationResult { delivery, last_sequence }, reply),
    )
}

/// Reading the rest of the commands, behind the fence.
pub open spec fn draining(m: PublisherModel, seal: TransactionEndEvent) -> (
    PublisherModel,
    PublisherVerdict,
) {
    (
        PublisherModel { admission_open: false, phase: PublisherPhase::Draining(seal), ..m },
        PublisherVerdict::AwaitCommand,
    )
}

/// Throwing the rest of the commands away, behind the fence.
pub open spec fn discarding(m: PublisherModel, fail: TerminalEventDelivery) -> (
    PublisherModel,
    PublisherVerdict,
) {
    (
        PublisherModel { admission_open: false, phase: PublisherPhase::Discarding(fail), ..m },
        PublisherVerdict::AwaitCommand,
    )
}

/// An event could not be delivered and no seal has arrived.
pub open spec fn failed(m: PublisherModel, fail: TerminalEventDelivery) -> (
    PublisherModel,
    PublisherVerdict,
) {
    (PublisherModel { phase: PublisherPhase::Failed(fail), ..m }, PublisherVerdict::AwaitSeal)
}

/// The phase in which commands are read.
pub open spec fn reading_phase(seal: Option<TransactionEndEvent>) -> PublisherPhase {
    match seal {
        None => PublisherPhase::Open,
        Some(seal) => PublisherPhase::Draining(seal),
    }
}

/// The phase in which a command's event is sent.
pub open spec fn sending_phase(
    establishes: Option<SessionId>,
    seal: Option<TransactionEndEvent>,
) -> PublisherPhase {
    match seal {
        None => PublisherPhase::Sending { establishes, seal: None },
        Some(seal) => PublisherPhase::DrainSending { establishes, seal },
    }
}

/// Which deadline an ordinary event is sent under.
pub open spec fn sending_deadline(seal: Option<TransactionEndEvent>) -> PublisherDeadline {
    if seal is Some {
        PublisherDeadline::Seal
    } else {
        PublisherDeadline::Transaction
    }
}

/// Effect of a command. A session is announced only as the very first event;
/// any other payload gets the resolved session.
pub open spec fn after_command(
    m: PublisherModel,
    transaction_id: TransactionId,
    command: EventPublisherCommand,
    seal: Option<TransactionEndEvent>,
) -> (PublisherModel, PublisherVerdict) {
    match command {
        EventPublisherCommand::EstablishExternal(external) => if m.session_established
            || m.next_seq != 1 {
            (
                m,
                if seal is Some {
                    PublisherVerdict::AwaitCommand
                } else {
                    PublisherVerdict::Await
                },
            )
        } else {
            (
                PublisherModel { phase: sending_phase(Some(external), seal), ..m },
                PublisherVerdict::Send(
                    external@,
                    m.next_seq,
                    TransactionEventPayload::SessionEstablished { external_session_id: external },
                    sending_deadline(seal),
                ),
            )
        },
        EventPublisherCommand::Publish(payload) => {
            let sid = resolved_session(m.session, None, transaction_id);
            (
                PublisherModel {
                    session: Some(sid),
                    phase: sending_phase(None, seal),
                    ..m
                },
                PublisherVerdict::Send(sid, m.next_seq, payload, sending_deadline(seal)),
            )
        },
    }
}

/// The whole machine: next state and verdict for each report.
pub open spec fn next(
    m: PublisherModel,
    transaction_id: TransactionId,
    input: PublisherInput,
) -> (PublisherModel, PublisherVerdict) {
    match (m.phase, input) {
        (PublisherPhase::Open, PublisherInput::Seal(Some(seal))) => draining(m, seal),
        (PublisherPhase::Open, PublisherInput::Seal(None)) => {
            let closed = PublisherModel { seal_closed: true, admission_open: false, ..m };
            if m.commands_closed {
                done(closed, TerminalEventDelivery::QueueClosed, m.last_committed, false)
            } else {
                (closed, PublisherVerdict::Await)
            }
        },
        (PublisherPhase::Open, PublisherInput::Command(Some(command))) => after_command(
            m,
            transaction_id,
            command,
            None,
        ),
        (PublisherPhase::Open, PublisherInput::Command(None)) => {
            let closed = PublisherModel { commands_closed: true, ..m };
            if m.seal_closed {
                done(closed, TerminalEventDelivery::QueueClosed, m.last_committed, false)
            } else {
                (closed, PublisherVerdict::Await)
            }
        },
        (PublisherPhase::Sending { establishes, seal: None }, PublisherInput::Seal(arrived)) => (
            PublisherModel {
                phase: PublisherPhase::Sending { establishes, seal: arrived },
                ..m
            },
            PublisherVerdict::AwaitSend(sending_deadline(arrived)),
        ),
        (PublisherPhase::Sending { establishes, seal }, PublisherInput::SendDone(Ok(()))) => {
            let after = committed(m, transaction_id, establishes);
            match seal {
                None => (
                    PublisherModel { phase: PublisherPhase::Open, ..after },
                    PublisherVerdict::Await,
                ),
                Some(seal) => draining(after, seal),
            }
        },
        (PublisherPhase::Sending { establishes: _, seal }, PublisherInput::SendDone(Err(e))) =>
            if seal is Some {
            discarding(m, refusal(e))
        } else {
            failed(m, refusal(e))
        },
        (PublisherPhase::Sending { establishes: _, seal }, PublisherInput::DeadlineExpired) =>
            if seal is Some {
            discarding(m, TerminalEventDelivery::DeadlineExceeded)
        } else {
            failed(m, TerminalEventDelivery::DeadlineExceeded)
        },
        (PublisherPhase::Failed(fail), PublisherInput::Seal(Some(_))) => discarding(m, fail),
        (PublisherPhase::Failed(fail), PublisherInput::Seal(None)) => done(
            PublisherModel { admission_open: false, ..m },
            fail,
            m.last_committed,
            false,
        ),
        (PublisherPhase::Draining(seal), PublisherInput::Command(Some(command))) => after_command(
            m,
            transaction_id,
            command,
            Some(seal),
        ),
        (PublisherPhase::Draining(seal), PublisherInput::Command(None)) => {
            let sid = resolved_session(m.session, opt_text(seal.session_id), transaction_id);
            (
                PublisherModel {
                    session: Some(sid),
                    phase: PublisherPhase::SendingEnded,
                    ..m
                },
                PublisherVerdict::SendEnded(sid, m.next_seq, seal),
            )
        },
        (PublisherPhase::Draining(_), PublisherInput::DeadlineExpired) => discarding(
            m,
            TerminalEventDelivery::DeadlineExceeded,
        ),
        (
            PublisherPhase::DrainSending { establishes, seal },
            PublisherInput::SendDone(Ok(())),
        ) => draining(committed(m, transaction_id, establishes), seal),
        (PublisherPhase::DrainSending { .. }, PublisherInput::SendDone(Err(e))) => discarding(
            m,
            refusal(e),
        ),
        (PublisherPhase::DrainSending { .. }, PublisherInput::DeadlineExpired) => discarding(
            m,
            TerminalEventDelivery::DeadlineExceeded,
        ),
        (PublisherPhase::Discarding(_), PublisherInput::Command(Some(_))) => (
            m,
            PublisherVerdict::AwaitCommand,
        ),
        (PublisherPhase::Discarding(fail), PublisherInput::Command(None)) => done(
            m,
            fail,
            m.last_committed,
            true,
        ),
        (PublisherPhase::Discarding(fail), PublisherInput::DeadlineExpired) => done(
            m,
            fail,
            m.last_committed,
            true,
        ),
        (PublisherPhase::SendingEnded, PublisherInput::SendDone(Ok(()))) => done(
            PublisherModel { last_committed: m.next_seq, ..m },
            TerminalEventDelivery::Published,
            m.next_seq,
            true,
        ),
        (PublisherPhase::SendingEnded, PublisherInput::SendDone(Err(e))) => done(
            m,
            refusal(e),
            m.last_committed,
            true,
        ),
        (PublisherPhase::SendingEnded, PublisherInput::DeadlineExpired) => done(
            m,
            TerminalEventDelivery::DeadlineExceeded,
            m.last_committed,
            true,
        ),
        _ => (m, PublisherVerdict::Ignore),
    }
}

/// State of a publisher that has published nothing.
pub open spec fn initial(session: Option<Seq<char>>) -> PublisherModel {
    PublisherModel {
        next_seq: 1,
        last_committed: 0,
        session,
        session_established: false,
        admission_open: true,
        commands_closed: false,
        seal_closed: false,
        phase: PublisherPhase::Open,
    }
}

/// Whether an event has this setting, session, sequence and payload.
pub open spec fn is_event(
    event: TransactionEvent,
    setting: PublisherSetting,
    session: Seq<char>,
    sequence: u64,
    payload: TransactionEventPayload,
) -> bool {
    &&& event.transaction_id == setting.transaction_id
    &&& event.channel_id == setting.channel_id
    &&& event.session_id@ == session
    &&& event.sequence == sequence
    &&& event.payload == payload
}

/// Whether an event is the terminal one for a seal: the seal's body, with the
/// sequence as its count of events and the event's session.
pub open spec fn is_terminal_event(
    event: TransactionEvent,
    setting: PublisherSetting,
    session: Seq<char>,
    sequence: u64,
    seal: TransactionEndEvent,
) -> bool {
    &&& event.transaction_id == setting.transaction_id
    &&& event.channel_id == setting.channel_id
    &&& event.session_id@ == session
    &&& event.sequence == sequence
    &&& event.payload == TransactionEventPayload::EndedEvent(
        TransactionEndEvent {
            emitted_events: sequence,
            session_id: Some(event.session_id),
            ..seal
        },
    )
}

/// Whether an action carries out a verdict.
pub open spec fn carries_out(
    action: PublisherAction,
    setting: PublisherSetting,
    m: PublisherModel,
    verdict: PublisherVerdict,
) -> bool {
    match verdict {
        PublisherVerdict::Await => action == (PublisherAction::Await {
            seal: !m.seal_closed,
            commands: !m.commands_closed,
        }),
        PublisherVerdict::Send(session, sequence, payload, under) => match action {
            PublisherAction::Send(event, deadline) => deadline == under && is_event(
                event,
                setting,
                session,
                sequence,
                payload,
            ),
            _ => false,
        },
        PublisherVerdict::SendEnded(session, sequence, seal) => match action {
            PublisherAction::Send(event, deadline) => deadline == PublisherDeadline::Seal
                && is_terminal_event(event, setting, session, sequence, seal),
            _ => false,
        },
        PublisherVerdict::AwaitSend(under) => action == PublisherAction::AwaitSend(under),
        PublisherVerdict::AwaitSeal => action == PublisherAction::AwaitSeal,
        PublisherVerdict::AwaitCommand => action == PublisherAction::AwaitCommand,
        PublisherVerdict::Finish(result, reply) => action == PublisherAction::Finish(result, reply),
        PublisherVerdict::Ignore => action == PublisherAction::Ignore,
    }
}

/// How a refused event shows in the result.
pub fn map_send_err(err: EventEnqueueError) -> (r: TerminalEventDelivery)
    ensures
        r == refusal(err),
{
    match err {
        EventEnqueueError::Closed => TerminalEventDelivery::QueueClosed,
        EventEnqueueError::EventTooLarge
        | EventEnqueueError::ByteCapacityExceeded
        | EventEnqueueError::ItemCapacityExceeded => TerminalEventDelivery::LimitExceeded,
    }
}

/// Publisher of the events of one transaction.
pub struct EventPublisher {
    setting: PublisherSetting,
    next_seq: u64,
    last_committed: u64,
    session: Option<SessionId>,
    session_established: bool,
    admission_open: bool,
    commands_closed: bool,
    seal_closed: bool,
    phase: PublisherPhase,
}

impl View for EventPublisher {
    type V = PublisherModel;

    closed spec fn view(&self) -> PublisherModel {
        PublisherModel {
            next_seq: self.next_seq,
            last_committed: self.last_committed,
            session: opt_text(self.session),
            session_established: self.session_established,
            admission_open: self.admission_open,
            commands_closed: self.commands_closed,
            seal_closed: self.seal_closed,
            phase: self.phase,
        }
    }
}

impl EventPublisher {
    /// Identity under which events are published.
    pub closed spec fn setting(&self) -> PublisherSetting {
        self.setting
    }

    /// A publisher that has published nothing, and what it does first.
    pub fn new(
        transaction_id: TransactionId,
        channel_id: ChannelId,
        session: Option<SessionId>,
    ) -> (r: (Self, PublisherAction))
        ensures
            r.0.setting() == (PublisherSetting { transaction_id, channel_id }),
            r.0@ == initial(opt_text(session)),
            r.1 == (PublisherAction::Await { seal: true, commands: true }),
    {
        (
            EventPublisher {
                setting: PublisherSetting { transaction_id, channel_id },
                next_seq: 1,
                last_committed: 0,
                session,
                session_established: false,
                admission_open: true,
                commands_closed: false,
                seal_closed: false,
                phase: PublisherPhase::Open,
            },
            PublisherAction::Await { seal: true, commands: true },
        )
    }

    /// Whether commands are admitted.
    pub fn is_open(&self) -> (r: bool)
        ensures
            r == self@.admission_open,
    {
        self.admission_open
    }

    fn event(
        &self,
        session_id: SessionId,
        sequence: u64,
        payload: TransactionEventPayload,
    ) -> (r: TransactionEvent)
        ensures
            is_event(r, self.setting(), session_id@, sequence, payload),
            r.session_id == session_id,
    {
        TransactionEvent {
            transaction_id: self.setting.transaction_id,
            channel_id: self.setting.channel_id.clone(),
            session_id,
            sequence,
            payload,
        }
    }

    fn commit(&mut self, establishes: Option<SessionId>)
        ensures
            final(self).setting() == old(self).setting(),
            final(self)@ == committed(
                old(self)@,
                old(self).setting().transaction_id,
                establishes,
            ),
    {
        self.last_committed = self.next_seq;
        self.next_seq = self.next_seq.saturating_add(1);
        if let Some(sid) = establishes {
            let transaction_id = self.setting.transaction_id;
            let _kept = ensure_session(&mut self.session, Some(sid), transaction_id);
            self.session_established = true;
        }
    }

    fn await_any(&self) -> (r: PublisherAction)
        ensures
            carries_out(r, self.setting(), self@, PublisherVerdict::Await),
    {
        PublisherAction::Await { seal: !self.seal_closed, commands: !self.commands_closed }
    }

    fn finish(
        &mut self,
        delivery: TerminalEventDelivery,
        reply: bool,
    ) -> (r: PublisherAction)
        ensures
            final(self).setting() == old(self).setting(),
            final(self)@ == done(old(self)@, delivery, old(self)@.last_committed, reply).0,
            carries_out(
                r,
                old(self).setting(),
                final(self)@,
                done(old(self)@, delivery, old(self)@.last_committed, reply).1,
            ),
    {
        self.phase = PublisherPhase::Done;
        PublisherAction::Finish(
            TerminalPublicationResult { delivery, last_sequence: self.last_committed },
            reply,
        )
    }

    fn discard(&mut self, fail: TerminalEventDelivery) -> (r: PublisherAction)
        ensures
            final(self).setting() == old(self).setting(),
            final(self)@ == discarding(old(self)@, fail).0,
            r == PublisherAction::AwaitCommand,
    {
        self.admission_open = false;
        self.phase = PublisherPhase::Discarding(fail);
        PublisherAction::AwaitCommand
    }

    fn fence(&mut self, seal: TransactionEndEvent) -> (r: PublisherAction)
        ensures
            final(self).setting() == old(self).setting(),
            final(self)@ == draining(old(self)@, seal).0,
            r == PublisherAction::AwaitCommand,
    {
        self.admission_open = false;
        self.phase = PublisherPhase::Draining(seal);
        PublisherAction::AwaitCommand
    }

    fn on_command(
        &mut self,
        command: EventPublisherCommand,
        seal: Option<TransactionEndEvent>,
    ) -> (r: PublisherAction)
        ensures
            final(self).setting() == old(self).setting(),
            final(self)@ == after_command(
                (PublisherModel { phase: reading_phase(seal), ..old(self)@ }),
                old(self).setting().transaction_id,
                command,
                seal,
            ).0,
            carries_out(
                r,
                old(self).setting(),
                final(self)@,
                after_command(
                    (PublisherModel { phase: reading_phase(seal), ..old(self)@ }),
                    old(self).setting().transaction_id,
                    command,
                    seal,
                ).1,
            ),
    {
        let deadline = if seal.is_some() {
            PublisherDeadline::Seal
        } else {
            PublisherDeadline::Transaction
        };
        match command {
            EventPublisherCommand::EstablishExternal(external) => {
                if self.session_established || self.next_seq != 1 {
                    return match seal {
                        Some(seal) => {
                            self.phase = PublisherPhase::Draining(seal);
                            PublisherAction::AwaitCommand
                        },
                        None => {
                            self.phase = PublisherPhase::Open;
                            self.await_any()
                        },
                    };
                }
                let establishes: Option<SessionId> = Some(external.clone());
                self.phase = match seal {
                    None => PublisherPhase::Sending { establishes, seal: None },
                    Some(seal) => PublisherPhase::DrainSending { establishes, seal },
                };
                let sid: SessionId = external.clone();
                PublisherAction::Send(
                    self.event(
                        sid,
                        self.next_seq,
                        TransactionEventPayload::SessionEstablished {
                            external_session_id: external,
                        },
                    ),
                    deadline,
                )
            },
            EventPublisherCommand::Publish(payload) => {
                let transaction_id = self.setting.transaction_id;
                let sid = ensure_session(&mut self.session, None, transaction_id);
                self.phase = match seal {
                    None => PublisherPhase::Sending { establishes: None, seal: None },
                    Some(seal) => PublisherPhase::DrainSending { establishes: None, seal },
                };
                PublisherAction::Send(self.event(sid, self.next_seq, payload), deadline)
            },
        }
    }

    fn finish_seal(&mut self, seal: TransactionEndEvent) -> (r: PublisherAction)
        ensures
            final(self).setting() == old(self).setting(),
            final(self)@ == next(
                (PublisherModel { phase: PublisherPhase::Draining(seal), ..old(self)@ }),
                old(self).setting().transaction_id,
                PublisherInput::Command(None),
            ).0,
            carries_out(
                r,
                old(self).setting(),
                final(self)@,
                next(
                    (PublisherModel { phase: PublisherPhase::Draining(seal), ..old(self)@ }),
                    old(self).setting().transaction_id,
                    PublisherInput::Command(None),
                ).1,
            ),
    {
        let transaction_id = self.setting.transaction_id;
        let preferred = clone_opt(&seal.session_id);
        let sid = ensure_session(&mut self.session, preferred, transaction_id);
        let seq: u64 = self.next_seq;
        let mut terminal = seal;
        terminal.emitted_events = seq;
        terminal.session_id = Some(sid.clone());
        self.phase = PublisherPhase::SendingEnded;
        PublisherAction::Send(
            self.event(sid, seq, TransactionEventPayload::EndedEvent(terminal)),
            PublisherDeadline::Seal,
        )
    }

    /// One step of the machine.
    pub fn step(&mut self, input: PublisherInput) -> (r: PublisherAction)
        ensures
            final(self).setting() == old(self).setting(),
            final(self)@ == next(old(self)@, old(self).setting().transaction_id, input).0,
            carries_out(
                r,
                old(self).setting(),
                final(self)@,
                next(old(self)@, old(self).setting().transaction_id, input).1,
            ),
    {
        match input {
            PublisherInput::Seal(seal) => self.on_seal(seal),
            PublisherInput::Command(command) => {
                let mut phase = PublisherPhase::Done;
                core::mem::swap(&mut phase, &mut self.phase);
                match phase {
                    PublisherPhase::Open => {
                        match command {
                            Some(command) => self.on_command(command, None),
                            None => {
                                self.phase = PublisherPhase::Open;
                                self.commands_closed = true;
                                if self.seal_closed {
                                    self.finish(TerminalEventDelivery::QueueClosed, false)
                                } else {
                                    self.await_any()
                                }
                            },
                        }
                    },
                    PublisherPhase::Draining(seal) => match command {
                        Some(command) => self.on_command(command, Some(seal)),
                        None => self.finish_seal(seal),
                    },
                    PublisherPhase::Discarding(fail) => {
                        self.phase = PublisherPhase::Discarding(fail);
                        match command {
                            Some(_) => PublisherAction::AwaitCommand,
                            None => self.finish(fail, true),
                        }
                    },
                    other => {
                        self.phase = other;
                        PublisherAction::Ignore
                    },
                }
            },
            PublisherInput::SendDone(outcome) => self.on_send_done(outcome),
            PublisherInput::DeadlineExpired => self.on_deadline(),
        }
    }

    fn on_seal(&mut self, arrived: Option<TransactionEndEvent>) -> (r: PublisherAction)
        ensures
            final(self).setting() == old(self).setting(),
            final(self)@ == next(
                old(self)@,
                old(self).setting().transaction_id,
                PublisherInput::Seal(arrived),
            ).0,
            carries_out(
                r,
                old(self).setting(),
                final(self)@,
                next(
                    old(self)@,
                    old(self).setting().transaction_id,
                    PublisherInput::Seal(arrived),
                ).1,
            ),
    {
        let mut phase = PublisherPhase::Done;
        core::mem::swap(&mut phase, &mut self.phase);
        match phase {
            PublisherPhase::Open => match arrived {
                Some(seal) => self.fence(seal),
                None => {
                    self.phase = PublisherPhase::Open;
                    self.seal_closed = true;
                    self.admission_open = false;
                    if self.commands_closed {
                        self.finish(TerminalEventDelivery::QueueClosed, false)
                    } else {
                        self.await_any()
                    }
                },
            },
            PublisherPhase::Sending { establishes, seal: None } => {
                let deadline = if arrived.is_some() {
                    PublisherDeadline::Seal
                } else {
                    PublisherDeadline::Transaction
                };
                self.phase = PublisherPhase::Sending { establishes, seal: arrived };
                PublisherAction::AwaitSend(deadline)
            },
            PublisherPhase::Failed(fail) => match arrived {
                Some(_) => self.discard(fail),
                None => {
                    self.admission_open = false;
                    self.finish(fail, false)
                },
            },
            other => {
                self.phase = other;
                PublisherAction::Ignore
            },
        }
    }

    fn on_send_done(&mut self, outcome: Result<(), EventEnqueueError>) -> (r: PublisherAction)
        ensures
            final(self).setting() == old(self).setting(),
            final(self)@ == next(
                old(self)@,
                old(self).setting().transaction_id,
                PublisherInput::SendDone(outcome),
            ).0,
            carries_out(
                r,
                old(self).setting(),
                final(self)@,
                next(
                    old(self)@,
                    old(self).setting().transaction_id,
                    PublisherInput::SendDone(outcome),
                ).1,
            ),
    {
        let mut phase = PublisherPhase::Done;
        core::mem::swap(&mut phase, &mut self.phase);
        match phase {
            PublisherPhase::Sending { establishes, seal } => match outcome {
                Ok(()) => {
                    self.commit(establishes);
                    match seal {
                        None => {
                            self.phase = PublisherPhase::Open;
                            self.await_any()
                        },
                        Some(seal) => self.fence(seal),
                    }
                },
                Err(e) => {
                    let fail = map_send_err(e);
                    if seal.is_some() {
                        self.discard(fail)
                    } else {
                        self.phase = PublisherPhase::Failed(fail);
                        PublisherAction::AwaitSeal
                    }
                },
            },
            PublisherPhase::DrainSending { establishes, seal } => match outcome {
                Ok(()) => {
                    self.commit(establishes);
                    self.fence(seal)
                },
                Err(e) => self.discard(map_send_err(e)),
            },
            PublisherPhase::SendingEnded => match outcome {
                Ok(()) => {
                    self.last_committed = self.next_seq;
                    self.finish(TerminalEventDelivery::Published, true)
                },
                Err(e) => self.finish(map_send_err(e), true),
            },
            other => {
                self.phase = other;
                PublisherAction::Ignore
            },
        }
    }

    fn on_deadline(&mut self) -> (r: PublisherAction)
        ensures
            final(self).setting() == old(self).setting(),
            final(self)@ == next(
                old(self)@,
                old(self).setting().transaction_id,
                PublisherInput::DeadlineExpired,
            ).0,
            carries_out(
                r,
                old(self).setting(),
                final(self)@,
                next(
                    old(self)@,
                    old(self).setting().transaction_id,
                    PublisherInput::DeadlineExpired,
                ).1,
            ),
    {
        let mut phase = PublisherPhase::Done;
        core::mem::swap(&mut phase, &mut self.phase);
        match phase {
            PublisherPhase::Sending { establishes: _, seal } => {
                if seal.is_some() {
                    self.discard(TerminalEventDelivery::DeadlineExceeded)
                } else {
                    self.phase = PublisherPhase::Failed(TerminalEventDelivery::DeadlineExceeded);
                    PublisherAction::AwaitSeal
                }
            },
            PublisherPhase::Draining(_) => self.discard(TerminalEventDelivery::DeadlineExceeded),
            PublisherPhase::DrainSending { establishes: _, seal: _ } => self.discard(
                TerminalEventDelivery::DeadlineExceeded,
            ),
            PublisherPhase::Discarding(fail) => self.finish(fail, true),
            PublisherPhase::SendingEnded => self.finish(
                TerminalEventDelivery::DeadlineExceeded,
                true,
            ),
            other => {
                self.phase = other;
                PublisherAction::Ignore
            },
        }
    }
}

} // verus!
