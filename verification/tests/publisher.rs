use monoloop_loop::identity::TransactionId;
use monoloop_loop::transaction::lifecycle::event_publisher::{
    map_send_err, EventPublisher, EventPublisherCommand, PublisherAction, PublisherDeadline,
    PublisherInput, TerminalPublicationResult,
};
use monoloop_loop::transaction::types::{
    EventEnqueueError, SafeDiagnostic, TerminalEventDelivery, TransactionDiagnostic,
    TransactionEndEvent, TransactionEndKind, TransactionEvent, TransactionEventPayload,
    TransactionUsage,
};

fn diagnostic() -> EventPublisherCommand {
    EventPublisherCommand::Publish(TransactionEventPayload::Diagnostic(TransactionDiagnostic {
        diagnostic: SafeDiagnostic {
            code: String::from("noop"),
            message: Some(String::from("x")),
        },
    }))
}

fn seal(tx: TransactionId, session: Option<&str>) -> TransactionEndEvent {
    TransactionEndEvent {
        transaction_id: tx,
        session_id: session.map(String::from),
        channel_id: String::from("llm"),
        kind: TransactionEndKind::Completed,
        emitted_events: 0,
        usage: TransactionUsage,
        diagnostics: vec![],
    }
}

fn sent(action: PublisherAction) -> (TransactionEvent, PublisherDeadline) {
    match action {
        PublisherAction::Send(event, deadline) => (event, deadline),
        _ => panic!("expected an event"),
    }
}

fn finished(action: PublisherAction) -> (TerminalPublicationResult, bool) {
    match action {
        PublisherAction::Finish(result, reply) => (result, reply),
        _ => panic!("expected the end"),
    }
}

#[test]
fn event_publisher_prefers_authoritative_session_on_seal() {
    let tx_id = TransactionId::generate();
    let (mut publisher, first) = EventPublisher::new(tx_id, String::from("llm"), None);
    assert!(matches!(first, PublisherAction::Await { seal: true, commands: true }));

    let (first, _) = sent(publisher.step(PublisherInput::Command(Some(diagnostic()))));
    let synthetic = first.session_id.clone();
    assert!(
        synthetic.starts_with("tx-") || synthetic == "direct",
        "expected synthetic, got {}",
        synthetic
    );
    publisher.step(PublisherInput::SendDone(Ok(())));

    let authoritative = String::from("grok-session-auth");
    publisher.step(PublisherInput::Seal(Some(seal(tx_id, Some("grok-session-auth")))));
    assert!(!publisher.is_open());
    let (ended, _) = sent(publisher.step(PublisherInput::Command(None)));
    let (result, _) = finished(publisher.step(PublisherInput::SendDone(Ok(()))));
    assert_eq!(result.delivery, TerminalEventDelivery::Published);
    assert_eq!(ended.session_id, authoritative);
    assert_ne!(ended.session_id, synthetic);
    match &ended.payload {
        TransactionEventPayload::EndedEvent(term) => {
            assert_eq!(
                term.session_id.as_ref(),
                Some(&authoritative),
                "payload session_id must match envelope"
            );
        }
        _ => panic!("expected EndedEvent"),
    }
}

#[test]
fn sequences_are_contiguous_and_the_terminal_event_is_last() {
    let tx = TransactionId { value: 5 };
    let (mut p, _) = EventPublisher::new(tx, String::from("llm"), Some(String::from("s")));
    let mut seqs = Vec::new();
    for _ in 0..3 {
        let (event, deadline) = sent(p.step(PublisherInput::Command(Some(diagnostic()))));
        assert_eq!(deadline, PublisherDeadline::Transaction);
        assert_eq!(event.session_id, "s");
        seqs.push(event.sequence);
        p.step(PublisherInput::SendDone(Ok(())));
    }
    p.step(PublisherInput::Seal(Some(seal(tx, None))));
    let (event, deadline) = sent(p.step(PublisherInput::Command(Some(diagnostic()))));
    assert_eq!(deadline, PublisherDeadline::Seal);
    seqs.push(event.sequence);
    p.step(PublisherInput::SendDone(Ok(())));
    let (ended, _) = sent(p.step(PublisherInput::Command(None)));
    seqs.push(ended.sequence);
    let (result, reply) = finished(p.step(PublisherInput::SendDone(Ok(()))));
    assert_eq!(seqs, vec![1, 2, 3, 4, 5]);
    assert!(reply);
    assert_eq!(result.last_sequence, 5);
    assert!(matches!(
        p.step(PublisherInput::Command(Some(diagnostic()))),
        PublisherAction::Ignore
    ));
}

#[test]
fn session_is_announced_only_first() {
    let tx = TransactionId { value: 6 };
    let (mut p, _) = EventPublisher::new(tx, String::from("llm"), None);
    let establish = EventPublisherCommand::EstablishExternal(String::from("ext-1"));
    let (event, _) = sent(p.step(PublisherInput::Command(Some(establish))));
    assert_eq!(event.session_id, "ext-1");
    assert_eq!(event.sequence, 1);
    assert!(matches!(
        event.payload,
        TransactionEventPayload::SessionEstablished { .. }
    ));
    p.step(PublisherInput::SendDone(Ok(())));
    let again = EventPublisherCommand::EstablishExternal(String::from("ext-2"));
    assert!(matches!(
        p.step(PublisherInput::Command(Some(again))),
        PublisherAction::Await { .. }
    ));
    let (event, _) = sent(p.step(PublisherInput::Command(Some(diagnostic()))));
    assert_eq!(event.session_id, "ext-1");
    assert_eq!(event.sequence, 2);
}

#[test]
fn failure_keeps_the_terminal_event_back() {
    let tx = TransactionId { value: 7 };
    let (mut p, _) = EventPublisher::new(tx, String::from("llm"), None);
    sent(p.step(PublisherInput::Command(Some(diagnostic()))));
    let refused = Err(EventEnqueueError::ByteCapacityExceeded);
    assert!(matches!(
        p.step(PublisherInput::SendDone(refused)),
        PublisherAction::AwaitSeal
    ));
    assert!(matches!(
        p.step(PublisherInput::Seal(Some(seal(tx, None)))),
        PublisherAction::AwaitCommand
    ));
    assert!(matches!(
        p.step(PublisherInput::Command(Some(diagnostic()))),
        PublisherAction::AwaitCommand
    ));
    let (result, reply) = finished(p.step(PublisherInput::Command(None)));
    assert_eq!(result.delivery, TerminalEventDelivery::LimitExceeded);
    assert_eq!(result.last_sequence, 0);
    assert!(reply);
}

#[test]
fn event_in_flight_is_finished_under_the_seal() {
    let tx = TransactionId { value: 8 };
    let (mut p, _) = EventPublisher::new(tx, String::from("llm"), None);
    sent(p.step(PublisherInput::Command(Some(diagnostic()))));
    assert!(matches!(
        p.step(PublisherInput::Seal(Some(seal(tx, None)))),
        PublisherAction::AwaitSend(PublisherDeadline::Seal)
    ));
    assert!(matches!(
        p.step(PublisherInput::DeadlineExpired),
        PublisherAction::AwaitCommand
    ));
    let (result, _) = finished(p.step(PublisherInput::DeadlineExpired));
    assert_eq!(result.delivery, TerminalEventDelivery::DeadlineExceeded);
}

#[test]
fn both_queues_closed_ends_without_a_reply() {
    let tx = TransactionId { value: 9 };
    let (mut p, _) = EventPublisher::new(tx, String::from("llm"), None);
    p.step(PublisherInput::Command(None));
    let (result, reply) = finished(p.step(PublisherInput::Seal(None)));
    assert_eq!(result.delivery, TerminalEventDelivery::QueueClosed);
    assert!(!reply);
}

#[test]
fn mailbox_errors_are_mapped() {
    assert_eq!(map_send_err(EventEnqueueError::Closed), TerminalEventDelivery::QueueClosed);
    assert_eq!(
        map_send_err(EventEnqueueError::EventTooLarge),
        TerminalEventDelivery::LimitExceeded
    );
    assert_eq!(
        map_send_err(EventEnqueueError::ItemCapacityExceeded),
        TerminalEventDelivery::LimitExceeded
    );
}
