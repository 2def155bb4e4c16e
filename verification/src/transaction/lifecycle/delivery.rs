//! Completions for hosts that take them by callback.

use crate::transaction::lifecycle::terminal::TransactionCompletion;
use crate::transaction::types::{EventDeliveryOutcome, TerminalEventDelivery, TransactionEnd};
use vstd::prelude::*;

verus! {

/// Whether the terminal event reached the host.
pub open spec fn reached_host(d: TerminalEventDelivery) -> EventDeliveryOutcome {
    if d == TerminalEventDelivery::Published {
        EventDeliveryOutcome::Accepted
    } else {
        EventDeliveryOutcome::Failed
    }
}

/// The end that a completion callback gets for a completion.
pub fn adapt_completion(completion: TransactionCompletion) -> (r: TransactionEnd)
    ensures
        r == (TransactionEnd {
            transaction_id: completion.end.transaction_id,
            session_id: completion.end.session_id,
            channel_id: completion.end.channel_id,
            kind: completion.end.kind,
            prior_terminal_cause: None,
            event_delivery: reached_host(completion.terminal_event_delivery),
            emitted_events: completion.end.emitted_events,
            usage: completion.end.usage,
            diagnostics: completion.end.diagnostics,
        }),
{
    let event_delivery = match completion.terminal_event_delivery {
        TerminalEventDelivery::Published => EventDeliveryOutcome::Accepted,
        TerminalEventDelivery::NotAttempted
        | TerminalEventDelivery::QueueClosed
        | TerminalEventDelivery::DeadlineExceeded
        | TerminalEventDelivery::LimitExceeded => EventDeliveryOutcome::Failed,
    };
    TransactionEnd {
        transaction_id: completion.end.transaction_id,
        session_id: completion.end.session_id,
        channel_id: completion.end.channel_id,
        kind: completion.end.kind,
        prior_terminal_cause: None,
        event_delivery,
        emitted_events: completion.end.emitted_events,
        usage: completion.end.usage,
        diagnostics: completion.end.diagnostics,
    }
}

} // verus!
