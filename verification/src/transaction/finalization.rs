//! Event sequences, and the guard by which a transaction is finalized once.

use crate::identity::TransactionId;
use crate::text::clone_opt;
use crate::transaction::types::{
    ChannelId, EventDeliveryOutcome, SafeDiagnostic, SessionId, TransactionDiagnostic,
    TransactionEnd, TransactionEndKind, TransactionUsage,
};
use vstd::prelude::*;
use vstd::string::StringExecFns;
use vstd::utf8::{encode_utf8, is_char_boundary};

verus! {

/// Sole allocator of transaction event sequence numbers (starts at 1).
pub struct EventSequencer {
    next: u64,
}

impl EventSequencer {
    /// The sequence that comes next.
    pub closed spec fn upcoming(&self) -> u64 {
        self.next
    }

    /// Create a sequencer; first allocated sequence is 1.
    pub fn new() -> (r: Self)
        ensures
            r.upcoming() == 1,
    {
        EventSequencer { next: 1 }
    }

    /// Next sequence that [`Self::allocate`] will return.
    pub fn peek_next(&self) -> (r: u64)
        ensures
            r == self.upcoming(),
    {
        self.next
    }

    /// Allocate the next contiguous sequence number. After the last machine
    /// number comes 0.
    pub fn allocate(&mut self) -> (r: u64)
        ensures
            r == old(self).upcoming(),
            final(self).upcoming() == (if old(self).upcoming() == u64::MAX {
                0
            } else {
                (old(self).upcoming() + 1) as u64
            }),
    {
        let r: u64 = self.next;
        self.next = r.wrapping_add(1);
        r
    }

    /// Last allocated sequence (0 if none).
    pub fn last_allocated(&self) -> (r: u64)
        ensures
            r == (if self.upcoming() == 0 {
                0
            } else {
                (self.upcoming() - 1) as u64
            }),
    {
        self.next.saturating_sub(1)
    }
}

/// Material taken exactly once by the winning finalization path.
pub struct FinalizationPayload<C> {
    /// Completion callback.
    pub callback: C,
    /// Channel id for terminal.
    pub channel_id: ChannelId,
    /// Session when known.
    pub session_id: Option<SessionId>,
    /// Transaction id.
    pub transaction_id: TransactionId,
}

/// Abstract state of a guard.
pub struct GuardModel<C> {
    /// Whether someone claimed.
    pub claimed: bool,
    /// What is there to be claimed.
    pub payload: Option<FinalizationPayload<C>>,
    /// Whether the callback was scheduled.
    pub scheduled: bool,
}

/// Exactly-once finalization claim shared by actor and shutdown supervisor.
pub struct FinalizationGuard<C> {
    claimed: bool,
    payload: Option<FinalizationPayload<C>>,
    callback_scheduled: bool,
}

/// What a claim at shutdown comes to.
pub enum ClaimStep<C> {
    /// It is claimed.
    Claimed(FinalizationPayload<C>),
    /// There is nothing to be claimed.
    Nothing,
    /// Wait for the material to be put back, and try again.
    Wait,
}

impl<C> View for FinalizationGuard<C> {
    type V = GuardModel<C>;

    closed spec fn view(&self) -> GuardModel<C> {
        GuardModel {
            claimed: self.claimed,
            payload: self.payload,
            scheduled: self.callback_scheduled,
        }
    }
}

/// The guard once someone tried to claim.
pub open spec fn claim_tried<C>(m: GuardModel<C>) -> GuardModel<C> {
    if m.claimed {
        m
    } else {
        GuardModel { claimed: true, payload: None, ..m }
    }
}

/// What a claim yields.
pub open spec fn claim_yields<C>(m: GuardModel<C>) -> Option<FinalizationPayload<C>> {
    if m.claimed {
        None
    } else {
        m.payload
    }
}

/// The guard once material was put back.
pub open spec fn restored<C>(m: GuardModel<C>, payload: FinalizationPayload<C>) -> GuardModel<C> {
    if m.scheduled {
        m
    } else {
        GuardModel { claimed: false, payload: Some(payload), ..m }
    }
}

/// The guard once a scheduled callback could not be started.
pub open spec fn start_taken_back<C>(
    m: GuardModel<C>,
    payload: FinalizationPayload<C>,
) -> GuardModel<C> {
    restored(GuardModel { scheduled: false, ..m }, payload)
}

impl<C> FinalizationGuard<C> {
    /// Create a guard holding the one-shot callback.
    pub fn new(
        transaction_id: TransactionId,
        channel_id: ChannelId,
        session_id: Option<SessionId>,
        callback: C,
    ) -> (r: Self)
        ensures
            r@ == (GuardModel {
                claimed: false,
                payload: Some(
                    FinalizationPayload { callback, channel_id, session_id, transaction_id },
                ),
                scheduled: false,
            }),
    {
        FinalizationGuard {
            claimed: false,
            payload: Some(FinalizationPayload { callback, channel_id, session_id, transaction_id }),
            callback_scheduled: false,
        }
    }

    /// Update session id on the payload before claim.
    pub fn set_session_id(&mut self, session_id: SessionId)
        ensures
            final(self)@ == (GuardModel {
                payload: match old(self)@.payload {
                    Some(p) => Some(FinalizationPayload { session_id: Some(session_id), ..p }),
                    None => None,
                },
                ..old(self)@
            }),
    {
        match &mut self.payload {
            Some(p) => {
                p.session_id = Some(session_id);
            },
            None => {},
        }
    }

    /// Claim exactly once. Winner takes payload; losers get `None`.
    pub fn try_claim(&mut self) -> (r: Option<FinalizationPayload<C>>)
        ensures
            r == claim_yields(old(self)@),
            final(self)@ == claim_tried(old(self)@),
    {
        if self.claimed {
            return None;
        }
        self.claimed = true;
        self.payload.take()
    }

    /// Restore a claimed-but-not-scheduled payload so that it can be claimed again.
    pub fn restore_unscheduled(&mut self, payload: FinalizationPayload<C>)
        ensures
            final(self)@ == restored(old(self)@, payload),
    {
        if self.callback_scheduled {
            return;
        }
        self.payload = Some(payload);
        self.claimed = false;
    }

    /// The callback was scheduled and could not be started: it does not count
    /// as scheduled, and can be claimed again.
    pub fn start_refused(&mut self, payload: FinalizationPayload<C>)
        ensures
            final(self)@ == start_taken_back(old(self)@, payload),
    {
        self.callback_scheduled = false;
        self.restore_unscheduled(payload);
    }

    /// Whether already claimed.
    pub fn is_claimed(&self) -> (r: bool)
        ensures
            r == self@.claimed,
    {
        self.claimed
    }

    /// Mark that a callback was scheduled.
    pub fn mark_callback_scheduled(&mut self)
        ensures
            final(self)@ == (GuardModel { scheduled: true, ..old(self)@ }),
    {
        self.callback_scheduled = true;
    }

    /// Whether callback was scheduled.
    pub fn callback_was_scheduled(&self) -> (r: bool)
        ensures
            r == self@.scheduled,
    {
        self.callback_scheduled
    }

    /// Claim for shutdown: while time is `left`, wait for a claimed payload to
    /// be put back, unless its callback was scheduled.
    pub fn claim_for_shutdown(&mut self, left: u128) -> (r: ClaimStep<C>)
        ensures
            final(self)@ == claim_tried(old(self)@),
            r == (match claim_yields(old(self)@) {
                Some(p) => ClaimStep::Claimed(p),
                None => if old(self)@.scheduled || left == 0 {
                    ClaimStep::Nothing
                } else {
                    ClaimStep::Wait
                },
            }),
    {
        match self.try_claim() {
            Some(p) => ClaimStep::Claimed(p),
            None => {
                if self.callback_scheduled || left == 0 {
                    ClaimStep::Nothing
                } else {
                    ClaimStep::Wait
                }
            },
        }
    }
}

/// A claimed payload that is put back unless it is taken.
pub struct ClaimedFinalization<C> {
    payload: FinalizationPayload<C>,
}

impl<C> ClaimedFinalization<C> {
    /// What was claimed.
    pub closed spec fn claim(&self) -> FinalizationPayload<C> {
        self.payload
    }

    /// Holds a claimed payload.
    pub fn new(payload: FinalizationPayload<C>) -> (r: Self)
        ensures
            r.claim() == payload,
    {
        ClaimedFinalization { payload }
    }

    /// The payload.
    pub fn payload(&self) -> (r: &FinalizationPayload<C>)
        ensures
            *r == self.claim(),
    {
        &self.payload
    }

    /// Take the payload for callback scheduling.
    pub fn take(self) -> (r: FinalizationPayload<C>)
        ensures
            r == self.claim(),
    {
        self.payload
    }

    /// Put the payload back: the work that claimed it was aborted.
    pub fn put_back(self, guard: &mut FinalizationGuard<C>)
        ensures
            final(guard)@ == restored(old(guard)@, self.claim()),
    {
        guard.restore_unscheduled(self.payload)
    }
}

/// Build the end of a transaction.
pub fn build_transaction_end<C>(
    payload: &FinalizationPayload<C>,
    kind: TransactionEndKind,
    prior: Option<TransactionEndKind>,
    event_delivery: EventDeliveryOutcome,
    emitted_events: u64,
) -> (r: TransactionEnd)
    ensures
        r.transaction_id == payload.transaction_id,
        r.session_id == payload.session_id,
        r.channel_id == payload.channel_id,
        r.kind == kind,
        r.prior_terminal_cause == prior,
        r.event_delivery == event_delivery,
        r.emitted_events == emitted_events,
        r.diagnostics@.len() == 0,
{
    TransactionEnd {
        transaction_id: payload.transaction_id,
        session_id: clone_opt(&payload.session_id),
        channel_id: payload.channel_id.clone(),
        kind,
        prior_terminal_cause: prior,
        event_delivery,
        emitted_events,
        usage: TransactionUsage,
        diagnostics: Vec::new(),
    }
}

/// The last place at or before `max` where a text can be cut.
pub open spec fn cut_place(bytes: Seq<u8>, max: int) -> int
    decreases max,
{
    if max <= 0 {
        0
    } else if is_char_boundary(bytes, max) {
        max
    } else {
        cut_place(bytes, max - 1)
    }
}

/// Whether a message is another one, cut to a number of bytes.
pub open spec fn is_cut(cut: Option<String>, whole: Option<String>, max: usize) -> bool {
    match whole {
        None => cut is None,
        Some(w) => {
            let bytes = encode_utf8(w@);
            if bytes.len() as usize > max {
                cut is Some && encode_utf8(cut->0@) == bytes.take(cut_place(bytes, max as int))
            } else {
                cut == Some(w)
            }
        },
    }
}

/// Number of diagnostics that are kept: no more than the bound.
pub open spec fn kept_count(len: nat, max_count: usize) -> nat {
    if len > max_count {
        max_count as nat
    } else {
        len
    }
}

fn cut_message(msg: &str, max: usize) -> (r: String)
    requires
        encode_utf8(msg@).len() as usize > max,
    ensures
        encode_utf8(r@) == encode_utf8(msg@).take(cut_place(encode_utf8(msg@), max as int)),
{
    let ghost bytes = encode_utf8(msg@);
    proof {
        vstd::utf8::encode_utf8_valid_utf8(msg@);
        vstd::utf8::is_char_boundary_start_end_of_seq(bytes);
    }
    let mut i: usize = max;
    while i > 0 && !msg.is_char_boundary(i)
        invariant
            bytes == encode_utf8(msg@),
            i <= max,
            cut_place(bytes, max as int) == cut_place(bytes, i as int),
        decreases i,
    {
        i = i - 1;
    }
    assert(is_char_boundary(bytes, i as int));
    let parts = msg.split_at(i);
    let r = String::from_str(parts.0);
    assert(bytes.subrange(0, i as int) =~= bytes.take(i as int));
    r
}

/// Bound a diagnostic list by count and per-message bytes. A message is cut
/// before the character that would not fit.
pub fn bound_diagnostics(
    diagnostics: Vec<TransactionDiagnostic>,
    max_count: usize,
    max_message_bytes: usize,
) -> (r: Vec<TransactionDiagnostic>)
    ensures
        r@.len() == kept_count(diagnostics@.len(), max_count),
        forall|i: int|
            0 <= i < r@.len() ==> (#[trigger] r@[i]).diagnostic.code
                == diagnostics@[i].diagnostic.code && is_cut(
                r@[i].diagnostic.message,
                diagnostics@[i].diagnostic.message,
                max_message_bytes,
            ),
{
    let mut kept: Vec<TransactionDiagnostic> = diagnostics;
    if kept.len() > max_count {
        kept.truncate(max_count);
    }
    let mut out: Vec<TransactionDiagnostic> = Vec::new();
    let mut i: usize = 0;
    while i < kept.len()
        invariant
            i <= kept.len(),
            out.len() == i,
            kept@.len() <= diagnostics@.len(),
            forall|j: int| 0 <= j < kept@.len() ==> #[trigger] kept@[j] == diagnostics@[j],
            forall|j: int|
                0 <= j < i ==> (#[trigger] out@[j]).diagnostic.code
                    == diagnostics@[j].diagnostic.code && is_cut(
                    out@[j].diagnostic.message,
                    diagnostics@[j].diagnostic.message,
                    max_message_bytes,
                ),
        decreases kept.len() - i,
    {
        let d = &kept[i].diagnostic;
        let message: Option<String> = match &d.message {
            Some(msg) => {
                if msg.as_str().len() > max_message_bytes {
                    Some(cut_message(msg.as_str(), max_message_bytes))
                } else {
                    Some(msg.clone())
                }
            },
            None => None,
        };
        assert(kept@[i as int] == diagnostics@[i as int]);
        out.push(
            TransactionDiagnostic { diagnostic: SafeDiagnostic { code: d.code.clone(), message } },
        );
        i = i + 1;
    }
    out
}

/// Of any number of claims without anything put back, at most the first one
/// yields the material.
pub proof fn claim_is_unique<C>(m: GuardModel<C>)
    ensures
        claim_yields(claim_tried(m)) is None,
        claim_tried(claim_tried(m)) == claim_tried(m),
{
}

/// Material that was claimed and put back before its callback was scheduled
/// can be claimed again; afterwards it cannot.
pub proof fn put_back_can_be_claimed_again<C>(m: GuardModel<C>, payload: FinalizationPayload<C>)
    requires
        claim_yields(m) == Some(payload),
    ensures
        !m.scheduled ==> claim_yields(restored(claim_tried(m), payload)) == Some(payload),
        m.scheduled ==> claim_yields(restored(claim_tried(m), payload)) is None,
{
}

} // verus!
