//! The task that claims a session which the first exchange creates.
//!
//! The session is claimed and announced, and the route is activated, before
//! the prompt may be sent.

use crate::transaction::active_registry::ClaimSessionError;
use crate::transaction::actor::{claim_kind, of_claim};
use crate::transaction::types::TransactionEndKind;
use vstd::prelude::*;

verus! {

/// What the task waits for.
#[derive(Clone, Copy, Debug, PartialEq, Eq, Structural)]
pub enum ClaimPhase {
    /// The session that the exchange tells.
    AwaitingId,
    /// The claim.
    Claiming,
    /// The announcement.
    Announcing,
    /// The route.
    Activating,
    /// Nothing.
    Done,
}

/// What the driver reports.
#[derive(Clone, Copy, Debug, PartialEq, Eq, Structural)]
pub enum ClaimInput {
    /// The session was told, or will never be.
    Told(bool),
    /// The session was claimed.
    Claimed,
    /// It was not.
    NotClaimed(ClaimSessionError),
    /// Whether the session was announced.
    Announced(bool),
    /// Whether the route was activated.
    Activated(bool),
}

/// What the driver has to do.
#[derive(Clone, Copy, Debug, PartialEq, Eq, Structural)]
pub enum ClaimAction {
    /// Claim the session.
    Claim,
    /// Note the session in the guard, and announce it.
    Announce,
    /// Tell those who wait for the session, rebind the dispatcher to it, and
    /// activate the route.
    Activate,
    /// Tell those who wait for the session, and rebind the dispatcher to it
    /// where there is one. The prompt may go: the task is over.
    Release,
    /// The task failed.
    Fail(TransactionEndKind),
    /// Nothing.
    Ignore,
}

/// A failure.
pub open spec fn failed(kind: TransactionEndKind) -> (ClaimPhase, ClaimAction) {
    (ClaimPhase::Done, ClaimAction::Fail(kind))
}

/// The machine of the task.
pub open spec fn claim_next(
    phase: ClaimPhase,
    has_route: bool,
    has_gateway: bool,
    input: ClaimInput,
) -> (ClaimPhase, ClaimAction) {
    match (phase, input) {
        (ClaimPhase::AwaitingId, ClaimInput::Told(told)) => if told {
            (ClaimPhase::Claiming, ClaimAction::Claim)
        } else {
            failed(TransactionEndKind::InvariantFailed)
        },
        (ClaimPhase::Claiming, ClaimInput::Claimed) => (
            ClaimPhase::Announcing,
            ClaimAction::Announce,
        ),
        (ClaimPhase::Claiming, ClaimInput::NotClaimed(e)) => failed(claim_kind(e)),
        (ClaimPhase::Announcing, ClaimInput::Announced(ok)) => if !ok {
            failed(TransactionEndKind::EventDeliveryFailed)
        } else if has_route && has_gateway {
            (ClaimPhase::Activating, ClaimAction::Activate)
        } else {
            (ClaimPhase::Done, ClaimAction::Release)
        },
        (ClaimPhase::Activating, ClaimInput::Activated(ok)) => if ok {
            (ClaimPhase::Done, ClaimAction::Release)
        } else {
            failed(TransactionEndKind::InvariantFailed)
        },
        _ => (phase, ClaimAction::Ignore),
    }
}

/// The task.
#[derive(Clone, Copy, Debug, PartialEq, Eq, Structural)]
pub struct ClaimTask {
    /// What it waits for.
    pub phase: ClaimPhase,
    /// Whether a route is installed.
    pub has_route: bool,
    /// Whether there is a gateway.
    pub has_gateway: bool,
}

impl ClaimTask {
    /// A task that waits for the session.
    pub fn new(has_route: bool, has_gateway: bool) -> (r: Self)
        ensures
            r == (ClaimTask { phase: ClaimPhase::AwaitingId, has_route, has_gateway }),
    {
        ClaimTask { phase: ClaimPhase::AwaitingId, has_route, has_gateway }
    }

    fn fail(&mut self, kind: TransactionEndKind) -> (r: ClaimAction)
        ensures
            final(self).has_route == old(self).has_route,
            final(self).has_gateway == old(self).has_gateway,
            (final(self).phase, r) == failed(kind),
    {
        self.phase = ClaimPhase::Done;
        ClaimAction::Fail(kind)
    }

    /// One step of the machine.
    pub fn step(&mut self, input: ClaimInput) -> (r: ClaimAction)
        ensures
            final(self).has_route == old(self).has_route,
            final(self).has_gateway == old(self).has_gateway,
            (final(self).phase, r) == claim_next(
                old(self).phase,
                old(self).has_route,
                old(self).has_gateway,
                input,
            ),
    {
        match (self.phase, input) {
            (ClaimPhase::AwaitingId, ClaimInput::Told(told)) => {
                if told {
                    self.phase = ClaimPhase::Claiming;
                    ClaimAction::Claim
                } else {
                    self.fail(TransactionEndKind::InvariantFailed)
                }
            },
            (ClaimPhase::Claiming, ClaimInput::Claimed) => {
                self.phase = ClaimPhase::Announcing;
                ClaimAction::Announce
            },
            (ClaimPhase::Claiming, ClaimInput::NotClaimed(e)) => self.fail(of_claim(e)),
            (ClaimPhase::Announcing, ClaimInput::Announced(ok)) => {
                if !ok {
                    self.fail(TransactionEndKind::EventDeliveryFailed)
                } else if self.has_route && self.has_gateway {
                    self.phase = ClaimPhase::Activating;
                    ClaimAction::Activate
                } else {
                    self.phase = ClaimPhase::Done;
                    ClaimAction::Release
                }
            },
            (ClaimPhase::Activating, ClaimInput::Activated(ok)) => {
                if ok {
                    self.phase = ClaimPhase::Done;
                    ClaimAction::Release
                } else {
                    self.fail(TransactionEndKind::InvariantFailed)
                }
            },
            _ => ClaimAction::Ignore,
        }
    }
}

/// The prompt is released only after the session was announced and the route,
/// where there is one, was activated.
pub proof fn prompt_is_released_last(
    phase: ClaimPhase,
    has_route: bool,
    has_gateway: bool,
    input: ClaimInput,
)
    requires
        claim_next(phase, has_route, has_gateway, input).1 == ClaimAction::Release,
    ensures
        input == ClaimInput::Announced(true) && phase == ClaimPhase::Announcing && !(has_route
            && has_gateway) || input == ClaimInput::Activated(true) && phase
            == ClaimPhase::Activating,
{
}

} // verus!
