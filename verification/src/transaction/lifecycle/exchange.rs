//! One exchange whose children the supervisor owns.
//!
//! [`SupervisedExchange::step`] is the machine; the driver performs the action
//! that a step returns and reports what happened.

use crate::contracts::{CanonicalUnit, CanonicalUnitEvent, ExternalSessionId, InterpretationEndKind};
use crate::identity::ExchangeId;
use crate::messages::sat_sum;
use crate::text::utf8_len;
use crate::transaction::exchange::{
    opt_len, reconcile_terminals, reconciled, ConnectionEndKind, EncodedFacts, ExchangeFailure,
};
use crate::transaction::types::TransactionEndKind;
use vstd::prelude::*;

verus! {

/// Failure of a supervised exchange.
#[derive(Clone, Copy, Debug, PartialEq, Eq, Structural)]
pub enum SupervisedFailure {
    /// Channel open failed.
    ChannelOpenFailed,
    /// Encoding failed.
    EncodingFailed,
    /// Connector transport failed.
    ConnectorFailed,
    /// Interpretation failed.
    InterpretationFailed,
    /// Cancelled.
    Cancelled,
    /// Terminated.
    Terminated,
    /// A bound was hit.
    LimitExceeded,
    /// Out of time.
    DeadlineExceeded,
    /// An internal rule was broken.
    InvariantFailed,
    /// A child could not be started.
    SpawnFailed,
}

impl SupervisedFailure {
    /// Terminal kind of the failure.
    pub open spec fn kind(self) -> TransactionEndKind {
        match self {
            SupervisedFailure::Cancelled => TransactionEndKind::Cancelled,
            SupervisedFailure::Terminated => TransactionEndKind::Terminated,
            SupervisedFailure::LimitExceeded => TransactionEndKind::LimitExceeded,
            SupervisedFailure::DeadlineExceeded => TransactionEndKind::DeadlineExceeded,
            SupervisedFailure::InvariantFailed => TransactionEndKind::InvariantFailed,
            SupervisedFailure::SpawnFailed => TransactionEndKind::InvariantFailed,
            SupervisedFailure::ChannelOpenFailed => TransactionEndKind::ChannelOpenFailed,
            SupervisedFailure::EncodingFailed => TransactionEndKind::EncodingFailed,
            SupervisedFailure::ConnectorFailed => TransactionEndKind::ConnectorFailed,
            SupervisedFailure::InterpretationFailed => TransactionEndKind::InterpretationFailed,
        }
    }

    /// Terminal kind of the failure.
    pub fn to_terminal(self) -> (r: TransactionEndKind)
        ensures
            r == self.kind(),
    {
        match self {
            SupervisedFailure::Cancelled => TransactionEndKind::Cancelled,
            SupervisedFailure::Terminated => TransactionEndKind::Terminated,
            SupervisedFailure::LimitExceeded => TransactionEndKind::LimitExceeded,
            SupervisedFailure::DeadlineExceeded => TransactionEndKind::DeadlineExceeded,
            SupervisedFailure::InvariantFailed
            | SupervisedFailure::SpawnFailed => TransactionEndKind::InvariantFailed,
            SupervisedFailure::ChannelOpenFailed => TransactionEndKind::ChannelOpenFailed,
            SupervisedFailure::EncodingFailed => TransactionEndKind::EncodingFailed,
            SupervisedFailure::ConnectorFailed => TransactionEndKind::ConnectorFailed,
            SupervisedFailure::InterpretationFailed => TransactionEndKind::InterpretationFailed,
        }
    }
}

/// Failure that connection and interpretation come to together.
pub open spec fn ends_failure(conn: ConnectionEndKind, interp: InterpretationEndKind) -> Option<
    SupervisedFailure,
> {
    match reconciled(conn, interp) {
        None => None,
        Some(ExchangeFailure::Cancelled) => Some(SupervisedFailure::Cancelled),
        Some(ExchangeFailure::Terminated) => Some(SupervisedFailure::Terminated),
        Some(ExchangeFailure::ConnectorFailed) => Some(SupervisedFailure::ConnectorFailed),
        Some(_) => Some(SupervisedFailure::InterpretationFailed),
    }
}

fn ends(conn: ConnectionEndKind, interp: InterpretationEndKind) -> (r: Option<SupervisedFailure>)
    ensures
        r == ends_failure(conn, interp),
{
    match reconcile_terminals(conn, interp) {
        None => None,
        Some(ExchangeFailure::Cancelled) => Some(SupervisedFailure::Cancelled),
        Some(ExchangeFailure::Terminated) => Some(SupervisedFailure::Terminated),
        Some(ExchangeFailure::ConnectorFailed) => Some(SupervisedFailure::ConnectorFailed),
        Some(_) => Some(SupervisedFailure::InterpretationFailed),
    }
}

/// Why the barrier before the prompt did not open.
#[derive(Clone, Copy, Debug, PartialEq, Eq, Structural)]
pub enum PromptProceedError {
    /// The channel has as many sessions as it may have.
    DistinctSessionsExceeded,
    /// Anything else.
    Failed,
}

/// How opening the connection went.
#[derive(Clone, Copy, Debug, PartialEq, Eq, Structural)]
pub enum OpenOutcome {
    /// It is open; with work for its owner or without.
    Opened {
        /// Whether there is work for its owner.
        owner_work: bool,
    },
    /// It failed.
    Failed,
    /// Out of time.
    TimedOut,
}

/// How handing a child to the supervisor went.
#[derive(Clone, Copy, Debug, PartialEq, Eq, Structural)]
pub enum ChildSpawn {
    /// The supervisor owns it.
    Taken,
    /// It came back.
    Returned,
    /// It is lost.
    Orphaned,
}

/// What the exchange waits for.
#[derive(Clone, Copy, Debug, PartialEq, Eq, Structural)]
pub enum SupervisedPhase {
    /// The encoded body.
    Encoding,
    /// The connection.
    Opening(EncodedFacts),
    /// The connection's owner.
    SpawningOwner(EncodedFacts),
    /// The interpreter.
    StartingInterpreter(EncodedFacts),
    /// The pump.
    SpawningPump(EncodedFacts),
    /// The session to be told to the barrier.
    TellingSession(EncodedFacts),
    /// The barrier.
    AwaitingProceed(EncodedFacts),
    /// The body to be sent.
    SendingBody(EncodedFacts),
    /// The input to be closed.
    FinishingInput,
    /// The collector.
    SpawningCollector,
    /// Both ends.
    Running,
    /// The children to end.
    Joining(Option<SupervisedFailure>),
    /// Nothing.
    Done,
}

/// What the driver reports.
#[derive(Clone, Copy, Debug, PartialEq, Eq)]
pub enum SupervisedInput {
    /// The encoded body; `None` means that the encoder refused.
    Encoded(Option<EncodedFacts>),
    /// The transaction was cancelled.
    Cancelled,
    /// How opening went.
    Opened(OpenOutcome),
    /// How handing over a child went.
    Spawned(ChildSpawn),
    /// Whether the interpreter was started.
    InterpreterStarted(bool),
    /// Whether someone listens at the barrier.
    SessionTold(bool),
    /// The barrier; whoever goes away without a word has failed.
    Proceed(Result<(), PromptProceedError>),
    /// Whether the body was sent.
    BodySent(bool),
    /// Whether the input was closed.
    InputFinished(bool),
    /// Too many bytes of units.
    LimitExceeded,
    /// Out of time.
    DeadlineExpired,
    /// Both ends.
    Ended(ConnectionEndKind, InterpretationEndKind),
    /// The children ended, or did not in time.
    ChildrenJoined,
}

/// What has to be cleaned up after a failure.
#[derive(Clone, Copy, Debug, PartialEq, Eq, Structural)]
pub struct SupervisedCleanup {
    /// The connection is to be terminated.
    pub terminate: bool,
    /// The owner's work is to be driven to its end here.
    pub drive_owner: bool,
    /// The children are to be waited for.
    pub await_children: bool,
}

/// What the driver has to do.
#[derive(Clone, Copy, Debug, PartialEq, Eq, Structural)]
pub enum SupervisedAction {
    /// Open the connection, under what is left of the deadline.
    Open,
    /// Hand over the connection's owner.
    SpawnOwner,
    /// Start the interpreter.
    StartInterpreter,
    /// Hand over the pump.
    SpawnPump,
    /// Tell the session to the barrier.
    TellSession,
    /// Wait for the barrier.
    AwaitProceed,
    /// Send the body.
    SendBody,
    /// Close the input.
    FinishInput,
    /// Hand over the collector.
    SpawnCollector,
    /// Wait for both ends, under what is left of the deadline.
    AwaitEnds,
    /// Terminate the connection or not, and wait for the children.
    JoinChildren {
        /// Whether to terminate.
        terminate: bool,
    },
    /// Clean up; the exchange failed.
    Fail(SupervisedFailure, SupervisedCleanup),
    /// The exchange is over.
    Finish(Option<SupervisedFailure>),
    /// Nothing.
    Ignore,
}

/// Bounds of a supervised exchange.
#[derive(Clone, Copy, Debug, PartialEq, Eq, Structural)]
pub struct SupervisedLimits {
    /// Most bytes of the encoded body.
    pub max_encoded_bytes: usize,
    /// Bytes that may still be sent to the provider.
    pub max_remaining_input_bytes: usize,
    /// Whether a gate stands before the prompt.
    pub gated: bool,
}

/// A failure before anything was opened.
pub open spec fn failed_plain(f: SupervisedFailure) -> (SupervisedPhase, SupervisedAction) {
    (
        SupervisedPhase::Done,
        SupervisedAction::Fail(
            f,
            SupervisedCleanup { terminate: false, drive_owner: false, await_children: false },
        ),
    )
}

/// A failure while the connection opens.
pub open spec fn failed_terminating(f: SupervisedFailure) -> (SupervisedPhase, SupervisedAction) {
    (
        SupervisedPhase::Done,
        SupervisedAction::Fail(
            f,
            SupervisedCleanup { terminate: true, drive_owner: false, await_children: false },
        ),
    )
}

/// A failure once there are children.
pub open spec fn failed_joining(f: SupervisedFailure) -> (SupervisedPhase, SupervisedAction) {
    (
        SupervisedPhase::Done,
        SupervisedAction::Fail(
            f,
            SupervisedCleanup { terminate: true, drive_owner: false, await_children: true },
        ),
    )
}

/// Before the prompt: the body, where there is one.
pub open spec fn prompt(b: EncodedFacts) -> (SupervisedPhase, SupervisedAction) {
    if b.bytes > 0 {
        (SupervisedPhase::SendingBody(b), SupervisedAction::SendBody)
    } else {
        after_body(b.finish)
    }
}

/// After the body: the input is closed, unless more may follow.
pub open spec fn after_body(finish: bool) -> (SupervisedPhase, SupervisedAction) {
    if finish {
        (SupervisedPhase::FinishingInput, SupervisedAction::FinishInput)
    } else {
        (SupervisedPhase::SpawningCollector, SupervisedAction::SpawnCollector)
    }
}

/// The end of a running exchange: children are always waited for.
pub open spec fn ending(f: Option<SupervisedFailure>, terminate: bool) -> (
    SupervisedPhase,
    SupervisedAction,
) {
    (SupervisedPhase::Joining(f), SupervisedAction::JoinChildren { terminate })
}

/// The whole machine: next phase and action for each report.
pub open spec fn next(
    phase: SupervisedPhase,
    limits: SupervisedLimits,
    input: SupervisedInput,
) -> (SupervisedPhase, SupervisedAction) {
    match (phase, input) {
        (SupervisedPhase::Encoding, SupervisedInput::Encoded(body)) => match body {
            None => failed_plain(SupervisedFailure::EncodingFailed),
            Some(b) => if b.bytes > limits.max_encoded_bytes {
                failed_plain(SupervisedFailure::EncodingFailed)
            } else if b.bytes > limits.max_remaining_input_bytes {
                failed_plain(SupervisedFailure::LimitExceeded)
            } else {
                (SupervisedPhase::Opening(b), SupervisedAction::Open)
            },
        },
        (SupervisedPhase::Opening(_), SupervisedInput::Cancelled) => failed_terminating(
            SupervisedFailure::Cancelled,
        ),
        (SupervisedPhase::Opening(b), SupervisedInput::Opened(o)) => match o {
            OpenOutcome::Failed => failed_plain(SupervisedFailure::ChannelOpenFailed),
            OpenOutcome::TimedOut => failed_terminating(SupervisedFailure::DeadlineExceeded),
            OpenOutcome::Opened { owner_work } => if owner_work {
                (SupervisedPhase::SpawningOwner(b), SupervisedAction::SpawnOwner)
            } else {
                failed_terminating(SupervisedFailure::InvariantFailed)
            },
        },
        (SupervisedPhase::SpawningOwner(b), SupervisedInput::Spawned(s)) => match s {
            ChildSpawn::Taken => (
                SupervisedPhase::StartingInterpreter(b),
                SupervisedAction::StartInterpreter,
            ),
            ChildSpawn::Returned => (
                SupervisedPhase::Done,
                SupervisedAction::Fail(
                    SupervisedFailure::SpawnFailed,
                    SupervisedCleanup {
                        terminate: true,
                        drive_owner: true,
                        await_children: false,
                    },
                ),
            ),
            ChildSpawn::Orphaned => failed_joining(SupervisedFailure::SpawnFailed),
        },
        (SupervisedPhase::StartingInterpreter(b), SupervisedInput::InterpreterStarted(ok)) => if ok {
            (SupervisedPhase::SpawningPump(b), SupervisedAction::SpawnPump)
        } else {
            failed_joining(SupervisedFailure::InterpretationFailed)
        },
        (SupervisedPhase::SpawningPump(b), SupervisedInput::Spawned(s)) => if s
            != ChildSpawn::Taken {
            failed_joining(SupervisedFailure::SpawnFailed)
        } else if limits.gated {
            (SupervisedPhase::TellingSession(b), SupervisedAction::TellSession)
        } else {
            prompt(b)
        },
        (SupervisedPhase::TellingSession(b), SupervisedInput::SessionTold(ok)) => if ok {
            (SupervisedPhase::AwaitingProceed(b), SupervisedAction::AwaitProceed)
        } else {
            failed_joining(SupervisedFailure::InvariantFailed)
        },
        (SupervisedPhase::AwaitingProceed(_), SupervisedInput::Cancelled) => failed_joining(
            SupervisedFailure::Cancelled,
        ),
        (SupervisedPhase::AwaitingProceed(b), SupervisedInput::Proceed(p)) => match p {
            Ok(()) => prompt(b),
            Err(PromptProceedError::DistinctSessionsExceeded) => failed_joining(
                SupervisedFailure::LimitExceeded,
            ),
            Err(PromptProceedError::Failed) => failed_joining(SupervisedFailure::InvariantFailed),
        },
        (SupervisedPhase::SendingBody(b), SupervisedInput::BodySent(ok)) => if ok {
            after_body(b.finish)
        } else {
            failed_joining(SupervisedFailure::ConnectorFailed)
        },
        (SupervisedPhase::FinishingInput, SupervisedInput::InputFinished(ok)) => if ok {
            (SupervisedPhase::SpawningCollector, SupervisedAction::SpawnCollector)
        } else {
            failed_joining(SupervisedFailure::ConnectorFailed)
        },
        (SupervisedPhase::SpawningCollector, SupervisedInput::Spawned(s)) => if s
            == ChildSpawn::Taken {
            (SupervisedPhase::Running, SupervisedAction::AwaitEnds)
        } else {
            failed_joining(SupervisedFailure::SpawnFailed)
        },
        (SupervisedPhase::Running, SupervisedInput::Cancelled) => ending(
            Some(SupervisedFailure::Cancelled),
            true,
        ),
        (SupervisedPhase::Running, SupervisedInput::LimitExceeded) => ending(
            Some(SupervisedFailure::LimitExceeded),
            true,
        ),
        (SupervisedPhase::Running, SupervisedInput::DeadlineExpired) => ending(
            Some(SupervisedFailure::DeadlineExceeded),
            true,
        ),
        (SupervisedPhase::Running, SupervisedInput::Ended(c, i)) => ending(
            ends_failure(c, i),
            false,
        ),
        (SupervisedPhase::Joining(f), SupervisedInput::ChildrenJoined) => (
            SupervisedPhase::Done,
            SupervisedAction::Finish(f),
        ),
        _ => (phase, SupervisedAction::Ignore),
    }
}

/// One supervised exchange.
#[derive(Clone, Copy, Debug, PartialEq, Eq, Structural)]
pub struct SupervisedExchange {
    /// What it waits for.
    pub phase: SupervisedPhase,
    /// Bounds.
    pub limits: SupervisedLimits,
}

impl SupervisedExchange {
    /// An exchange that waits for its encoded body.
    pub fn new(limits: SupervisedLimits) -> (r: Self)
        ensures
            r == (SupervisedExchange { phase: SupervisedPhase::Encoding, limits }),
    {
        SupervisedExchange { phase: SupervisedPhase::Encoding, limits }
    }

    fn fail(&mut self, f: SupervisedFailure, cleanup: SupervisedCleanup) -> (r: SupervisedAction)
        ensures
            final(self).limits == old(self).limits,
            final(self).phase == SupervisedPhase::Done,
            r == SupervisedAction::Fail(f, cleanup),
    {
        self.phase = SupervisedPhase::Done;
        SupervisedAction::Fail(f, cleanup)
    }

    fn fail_plain(&mut self, f: SupervisedFailure) -> (r: SupervisedAction)
        ensures
            final(self).limits == old(self).limits,
            (final(self).phase, r) == failed_plain(f),
    {
        self.fail(
            f,
            SupervisedCleanup { terminate: false, drive_owner: false, await_children: false },
        )
    }

    fn fail_terminating(&mut self, f: SupervisedFailure) -> (r: SupervisedAction)
        ensures
            final(self).limits == old(self).limits,
            (final(self).phase, r) == failed_terminating(f),
    {
        self.fail(
            f,
            SupervisedCleanup { terminate: true, drive_owner: false, await_children: false },
        )
    }

    fn fail_cleanup(&mut self, f: SupervisedFailure) -> (r: SupervisedAction)
        ensures
            final(self).limits == old(self).limits,
            (final(self).phase, r) == failed_joining(f),
    {
        self.fail(
            f,
            SupervisedCleanup { terminate: true, drive_owner: false, await_children: true },
        )
    }

    fn begin_prompt(&mut self, b: EncodedFacts) -> (r: SupervisedAction)
        ensures
            final(self).limits == old(self).limits,
            (final(self).phase, r) == prompt(b),
    {
        if b.bytes > 0 {
            self.phase = SupervisedPhase::SendingBody(b);
            SupervisedAction::SendBody
        } else {
            self.body_done(b.finish)
        }
    }

    fn body_done(&mut self, finish: bool) -> (r: SupervisedAction)
        ensures
            final(self).limits == old(self).limits,
            (final(self).phase, r) == after_body(finish),
    {
        if finish {
            self.phase = SupervisedPhase::FinishingInput;
            SupervisedAction::FinishInput
        } else {
            self.phase = SupervisedPhase::SpawningCollector;
            SupervisedAction::SpawnCollector
        }
    }

    fn end(&mut self, f: Option<SupervisedFailure>, terminate: bool) -> (r: SupervisedAction)
        ensures
            final(self).limits == old(self).limits,
            (final(self).phase, r) == ending(f, terminate),
    {
        self.phase = SupervisedPhase::Joining(f);
        SupervisedAction::JoinChildren { terminate }
    }

    /// One step of the machine.
    pub fn step(&mut self, input: SupervisedInput) -> (r: SupervisedAction)
        ensures
            final(self).limits == old(self).limits,
            (final(self).phase, r) == next(old(self).phase, old(self).limits, input),
    {
        match (self.phase, input) {
            (SupervisedPhase::Encoding, SupervisedInput::Encoded(body)) => match body {
                None => self.fail_plain(SupervisedFailure::EncodingFailed),
                Some(b) => {
                    if b.bytes > self.limits.max_encoded_bytes {
                        self.fail_plain(SupervisedFailure::EncodingFailed)
                    } else if b.bytes > self.limits.max_remaining_input_bytes {
                        self.fail_plain(SupervisedFailure::LimitExceeded)
                    } else {
                        self.phase = SupervisedPhase::Opening(b);
                        SupervisedAction::Open
                    }
                },
            },
            (SupervisedPhase::Opening(_), SupervisedInput::Cancelled) => self.fail_terminating(
                SupervisedFailure::Cancelled,
            ),
            (SupervisedPhase::Opening(b), SupervisedInput::Opened(o)) => match o {
                OpenOutcome::Failed => self.fail_plain(SupervisedFailure::ChannelOpenFailed),
                OpenOutcome::TimedOut => self.fail_terminating(SupervisedFailure::DeadlineExceeded),
                OpenOutcome::Opened { owner_work } => {
                    if owner_work {
                        self.phase = SupervisedPhase::SpawningOwner(b);
                        SupervisedAction::SpawnOwner
                    } else {
                        self.fail_terminating(SupervisedFailure::InvariantFailed)
                    }
                },
            },
            (SupervisedPhase::SpawningOwner(b), SupervisedInput::Spawned(s)) => match s {
                ChildSpawn::Taken => {
                    self.phase = SupervisedPhase::StartingInterpreter(b);
                    SupervisedAction::StartInterpreter
                },
                ChildSpawn::Returned => self.fail(
                    SupervisedFailure::SpawnFailed,
                    SupervisedCleanup {
                        terminate: true,
                        drive_owner: true,
                        await_children: false,
                    },
                ),
                ChildSpawn::Orphaned => self.fail_cleanup(SupervisedFailure::SpawnFailed),
            },
            (SupervisedPhase::StartingInterpreter(b), SupervisedInput::InterpreterStarted(ok)) => {
                if ok {
                    self.phase = SupervisedPhase::SpawningPump(b);
                    SupervisedAction::SpawnPump
                } else {
                    self.fail_cleanup(SupervisedFailure::InterpretationFailed)
                }
            },
            (SupervisedPhase::SpawningPump(b), SupervisedInput::Spawned(s)) => {
                if s != ChildSpawn::Taken {
                    self.fail_cleanup(SupervisedFailure::SpawnFailed)
                } else if self.limits.gated {
                    self.phase = SupervisedPhase::TellingSession(b);
                    SupervisedAction::TellSession
                } else {
                    self.begin_prompt(b)
                }
            },
            (SupervisedPhase::TellingSession(b), SupervisedInput::SessionTold(ok)) => {
                if ok {
                    self.phase = SupervisedPhase::AwaitingProceed(b);
                    SupervisedAction::AwaitProceed
                } else {
                    self.fail_cleanup(SupervisedFailure::InvariantFailed)
                }
            },
            (SupervisedPhase::AwaitingProceed(_), SupervisedInput::Cancelled) => self.fail_cleanup(
                SupervisedFailure::Cancelled,
            ),
            (SupervisedPhase::AwaitingProceed(b), SupervisedInput::Proceed(p)) => match p {
                Ok(()) => self.begin_prompt(b),
                Err(PromptProceedError::DistinctSessionsExceeded) => self.fail_cleanup(
                    SupervisedFailure::LimitExceeded,
                ),
                Err(PromptProceedError::Failed) => self.fail_cleanup(
                    SupervisedFailure::InvariantFailed,
                ),
            },
            (SupervisedPhase::SendingBody(b), SupervisedInput::BodySent(ok)) => {
                if ok {
                    self.body_done(b.finish)
                } else {
                    self.fail_cleanup(SupervisedFailure::ConnectorFailed)
                }
            },
            (SupervisedPhase::FinishingInput, SupervisedInput::InputFinished(ok)) => {
                if ok {
                    self.phase = SupervisedPhase::SpawningCollector;
                    SupervisedAction::SpawnCollector
                } else {
                    self.fail_cleanup(SupervisedFailure::ConnectorFailed)
                }
            },
            (SupervisedPhase::SpawningCollector, SupervisedInput::Spawned(s)) => {
                if s == ChildSpawn::Taken {
                    self.phase = SupervisedPhase::Running;
                    SupervisedAction::AwaitEnds
                } else {
                    self.fail_cleanup(SupervisedFailure::SpawnFailed)
                }
            },
            (SupervisedPhase::Running, SupervisedInput::Cancelled) => self.end(
                Some(SupervisedFailure::Cancelled),
                true,
            ),
            (SupervisedPhase::Running, SupervisedInput::LimitExceeded) => self.end(
                Some(SupervisedFailure::LimitExceeded),
                true,
            ),
            (SupervisedPhase::Running, SupervisedInput::DeadlineExpired) => self.end(
                Some(SupervisedFailure::DeadlineExceeded),
                true,
            ),
            (SupervisedPhase::Running, SupervisedInput::Ended(c, i)) => {
                let f = ends(c, i);
                self.end(f, false)
            },
            (SupervisedPhase::Joining(f), SupervisedInput::ChildrenJoined) => {
                self.phase = SupervisedPhase::Done;
                SupervisedAction::Finish(f)
            },
            _ => SupervisedAction::Ignore,
        }
    }
}

/// Outcome of a supervised exchange.
#[derive(Clone, Debug)]
pub struct DirectExchangeOutcome<U> {
    /// Units observed; none where the exchange failed.
    pub units: Vec<U>,
    /// Proposed terminal kind.
    pub terminal: TransactionEndKind,
    /// Exchange.
    pub exchange_id: ExchangeId,
    /// Session that the connector told, where the exchange succeeded.
    pub external_session_id: Option<ExternalSessionId>,
}

/// Outcome of a supervised exchange: a failed one keeps neither units nor session.
pub fn direct_outcome<U>(
    failure: Option<SupervisedFailure>,
    units: Vec<U>,
    exchange_id: ExchangeId,
    external_session_id: Option<ExternalSessionId>,
) -> (r: DirectExchangeOutcome<U>)
    ensures
        r.exchange_id == exchange_id,
        match failure {
            None => r.units@ == units@ && r.terminal == TransactionEndKind::Completed
                && r.external_session_id == external_session_id,
            Some(f) => r.units@.len() == 0 && r.terminal == f.kind() && r.external_session_id
                is None,
        },
{
    match failure {
        None => DirectExchangeOutcome {
            units,
            terminal: TransactionEndKind::Completed,
            exchange_id,
            external_session_id,
        },
        Some(f) => DirectExchangeOutcome {
            units: Vec::new(),
            terminal: f.to_terminal(),
            exchange_id,
            external_session_id: None,
        },
    }
}

/// Size of a retained unit: its content and 128 bytes.
pub open spec fn retained_size(u: CanonicalUnitEvent) -> usize {
    let content = match u.unit_snapshot().unit {
        CanonicalUnit::Text(t) => utf8_len(t.content@),
        CanonicalUnit::Structure(t) => utf8_len(t@),
        CanonicalUnit::Tool(t) => sat_sum(opt_len(t.request_payload), opt_len(t.result_payload)),
        CanonicalUnit::Diagnostic(d) => utf8_len(d@),
        _ => 32,
    };
    sat_sum(content, 128)
}

/// Size of a retained unit.
pub fn estimate_retained_unit_bytes(unit: &CanonicalUnitEvent) -> (r: usize)
    ensures
        r == retained_size(*unit),
{
    let content: usize = match &unit.snapshot().unit {
        CanonicalUnit::Text(t) => t.content.as_str().len(),
        CanonicalUnit::Structure(t) => t.as_str().len(),
        CanonicalUnit::Tool(t) => {
            let asked: usize = match &t.request_payload {
                Some(p) => p.as_str().len(),
                None => 0,
            };
            let answered: usize = match &t.result_payload {
                Some(p) => p.as_str().len(),
                None => 0,
            };
            asked.saturating_add(answered)
        },
        CanonicalUnit::Diagnostic(d) => d.as_str().len(),
        _ => 32,
    };
    content.saturating_add(128)
}

/// Units that a supervised exchange retains, within a number of bytes.
pub struct RetainedUnits {
    /// The units, in order.
    pub units: Vec<CanonicalUnitEvent>,
    /// Their size.
    pub retained_bytes: usize,
    /// Most bytes.
    pub max_bytes: usize,
}

impl RetainedUnits {
    /// Whether the size is within the bound.
    pub open spec fn wf(&self) -> bool {
        self.retained_bytes <= self.max_bytes
    }

    /// No units.
    pub fn new(max_bytes: usize) -> (r: Self)
        ensures
            r.wf(),
            r.units@ == Seq::<CanonicalUnitEvent>::empty(),
            r.retained_bytes == 0,
            r.max_bytes == max_bytes,
    {
        RetainedUnits { units: Vec::new(), retained_bytes: 0, max_bytes }
    }

    /// Retains a unit, unless it would be too much; answers whether it did.
    pub fn on_unit(&mut self, unit: CanonicalUnitEvent) -> (r: bool)
        requires
            old(self).wf(),
        ensures
            final(self).wf(),
            final(self).max_bytes == old(self).max_bytes,
            r == (sat_sum(old(self).retained_bytes, retained_size(unit)) <= old(self).max_bytes),
            r ==> final(self).units@ == old(self).units@.push(unit) && final(self).retained_bytes
                == sat_sum(old(self).retained_bytes, retained_size(unit)),
            !r ==> final(self).units@ == old(self).units@ && final(self).retained_bytes == old(
                self).retained_bytes,
    {
        let size: usize = estimate_retained_unit_bytes(&unit);
        if self.retained_bytes.saturating_add(size) > self.max_bytes {
            return false;
        }
        self.retained_bytes = self.retained_bytes.saturating_add(size);
        self.units.push(unit);
        true
    }
}

/// Whether an exchange has opened its connection.
pub open spec fn is_open(phase: SupervisedPhase) -> bool {
    !(phase is Encoding || phase is Opening || phase is Done || phase is Joining)
}

/// Whatever stops an exchange once its connection is open, the connection is
/// terminated or has ended, and a running exchange waits for its children
/// before it finishes.
pub proof fn open_exchange_is_cleaned_up(
    phase: SupervisedPhase,
    limits: SupervisedLimits,
    input: SupervisedInput,
)
    ensures
        ({
            let s = next(phase, limits, input);
            &&& is_open(phase) ==> (s.1 matches SupervisedAction::Fail(_, c) ==> c.terminate)
            &&& phase is Running ==> !(s.1 is Fail) && !(s.1 is Finish)
            &&& s.1 is Finish ==> phase is Joining
        }),
{
}

/// Nothing is sent to the provider before the barrier has opened.
pub proof fn prompt_waits_for_gate(
    phase: SupervisedPhase,
    limits: SupervisedLimits,
    input: SupervisedInput,
)
    requires
        limits.gated,
        next(phase, limits, input).1 == SupervisedAction::SendBody,
    ensures
        phase is AwaitingProceed,
        input matches SupervisedInput::Proceed(p) && p is Ok,
{
}

} // verus!
