//! One exchange with a provider: encode, open, send, pump, interpret, reconcile.
//!
//! [`ExchangeRun::step`] is the machine; the driver performs the action that a
//! step returns and reports what happened.

use crate::contracts::{CanonicalUnit, CanonicalUnitEvent, InterpretationEndKind};
use crate::messages::sat_sum;
use crate::text::utf8_len;
use crate::transaction::types::TransactionEndKind;
use vstd::prelude::*;

verus! {

/// Most units that one exchange retains.
pub const MAX_RETAINED_UNITS: usize = 10_000;

/// Least time that children get to end: 50 ms.
pub const MIN_JOIN_GRACE_NANOS: u128 = 50_000_000;

/// Exchange-level failure.
#[derive(Clone, Copy, Debug, PartialEq, Eq, Structural)]
pub enum ExchangeFailure {
    /// Channel open failed.
    ChannelOpenFailed,
    /// Encoding failed.
    EncodingFailed,
    /// Connector transport failed.
    ConnectorFailed,
    /// Interpretation failed.
    InterpretationFailed,
    /// Cancelled.
    Cancelled,
    /// Terminated.
    Terminated,
    /// Retained output / aggregate limit exceeded.
    LimitExceeded,
    /// An internal rule was broken.
    InvariantFailed,
    /// The session was not claimed in time.
    ClaimDeadlineExceeded,
}

/// How a connection ended.
#[derive(Clone, Copy, Debug, PartialEq, Eq, Structural)]
pub enum ConnectionEndKind {
    /// The other side closed it.
    RemoteEof,
    /// This side closed it.
    LocalShutdown,
    /// Cancelled.
    Cancelled,
    /// Terminated.
    Terminated,
    /// The transport failed.
    TransportFailure,
}

/// What a connection and an interpretation come to together: the connection's
/// failure first, then the interpretation's.
pub open spec fn reconciled(
    conn: ConnectionEndKind,
    interp: InterpretationEndKind,
) -> Option<ExchangeFailure> {
    match conn {
        ConnectionEndKind::Cancelled => Some(ExchangeFailure::Cancelled),
        ConnectionEndKind::Terminated => Some(ExchangeFailure::Terminated),
        ConnectionEndKind::TransportFailure => Some(ExchangeFailure::ConnectorFailed),
        ConnectionEndKind::RemoteEof | ConnectionEndKind::LocalShutdown => match interp {
            InterpretationEndKind::Complete => None,
            InterpretationEndKind::Cancelled => Some(ExchangeFailure::Cancelled),
            InterpretationEndKind::Terminated => Some(ExchangeFailure::Terminated),
            InterpretationEndKind::TransportFailed => Some(ExchangeFailure::ConnectorFailed),
            InterpretationEndKind::DialectFailed
            | InterpretationEndKind::LimitExceeded
            | InterpretationEndKind::InvariantFailed => Some(ExchangeFailure::InterpretationFailed),
        },
    }
}

/// What a connection and an interpretation come to together.
pub fn reconcile_terminals(conn: ConnectionEndKind, interp: InterpretationEndKind) -> (r: Option<
    ExchangeFailure,
>)
    ensures
        r == reconciled(conn, interp),
{
    match conn {
        ConnectionEndKind::Cancelled => {
            return Some(ExchangeFailure::Cancelled);
        },
        ConnectionEndKind::Terminated => {
            return Some(ExchangeFailure::Terminated);
        },
        ConnectionEndKind::TransportFailure => {
            return Some(ExchangeFailure::ConnectorFailed);
        },
        ConnectionEndKind::RemoteEof | ConnectionEndKind::LocalShutdown => {},
    }
    match interp {
        InterpretationEndKind::Complete => None,
        InterpretationEndKind::Cancelled => Some(ExchangeFailure::Cancelled),
        InterpretationEndKind::Terminated => Some(ExchangeFailure::Terminated),
        InterpretationEndKind::TransportFailed => Some(ExchangeFailure::ConnectorFailed),
        InterpretationEndKind::DialectFailed
        | InterpretationEndKind::LimitExceeded
        | InterpretationEndKind::InvariantFailed => Some(ExchangeFailure::InterpretationFailed),
    }
}

/// An exchange succeeds only where the connection closed cleanly and the
/// interpretation is complete.
pub proof fn success_needs_both_ends(conn: ConnectionEndKind, interp: InterpretationEndKind)
    ensures
        reconciled(conn, interp) is None <==> (conn == ConnectionEndKind::RemoteEof || conn
            == ConnectionEndKind::LocalShutdown) && interp == InterpretationEndKind::Complete,
{
}

/// What the pump read.
#[derive(Clone, Copy, Debug, PartialEq, Eq, Structural)]
pub enum PumpInput {
    /// Bytes.
    Chunk,
    /// The end.
    Eof,
    /// An error: the connection was cancelled.
    Cancelled,
    /// An error: the connection was terminated.
    Terminated,
    /// Another error.
    Failed,
    /// The interpreter takes no more.
    Refused,
}

/// What the pump does. But for pushing, it stops afterwards.
#[derive(Clone, Copy, Debug, PartialEq, Eq, Structural)]
pub enum PumpAction {
    /// Push the bytes, and read on.
    Push,
    /// Tell the interpreter that this was the end.
    FinishClean,
    /// Cancel the interpreter.
    Cancel,
    /// Tell the interpreter that the transport failed.
    TransportFailed,
    /// Nothing.
    Stop,
}

/// What the pump does.
pub fn pump_step(input: PumpInput) -> (r: PumpAction)
    ensures
        r == (match input {
            PumpInput::Chunk => PumpAction::Push,
            PumpInput::Eof => PumpAction::FinishClean,
            PumpInput::Cancelled | PumpInput::Terminated => PumpAction::Cancel,
            PumpInput::Failed => PumpAction::TransportFailed,
            PumpInput::Refused => PumpAction::Stop,
        }),
{
    match input {
        PumpInput::Chunk => PumpAction::Push,
        PumpInput::Eof => PumpAction::FinishClean,
        PumpInput::Cancelled | PumpInput::Terminated => PumpAction::Cancel,
        PumpInput::Failed => PumpAction::TransportFailed,
        PumpInput::Refused => PumpAction::Stop,
    }
}

/// Units that an exchange retains.
pub struct UnitCollector<U> {
    /// The units, in order.
    pub units: Vec<U>,
    /// Their bytes.
    pub bytes: usize,
    /// Most bytes.
    pub max_bytes: usize,
    /// Whether there was one too many.
    pub exceeded: bool,
}

impl<U> UnitCollector<U> {
    /// No units, and no bound on their bytes.
    pub fn new() -> (r: Self)
        ensures
            r.units@ == Seq::<U>::empty(),
            r.bytes == 0,
            r.max_bytes == usize::MAX,
            !r.exceeded,
    {
        Self::within(usize::MAX)
    }

    /// No units, and a bound on their bytes.
    pub fn within(max_bytes: usize) -> (r: Self)
        ensures
            r.units@ == Seq::<U>::empty(),
            r.bytes == 0,
            r.max_bytes == max_bytes,
            !r.exceeded,
    {
        UnitCollector { units: Vec::new(), bytes: 0, max_bytes, exceeded: false }
    }

    /// Retains a unit that counts for no bytes; answers whether to go on.
    pub fn on_unit(&mut self, unit: U, forwarded: Option<bool>) -> (r: bool)
        ensures
            ({
                let lost = forwarded == Some(false);
                let full = old(self).units@.len() >= MAX_RETAINED_UNITS;
                &&& r == (!lost && !full)
                &&& final(self).exceeded == (old(self).exceeded || (!lost && full))
                &&& final(self).units@ == (if r {
                    old(self).units@.push(unit)
                } else {
                    old(self).units@
                })
                &&& final(self).bytes == old(self).bytes
                &&& final(self).max_bytes == old(self).max_bytes
            }),
    {
        match forwarded {
            Some(false) => {
                return false;
            },
            _ => {},
        }
        if self.units.len() >= MAX_RETAINED_UNITS {
            self.exceeded = true;
            return false;
        }
        self.units.push(unit);
        true
    }

    /// Retains a unit; answers whether to go on. `forwarded` says whether a
    /// live listener took it, where there is one: if it did not, the unit is
    /// not retained.
    pub fn on_sized_unit(&mut self, unit: U, size: usize, forwarded: Option<bool>) -> (r: bool)
        ensures
            ({
                let lost = forwarded == Some(false);
                let full = old(self).units@.len() >= MAX_RETAINED_UNITS || old(self).bytes + size
                    > old(self).max_bytes;
                &&& r == (!lost && !full)
                &&& final(self).exceeded == (old(self).exceeded || (!lost && full))
                &&& final(self).units@ == (if r {
                    old(self).units@.push(unit)
                } else {
                    old(self).units@
                })
                &&& final(self).bytes == (if r {
                    old(self).bytes + size
                } else {
                    old(self).bytes as int
                })
                &&& final(self).max_bytes == old(self).max_bytes
            }),
    {
        match forwarded {
            Some(false) => {
                return false;
            },
            _ => {},
        }
        if self.units.len() >= MAX_RETAINED_UNITS || self.bytes > self.max_bytes || size
            > self.max_bytes - self.bytes {
            self.exceeded = true;
            return false;
        }
        self.units.push(unit);
        self.bytes = self.bytes + size;
        true
    }
}

/// What is known of an encoded body.
#[derive(Clone, Copy, Debug, PartialEq, Eq, Structural)]
pub struct EncodedFacts {
    /// Bytes.
    pub bytes: usize,
    /// Whether no input follows.
    pub finish: bool,
}

/// What the exchange waits for.
#[derive(Clone, Copy, Debug, PartialEq, Eq, Structural)]
pub enum ExchangePhase {
    /// The encoded body.
    Encoding,
    /// The connection.
    Opening(EncodedFacts),
    /// The interpreter.
    StartingInterpreter(EncodedFacts),
    /// The pump.
    StartingPump(EncodedFacts),
    /// The barrier before the prompt.
    AwaitingGate(EncodedFacts),
    /// The body to be sent.
    SendingBody(EncodedFacts),
    /// The input to be closed.
    FinishingInput,
    /// The collector.
    StartingCollector,
    /// Both ends.
    Running,
    /// The children to end.
    Joining(Option<ExchangeFailure>),
    /// Nothing.
    Done,
}

/// What the driver reports.
#[derive(Clone, Copy, Debug, PartialEq, Eq, Structural)]
pub enum ExchangeInput {
    /// The encoded body; `None` means that the encoder refused.
    Encoded(Option<EncodedFacts>),
    /// Whether the connection was opened in time.
    Opened(bool),
    /// Whether the interpreter was started.
    InterpreterStarted(bool),
    /// The pump was started.
    PumpStarted,
    /// The prompt may go.
    GateOpened,
    /// The barrier was given up.
    GateFailed,
    /// The barrier did not open in time.
    GateTimedOut,
    /// Whether the body was sent.
    BodySent(bool),
    /// Whether the input was closed.
    InputFinished(bool),
    /// Whether the collector was started.
    CollectorStarted(bool),
    /// Out of time.
    DeadlineExpired,
    /// Both ends.
    Ended(ConnectionEndKind, InterpretationEndKind),
    /// The children ended or were aborted.
    Joined {
        /// Whether there were too many units.
        exceeded: bool,
    },
    /// Nobody waits for the exchange any more.
    Cancelled,
}

/// What has to be cleaned up after a failure.
#[derive(Clone, Copy, Debug, PartialEq, Eq, Structural)]
pub enum ExchangeCleanup {
    /// Nothing.
    Nothing,
    /// The connection that is being opened is to be terminated.
    TerminateOpen,
    /// The pump is to be aborted.
    AbortPump,
    /// The connection is to be terminated, and the pump aborted where it runs.
    TerminatePump,
    /// The connection is to be terminated, pump and collector aborted.
    TerminateAll,
}

/// What the driver has to do.
#[derive(Clone, Copy, Debug, PartialEq, Eq, Structural)]
pub enum ExchangeAction {
    /// Open the connection, under the deadline.
    Open,
    /// Start the interpreter.
    StartInterpreter,
    /// Start the pump.
    StartPump,
    /// Wait for the barrier before the prompt, under the deadline.
    AwaitGate,
    /// Send the body.
    SendBody,
    /// Close the input.
    FinishInput,
    /// Start the collector.
    StartCollector,
    /// Wait for both ends, under the deadline.
    AwaitEnds,
    /// Join the children, and abort those that do not end in time.
    JoinChildren,
    /// Clean up; the exchange failed.
    Fail(ExchangeFailure, ExchangeCleanup),
    /// The exchange has an outcome, with the failure that the ends tell, if any.
    Finish(Option<ExchangeFailure>),
    /// Nothing.
    Ignore,
}

/// A failed exchange.
pub open spec fn failed(f: ExchangeFailure, c: ExchangeCleanup) -> (ExchangePhase, ExchangeAction) {
    (ExchangePhase::Done, ExchangeAction::Fail(f, c))
}

/// After the body: the input is closed, unless more may follow.
pub open spec fn after_body(finish: bool) -> (ExchangePhase, ExchangeAction) {
    if finish {
        (ExchangePhase::FinishingInput, ExchangeAction::FinishInput)
    } else {
        (ExchangePhase::StartingCollector, ExchangeAction::StartCollector)
    }
}

/// Before the prompt: the body, where there is one.
pub open spec fn prompt(b: EncodedFacts) -> (ExchangePhase, ExchangeAction) {
    if b.bytes > 0 {
        (ExchangePhase::SendingBody(b), ExchangeAction::SendBody)
    } else {
        after_body(b.finish)
    }
}

/// What runs in a phase and has to be stopped when nobody waits any more.
pub open spec fn stopped_in(phase: ExchangePhase) -> ExchangeCleanup {
    match phase {
        ExchangePhase::Encoding | ExchangePhase::Done => ExchangeCleanup::Nothing,
        ExchangePhase::Opening(_) => ExchangeCleanup::TerminateOpen,
        ExchangePhase::StartingInterpreter(_)
        | ExchangePhase::StartingPump(_)
        | ExchangePhase::AwaitingGate(_)
        | ExchangePhase::SendingBody(_)
        | ExchangePhase::FinishingInput
        | ExchangePhase::StartingCollector => ExchangeCleanup::TerminatePump,
        ExchangePhase::Running | ExchangePhase::Joining(_) => ExchangeCleanup::TerminateAll,
    }
}

/// The whole machine: next phase and action for each report.
pub open spec fn next(s: ExchangeRun, input: ExchangeInput) -> (ExchangePhase, ExchangeAction) {
    match (s.phase, input) {
        (ExchangePhase::Done, ExchangeInput::Cancelled) => (s.phase, ExchangeAction::Ignore),
        (_, ExchangeInput::Cancelled) => failed(ExchangeFailure::Cancelled, stopped_in(s.phase)),
        (ExchangePhase::Encoding, ExchangeInput::Encoded(body)) => match body {
            None => failed(ExchangeFailure::EncodingFailed, ExchangeCleanup::Nothing),
            Some(b) => if b.bytes > s.max_encoded_bytes {
                failed(ExchangeFailure::EncodingFailed, ExchangeCleanup::Nothing)
            } else if b.bytes > s.max_remaining_input_bytes {
                failed(ExchangeFailure::LimitExceeded, ExchangeCleanup::Nothing)
            } else {
                (ExchangePhase::Opening(b), ExchangeAction::Open)
            },
        },
        (ExchangePhase::Opening(b), ExchangeInput::Opened(ok)) => if ok {
            (ExchangePhase::StartingInterpreter(b), ExchangeAction::StartInterpreter)
        } else {
            failed(ExchangeFailure::ChannelOpenFailed, ExchangeCleanup::TerminateOpen)
        },
        (ExchangePhase::StartingInterpreter(b), ExchangeInput::InterpreterStarted(ok)) => if ok {
            (ExchangePhase::StartingPump(b), ExchangeAction::StartPump)
        } else {
            failed(ExchangeFailure::InterpretationFailed, ExchangeCleanup::Nothing)
        },
        (ExchangePhase::StartingPump(b), ExchangeInput::PumpStarted) => if s.gated {
            (ExchangePhase::AwaitingGate(b), ExchangeAction::AwaitGate)
        } else {
            prompt(b)
        },
        (ExchangePhase::AwaitingGate(b), ExchangeInput::GateOpened) => prompt(b),
        (ExchangePhase::AwaitingGate(_), ExchangeInput::GateFailed) => failed(
            ExchangeFailure::InvariantFailed,
            ExchangeCleanup::TerminatePump,
        ),
        (ExchangePhase::AwaitingGate(_), ExchangeInput::GateTimedOut) => failed(
            ExchangeFailure::ClaimDeadlineExceeded,
            ExchangeCleanup::TerminatePump,
        ),
        (ExchangePhase::SendingBody(b), ExchangeInput::BodySent(ok)) => if ok {
            after_body(b.finish)
        } else {
            failed(ExchangeFailure::ConnectorFailed, ExchangeCleanup::AbortPump)
        },
        (ExchangePhase::FinishingInput, ExchangeInput::InputFinished(ok)) => if ok {
            (ExchangePhase::StartingCollector, ExchangeAction::StartCollector)
        } else {
            failed(ExchangeFailure::ConnectorFailed, ExchangeCleanup::AbortPump)
        },
        (ExchangePhase::StartingCollector, ExchangeInput::CollectorStarted(ok)) => if ok {
            (ExchangePhase::Running, ExchangeAction::AwaitEnds)
        } else {
            failed(ExchangeFailure::ConnectorFailed, ExchangeCleanup::AbortPump)
        },
        (ExchangePhase::Running, ExchangeInput::DeadlineExpired) => failed(
            ExchangeFailure::ConnectorFailed,
            ExchangeCleanup::TerminateAll,
        ),
        (ExchangePhase::Running, ExchangeInput::Ended(c, i)) => (
            ExchangePhase::Joining(reconciled(c, i)),
            ExchangeAction::JoinChildren,
        ),
        (ExchangePhase::Joining(f), ExchangeInput::Joined { exceeded }) => if exceeded {
            failed(ExchangeFailure::LimitExceeded, ExchangeCleanup::Nothing)
        } else {
            (ExchangePhase::Done, ExchangeAction::Finish(f))
        },
        _ => (s.phase, ExchangeAction::Ignore),
    }
}

/// One exchange.
#[derive(Clone, Copy, Debug, PartialEq, Eq, Structural)]
pub struct ExchangeRun {
    /// What it waits for.
    pub phase: ExchangePhase,
    /// Most bytes of the encoded body.
    pub max_encoded_bytes: usize,
    /// Bytes that may still be sent to the provider.
    pub max_remaining_input_bytes: usize,
    /// Whether a gate stands before the prompt.
    pub gated: bool,
}

impl ExchangeRun {
    /// An exchange that waits for its encoded body, with no other bound on it
    /// and no gate before the prompt.
    pub fn new(max_encoded_bytes: usize) -> (r: Self)
        ensures
            r == (ExchangeRun {
                phase: ExchangePhase::Encoding,
                max_encoded_bytes,
                max_remaining_input_bytes: usize::MAX,
                gated: false,
            }),
    {
        Self::within(max_encoded_bytes, usize::MAX, false)
    }

    /// An exchange that waits for its encoded body, within what may still be
    /// sent to the provider.
    pub fn within(
        max_encoded_bytes: usize,
        max_remaining_input_bytes: usize,
        gated: bool,
    ) -> (r: Self)
        ensures
            r == (ExchangeRun {
                phase: ExchangePhase::Encoding,
                max_encoded_bytes,
                max_remaining_input_bytes,
                gated,
            }),
    {
        ExchangeRun {
            phase: ExchangePhase::Encoding,
            max_encoded_bytes,
            max_remaining_input_bytes,
            gated,
        }
    }

    fn fail(&mut self, f: ExchangeFailure, c: ExchangeCleanup) -> (r: ExchangeAction)
        ensures
            *final(self) == (ExchangeRun { phase: final(self).phase, ..*old(self) }),
            (final(self).phase, r) == failed(f, c),
    {
        self.phase = ExchangePhase::Done;
        ExchangeAction::Fail(f, c)
    }

    fn body_done(&mut self, finish: bool) -> (r: ExchangeAction)
        ensures
            *final(self) == (ExchangeRun { phase: final(self).phase, ..*old(self) }),
            (final(self).phase, r) == after_body(finish),
    {
        if finish {
            self.phase = ExchangePhase::FinishingInput;
            ExchangeAction::FinishInput
        } else {
            self.phase = ExchangePhase::StartingCollector;
            ExchangeAction::StartCollector
        }
    }

    fn begin_prompt(&mut self, b: EncodedFacts) -> (r: ExchangeAction)
        ensures
            *final(self) == (ExchangeRun { phase: final(self).phase, ..*old(self) }),
            (final(self).phase, r) == prompt(b),
    {
        if b.bytes > 0 {
            self.phase = ExchangePhase::SendingBody(b);
            ExchangeAction::SendBody
        } else {
            self.body_done(b.finish)
        }
    }

    fn cancel(&mut self) -> (r: ExchangeAction)
        requires
            old(self).phase != ExchangePhase::Done,
        ensures
            *final(self) == (ExchangeRun { phase: final(self).phase, ..*old(self) }),
            (final(self).phase, r) == failed(
                ExchangeFailure::Cancelled,
                stopped_in(old(self).phase),
            ),
    {
        let cleanup = match self.phase {
            ExchangePhase::Encoding | ExchangePhase::Done => ExchangeCleanup::Nothing,
            ExchangePhase::Opening(_) => ExchangeCleanup::TerminateOpen,
            ExchangePhase::StartingInterpreter(_)
            | ExchangePhase::StartingPump(_)
            | ExchangePhase::AwaitingGate(_)
            | ExchangePhase::SendingBody(_)
            | ExchangePhase::FinishingInput
            | ExchangePhase::StartingCollector => ExchangeCleanup::TerminatePump,
            ExchangePhase::Running | ExchangePhase::Joining(_) => ExchangeCleanup::TerminateAll,
        };
        self.fail(ExchangeFailure::Cancelled, cleanup)
    }

    /// One step of the machine.
    pub fn step(&mut self, input: ExchangeInput) -> (r: ExchangeAction)
        ensures
            *final(self) == (ExchangeRun { phase: final(self).phase, ..*old(self) }),
            (final(self).phase, r) == next(*old(self), input),
    {
        match (self.phase, input) {
            (ExchangePhase::Done, ExchangeInput::Cancelled) => ExchangeAction::Ignore,
            (_, ExchangeInput::Cancelled) => self.cancel(),
            (ExchangePhase::Encoding, ExchangeInput::Encoded(body)) => match body {
                None => self.fail(ExchangeFailure::EncodingFailed, ExchangeCleanup::Nothing),
                Some(b) => {
                    if b.bytes > self.max_encoded_bytes {
                        self.fail(ExchangeFailure::EncodingFailed, ExchangeCleanup::Nothing)
                    } else if b.bytes > self.max_remaining_input_bytes {
                        self.fail(ExchangeFailure::LimitExceeded, ExchangeCleanup::Nothing)
                    } else {
                        self.phase = ExchangePhase::Opening(b);
                        ExchangeAction::Open
                    }
                },
            },
            (ExchangePhase::Opening(b), ExchangeInput::Opened(ok)) => {
                if ok {
                    self.phase = ExchangePhase::StartingInterpreter(b);
                    ExchangeAction::StartInterpreter
                } else {
                    self.fail(ExchangeFailure::ChannelOpenFailed, ExchangeCleanup::TerminateOpen)
                }
            },
            (ExchangePhase::StartingInterpreter(b), ExchangeInput::InterpreterStarted(ok)) => {
                if ok {
                    self.phase = ExchangePhase::StartingPump(b);
                    ExchangeAction::StartPump
                } else {
                    self.fail(ExchangeFailure::InterpretationFailed, ExchangeCleanup::Nothing)
                }
            },
            (ExchangePhase::StartingPump(b), ExchangeInput::PumpStarted) => {
                if self.gated {
                    self.phase = ExchangePhase::AwaitingGate(b);
                    ExchangeAction::AwaitGate
                } else {
                    self.begin_prompt(b)
                }
            },
            (ExchangePhase::AwaitingGate(b), ExchangeInput::GateOpened) => self.begin_prompt(b),
            (ExchangePhase::AwaitingGate(_), ExchangeInput::GateFailed) => self.fail(
                ExchangeFailure::InvariantFailed,
                ExchangeCleanup::TerminatePump,
            ),
            (ExchangePhase::AwaitingGate(_), ExchangeInput::GateTimedOut) => self.fail(
                ExchangeFailure::ClaimDeadlineExceeded,
                ExchangeCleanup::TerminatePump,
            ),
            (ExchangePhase::SendingBody(b), ExchangeInput::BodySent(ok)) => {
                if ok {
                    self.body_done(b.finish)
                } else {
                    self.fail(ExchangeFailure::ConnectorFailed, ExchangeCleanup::AbortPump)
                }
            },
            (ExchangePhase::FinishingInput, ExchangeInput::InputFinished(ok)) => {
                if ok {
                    self.phase = ExchangePhase::StartingCollector;
                    ExchangeAction::StartCollector
                } else {
                    self.fail(ExchangeFailure::ConnectorFailed, ExchangeCleanup::AbortPump)
                }
            },
            (ExchangePhase::StartingCollector, ExchangeInput::CollectorStarted(ok)) => {
                if ok {
                    self.phase = ExchangePhase::Running;
                    ExchangeAction::AwaitEnds
                } else {
                    self.fail(ExchangeFailure::ConnectorFailed, ExchangeCleanup::AbortPump)
                }
            },
            (ExchangePhase::Running, ExchangeInput::DeadlineExpired) => self.fail(
                ExchangeFailure::ConnectorFailed,
                ExchangeCleanup::TerminateAll,
            ),
            (ExchangePhase::Running, ExchangeInput::Ended(c, i)) => {
                self.phase = ExchangePhase::Joining(reconcile_terminals(c, i));
                ExchangeAction::JoinChildren
            },
            (ExchangePhase::Joining(f), ExchangeInput::Joined { exceeded }) => {
                if exceeded {
                    self.fail(ExchangeFailure::LimitExceeded, ExchangeCleanup::Nothing)
                } else {
                    self.phase = ExchangePhase::Done;
                    ExchangeAction::Finish(f)
                }
            },
            _ => ExchangeAction::Ignore,
        }
    }
}

/// Time that children get to end.
pub fn join_grace(cleanup_deadline: u128) -> (r: u128)
    ensures
        r == (if cleanup_deadline > MIN_JOIN_GRACE_NANOS {
            cleanup_deadline
        } else {
            MIN_JOIN_GRACE_NANOS
        }),
{
    if cleanup_deadline > MIN_JOIN_GRACE_NANOS {
        cleanup_deadline
    } else {
        MIN_JOIN_GRACE_NANOS
    }
}

/// Terminal kind of a failure.
pub open spec fn failure_kind(f: ExchangeFailure) -> TransactionEndKind {
    match f {
        ExchangeFailure::ChannelOpenFailed => TransactionEndKind::ChannelOpenFailed,
        ExchangeFailure::EncodingFailed => TransactionEndKind::EncodingFailed,
        ExchangeFailure::ConnectorFailed => TransactionEndKind::ConnectorFailed,
        ExchangeFailure::InterpretationFailed => TransactionEndKind::InterpretationFailed,
        ExchangeFailure::Cancelled => TransactionEndKind::Cancelled,
        ExchangeFailure::Terminated => TransactionEndKind::Terminated,
        ExchangeFailure::LimitExceeded => TransactionEndKind::LimitExceeded,
        ExchangeFailure::InvariantFailed => TransactionEndKind::InvariantFailed,
        ExchangeFailure::ClaimDeadlineExceeded => TransactionEndKind::DeadlineExceeded,
    }
}

/// Terminal kind of a failure.
pub fn map_exchange_failure(f: ExchangeFailure) -> (r: TransactionEndKind)
    ensures
        r == failure_kind(f),
{
    match f {
        ExchangeFailure::ChannelOpenFailed => TransactionEndKind::ChannelOpenFailed,
        ExchangeFailure::EncodingFailed => TransactionEndKind::EncodingFailed,
        ExchangeFailure::ConnectorFailed => TransactionEndKind::ConnectorFailed,
        ExchangeFailure::InterpretationFailed => TransactionEndKind::InterpretationFailed,
        ExchangeFailure::Cancelled => TransactionEndKind::Cancelled,
        ExchangeFailure::Terminated => TransactionEndKind::Terminated,
        ExchangeFailure::LimitExceeded => TransactionEndKind::LimitExceeded,
        ExchangeFailure::InvariantFailed => TransactionEndKind::InvariantFailed,
        ExchangeFailure::ClaimDeadlineExceeded => TransactionEndKind::DeadlineExceeded,
    }
}

/// A failed exchange leaves nothing running: a connection that does not open is
/// terminated, once a pump was started it is aborted, and once both ends were
/// awaited the connection is terminated.
pub proof fn failure_cleans_up(s: ExchangeRun, input: ExchangeInput)
    ensures
        next(s, input).1 matches ExchangeAction::Fail(f, c) ==> {
            &&& next(s, input).0 == ExchangePhase::Done
            &&& (s.phase is SendingBody || s.phase is FinishingInput || s.phase
                is StartingCollector) ==> c == ExchangeCleanup::AbortPump || c
                == ExchangeCleanup::TerminatePump
            &&& s.phase is AwaitingGate ==> c == ExchangeCleanup::TerminatePump
            &&& s.phase is Opening ==> c == ExchangeCleanup::TerminateOpen
            &&& s.phase is Running ==> c == ExchangeCleanup::TerminateAll
        },
{
}

/// An exchange that nobody waits for any more stops at once, in whatever phase:
/// from the first attempt to open it on, its connection is terminated, and the
/// children that it has by then are aborted.
pub proof fn cancelled_exchange_is_stopped(s: ExchangeRun)
    requires
        s.phase != ExchangePhase::Done,
    ensures
        next(s, ExchangeInput::Cancelled) == failed(
            ExchangeFailure::Cancelled,
            stopped_in(s.phase),
        ),
        s.phase != ExchangePhase::Encoding ==> stopped_in(s.phase) != ExchangeCleanup::Nothing
            && stopped_in(s.phase) != ExchangeCleanup::AbortPump,
        s.phase is Running || s.phase is Joining ==> stopped_in(s.phase)
            == ExchangeCleanup::TerminateAll,
{
}

/// Whether the body of an exchange is within both of its bounds, once there is
/// one.
pub open spec fn body_fits(s: ExchangeRun) -> bool {
    let fits = |b: EncodedFacts| b.bytes <= s.max_encoded_bytes && b.bytes
        <= s.max_remaining_input_bytes;
    match s.phase {
        ExchangePhase::Opening(b) => fits(b),
        ExchangePhase::StartingInterpreter(b) => fits(b),
        ExchangePhase::StartingPump(b) => fits(b),
        ExchangePhase::AwaitingGate(b) => fits(b),
        ExchangePhase::SendingBody(b) => fits(b),
        _ => true,
    }
}

/// Nothing is sent before connection, interpreter and pump are there, nor
/// before the barrier has opened where there is one, and never more than the bounds
/// allow.
pub proof fn body_is_bounded(s: ExchangeRun, input: ExchangeInput)
    requires
        body_fits(s),
    ensures
        body_fits(ExchangeRun { phase: next(s, input).0, ..s }),
        next(s, input).1 == ExchangeAction::SendBody ==> (if s.gated {
            s.phase is AwaitingGate && input == ExchangeInput::GateOpened
        } else {
            s.phase is StartingPump || s.phase is AwaitingGate
        }),
{
}

/// Bytes of an optional text.
pub open spec fn opt_len(s: Option<String>) -> usize {
    match s {
        Some(t) => utf8_len(t@),
        None => 0,
    }
}

/// Size of a unit for the account of output: its identities, its content and 64 bytes.
pub open spec fn unit_size(u: CanonicalUnitEvent) -> usize {
    let s = u.unit_snapshot();
    let ids = sat_sum(
        sat_sum(
            sat_sum(
                sat_sum(
                    sat_sum(utf8_len(s.unit_id@), utf8_len(s.interpretation_id@)),
                    utf8_len(s.connection_id@),
                ),
                opt_len(s.external_session_id),
            ),
            utf8_len(s.flow_id@),
        ),
        utf8_len(s.lane_id@),
    );
    let content = match s.unit {
        CanonicalUnit::Text(t) => utf8_len(t.content@),
        CanonicalUnit::Structure(t) => utf8_len(t@),
        CanonicalUnit::Paragraph => 16,
        CanonicalUnit::Tool(t) => sat_sum(
            sat_sum(
                sat_sum(opt_len(t.tool_name), opt_len(t.request_payload)),
                opt_len(t.result_payload),
            ),
            utf8_len(t.tool_action_id@),
        ),
        CanonicalUnit::Usage => 32,
        CanonicalUnit::Diagnostic(d) => sat_sum(utf8_len(d@), 16),
        CanonicalUnit::Boundary => 16,
    };
    sat_sum(sat_sum(ids, content), 64)
}

fn opt_bytes(s: &Option<String>) -> (r: usize)
    ensures
        r == opt_len(*s),
{
    match s {
        Some(t) => t.as_str().len(),
        None => 0,
    }
}

/// Size of a unit for the account of output.
pub fn estimate_unit_bytes(unit: &CanonicalUnitEvent) -> (r: usize)
    ensures
        r == unit_size(*unit),
{
    let s = unit.snapshot();
    let mut ids: usize = s.unit_id.as_str().len();
    ids = ids.saturating_add(s.interpretation_id.as_str().len());
    ids = ids.saturating_add(s.connection_id.as_str().len());
    ids = ids.saturating_add(opt_bytes(&s.external_session_id));
    ids = ids.saturating_add(s.flow_id.as_str().len());
    ids = ids.saturating_add(s.lane_id.as_str().len());
    let content: usize = match &s.unit {
        CanonicalUnit::Text(t) => t.content.as_str().len(),
        CanonicalUnit::Structure(t) => t.as_str().len(),
        CanonicalUnit::Paragraph => 16,
        CanonicalUnit::Tool(t) => opt_bytes(&t.tool_name).saturating_add(
            opt_bytes(&t.request_payload),
        ).saturating_add(opt_bytes(&t.result_payload)).saturating_add(
            t.tool_action_id.as_str().len(),
        ),
        CanonicalUnit::Usage => 32,
        CanonicalUnit::Diagnostic(d) => d.as_str().len().saturating_add(16),
        CanonicalUnit::Boundary => 16,
    };
    ids.saturating_add(content).saturating_add(64)
}

/// Sizes of units, added to a size.
pub open spec fn plus_units(start: usize, units: Seq<CanonicalUnitEvent>) -> usize
    decreases units.len(),
{
    if units.len() == 0 {
        start
    } else {
        sat_sum(plus_units(start, units.drop_last()), unit_size(units.last()))
    }
}

/// Sizes of units, added to a size.
pub fn add_unit_bytes(start: usize, units: &Vec<CanonicalUnitEvent>) -> (r: usize)
    ensures
        r == plus_units(start, units@),
{
    let mut total: usize = start;
    let mut i: usize = 0;
    assert(units@.take(0) =~= Seq::<CanonicalUnitEvent>::empty());
    while i < units.len()
        invariant
            i <= units.len(),
            total == plus_units(start, units@.take(i as int)),
        decreases units.len() - i,
    {
        total = total.saturating_add(estimate_unit_bytes(&units[i]));
        proof {
            let t = units@.take(i as int + 1);
            assert(t.drop_last() =~= units@.take(i as int));
        }
        i = i + 1;
    }
    assert(units@.take(i as int) =~= units@);
    total
}

} // verus!
