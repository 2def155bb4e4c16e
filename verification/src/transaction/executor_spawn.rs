//! Starting work on an executor: work is accepted only once it has started.

use vstd::prelude::*;

verus! {

/// Time that work gets to start: 5 s.
pub const START_BUDGET_NANOS: u128 = 5_000_000_000;

/// Gate that is open until shutdown.
#[derive(Clone, Copy, Debug, PartialEq, Eq, Structural)]
pub struct SpawnGate {
    /// Whether new work may be started.
    pub accepts: bool,
}

impl SpawnGate {
    /// An open gate.
    pub fn open() -> (r: Self)
        ensures
            r.accepts,
    {
        SpawnGate { accepts: true }
    }

    /// Close it.
    pub fn close(&mut self)
        ensures
            !final(self).accepts,
    {
        self.accepts = false;
    }

    /// Whether new work may be started.
    pub fn is_open(&self) -> (r: bool)
        ensures
            r == self.accepts,
    {
        self.accepts
    }
}

/// What was seen of work right after it was handed to the executor.
#[derive(Clone, Copy, Debug, PartialEq, Eq, Structural)]
pub struct HandedOver {
    /// Whether the executor took it without panicking.
    pub taken: bool,
    /// Whether its task is finished.
    pub finished: bool,
    /// Whether it was polled.
    pub started: bool,
    /// Whether the caller runs on a single-threaded executor.
    pub on_current_thread: bool,
}

/// What becomes of the work.
#[derive(Clone, Copy, Debug, PartialEq, Eq, Structural)]
pub enum SpawnVerdict {
    /// Refused.
    Refused,
    /// Abort it; refused.
    Abort,
    /// Accepted.
    Accepted,
    /// Wait for its start.
    Confirm,
}

/// Whether work may be handed to the executor at all.
pub fn try_spawn(gate: &SpawnGate) -> (r: bool)
    ensures
        r == gate.accepts,
{
    gate.is_open()
}

/// What becomes of work that was handed over; the barrier is looked at again.
pub fn handed_over(gate: &SpawnGate, seen: HandedOver) -> (r: SpawnVerdict)
    ensures
        r == (if !seen.taken {
            SpawnVerdict::Refused
        } else if !gate.accepts {
            SpawnVerdict::Abort
        } else if seen.finished && !seen.started {
            SpawnVerdict::Refused
        } else if seen.on_current_thread {
            SpawnVerdict::Accepted
        } else {
            SpawnVerdict::Confirm
        }),
{
    if !seen.taken {
        SpawnVerdict::Refused
    } else if !gate.is_open() {
        SpawnVerdict::Abort
    } else if seen.finished && !seen.started {
        SpawnVerdict::Refused
    } else if seen.on_current_thread {
        SpawnVerdict::Accepted
    } else {
        SpawnVerdict::Confirm
    }
}

/// What becomes of work whose start is waited for. Work that has started is
/// accepted whatever the barrier does meanwhile.
pub fn confirm_started(started: bool, finished: bool, elapsed: u128) -> (r: SpawnVerdict)
    ensures
        r == (if started {
            SpawnVerdict::Accepted
        } else if finished {
            SpawnVerdict::Refused
        } else if elapsed >= START_BUDGET_NANOS {
            SpawnVerdict::Abort
        } else {
            SpawnVerdict::Confirm
        }),
{
    if started {
        SpawnVerdict::Accepted
    } else if finished {
        SpawnVerdict::Refused
    } else if elapsed >= START_BUDGET_NANOS {
        SpawnVerdict::Abort
    } else {
        SpawnVerdict::Confirm
    }
}

} // verus!
