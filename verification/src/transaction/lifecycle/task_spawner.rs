//! Handing work to the supervisor: what a full, closed or silent mailbox means.

use crate::transaction::lifecycle::task_supervisor::TaskId;
use vstd::prelude::*;

verus! {

/// Why work was not taken over, or is lost.
pub enum SpawnReject<F> {
    /// Mailbox full; the caller still owns the work.
    Busy {
        /// The work.
        future: F,
    },
    /// Mailbox closed; the caller still owns the work.
    Rejected {
        /// The work.
        future: F,
    },
    /// The mailbox took the work but nobody confirmed it. The caller owns
    /// nothing any more and must not run a substitute.
    Orphaned,
}

/// What the mailbox did with the work.
pub enum MailboxAnswer<F> {
    /// It took it; with the id that the supervisor confirmed, if it did.
    Taken(Option<TaskId>),
    /// It is full.
    Full(F),
    /// It is closed.
    Closed(F),
}

/// Bound of the mailbox; 0 counts as 1.
pub fn mailbox_capacity(capacity: usize) -> (r: usize)
    ensures
        r == (if capacity == 0 {
            1
        } else {
            capacity
        }),
{
    if capacity == 0 {
        1
    } else {
        capacity
    }
}

/// Outcome of handing over work.
pub open spec fn spawned<F>(answer: MailboxAnswer<F>) -> Result<TaskId, SpawnReject<F>> {
    match answer {
        MailboxAnswer::Taken(Some(id)) => Ok(id),
        MailboxAnswer::Taken(None) => Err(SpawnReject::Orphaned),
        MailboxAnswer::Full(future) => Err(SpawnReject::Busy { future }),
        MailboxAnswer::Closed(future) => Err(SpawnReject::Rejected { future }),
    }
}

/// Outcome of handing over work.
pub fn spawn_boxed<F>(answer: MailboxAnswer<F>) -> (r: Result<TaskId, SpawnReject<F>>)
    ensures
        r == spawned(answer),
{
    match answer {
        MailboxAnswer::Taken(Some(id)) => Ok(id),
        MailboxAnswer::Taken(None) => Err(SpawnReject::Orphaned),
        MailboxAnswer::Full(future) => Err(SpawnReject::Busy { future }),
        MailboxAnswer::Closed(future) => Err(SpawnReject::Rejected { future }),
    }
}

/// Bounded retries against a full mailbox.
#[derive(Clone, Copy, Debug, PartialEq, Eq, Structural)]
pub struct BusyRetry {
    /// Retries so far.
    pub attempt: u32,
    /// Most retries.
    pub max_retries: u32,
}

/// What comes after an attempt.
pub enum RetryStep<F> {
    /// It is decided.
    Done(Result<TaskId, SpawnReject<F>>),
    /// Wait a little and try again.
    Again(F),
}

impl BusyRetry {
    /// No attempt yet.
    pub fn new(max_retries: u32) -> (r: Self)
        ensures
            r == (BusyRetry { attempt: 0, max_retries }),
    {
        BusyRetry { attempt: 0, max_retries }
    }

    /// Before an attempt: cancelled work is rejected.
    pub fn before_attempt<F>(&self, cancelled: bool, future: F) -> (r: Result<F, SpawnReject<F>>)
        ensures
            r == (if cancelled {
                Err::<F, SpawnReject<F>>(SpawnReject::Rejected { future })
            } else {
                Ok::<F, SpawnReject<F>>(future)
            }),
    {
        if cancelled {
            Err(SpawnReject::Rejected { future })
        } else {
            Ok(future)
        }
    }

    /// After an attempt: only a full mailbox is tried again, and only while
    /// retries are left.
    pub fn after_attempt<F>(&mut self, outcome: Result<TaskId, SpawnReject<F>>) -> (r: RetryStep<F>)
        ensures
            final(self).max_retries == old(self).max_retries,
            match outcome {
                Err(SpawnReject::Busy { future }) => if old(self).attempt
                    >= old(self).max_retries {
                    r == RetryStep::Done(outcome) && final(self).attempt == old(self).attempt
                } else {
                    r == RetryStep::Again(future) && final(self).attempt == old(self).attempt + 1
                },
                _ => r == RetryStep::Done(outcome) && final(self).attempt == old(self).attempt,
            },
    {
        match outcome {
            Err(SpawnReject::Busy { future }) => {
                if self.attempt >= self.max_retries {
                    return RetryStep::Done(Err(SpawnReject::Busy { future }));
                }
                self.attempt = self.attempt + 1;
                RetryStep::Again(future)
            },
            Ok(id) => RetryStep::Done(Ok(id)),
            Err(other) => RetryStep::Done(Err(other)),
        }
    }
}

/// Work comes back to the caller unless the mailbox took it: it is never owned
/// twice and lost only where the supervisor stays silent.
pub proof fn work_has_one_owner<F>(answer: MailboxAnswer<F>)
    ensures
        answer is Taken <==> (spawned(answer) is Ok || spawned(answer)
            == Err::<TaskId, SpawnReject<F>>(SpawnReject::Orphaned)),
        answer matches MailboxAnswer::Full(f) ==> spawned(answer) == Err::<TaskId, SpawnReject<F>>(
            SpawnReject::Busy { future: f },
        ),
        answer matches MailboxAnswer::Closed(f) ==> spawned(answer) == Err::<
            TaskId,
            SpawnReject<F>,
        >(SpawnReject::Rejected { future: f }),
{
}

} // verus!
