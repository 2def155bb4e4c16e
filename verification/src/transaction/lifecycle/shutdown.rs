//! Shutdown tickets.

use vstd::prelude::*;

verus! {

/// Ticket of a shutdown; everyone who asks for the same shutdown gets the same one.
#[derive(Clone, Copy, Debug, PartialEq, Eq, Structural)]
pub struct ShutdownTicket {
    /// Shutdown generation shared by concurrent waiters.
    pub generation: u64,
}

impl ShutdownTicket {
    /// Shutdown generation id.
    pub fn generation(&self) -> (r: u64)
        ensures
            r == self.generation,
    {
        self.generation
    }
}

} // verus!
