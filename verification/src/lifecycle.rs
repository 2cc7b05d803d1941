//! How a process of the service ends, and with which exit status.

use vstd::prelude::*;

verus! {

/// The ways in which a process of the service ends.
#[derive(Clone, Copy, Debug, PartialEq, Eq, Structural)]
pub enum Termination {
    /// The required configuration was missing. No listener was bound.
    MissingConfiguration,
    /// The serve loop returned after a drained shutdown.
    CleanShutdown,
    /// The serve loop returned with a fault of its own. The fault is logged as
    /// a warning and, by decision, does not change the exit status.
    ServeFailed,
}

impl Termination {
    /// The exit status of a process that ends this way.
    pub open spec fn exit_code_of(self) -> u8 {
        match self {
            Termination::MissingConfiguration => 1,
            Termination::CleanShutdown => 0,
            Termination::ServeFailed => 0,
        }
    }

    /// The exit status of a process that ends this way.
    pub fn exit_code(self) -> (code: u8)
        ensures
            code == self.exit_code_of(),
    {
        match self {
            Termination::MissingConfiguration => 1,
            Termination::CleanShutdown => 0,
            Termination::ServeFailed => 0,
        }
    }
}

} // verus!
