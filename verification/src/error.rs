//! What can go wrong when an actor is called.
use vstd::prelude::*;

verus! {

/// Why a call to an actor gave no result.
#[derive(Debug, Clone, Copy, PartialEq, Eq, Structural)]
pub enum Error {
    /// The actor has ended, or ended before it answered.
    WorkerGone,
    /// The time that the caller allowed was up.
    SendTimeout,
}

pub type Result<T, E = Error> = std::result::Result<T, E>;

impl Error {
    /// The error in words.
    pub fn message(&self) -> (text: &'static str)
        ensures
            text@ == match *self {
                Error::WorkerGone => "worker gone"@,
                Error::SendTimeout => "send timeout"@,
            },
    {
        match self {
            Error::WorkerGone => "worker gone",
            Error::SendTimeout => "send timeout",
        }
    }
}

} // verus!
