//! Why a command was turned down.

use vstd::prelude::*;

verus! {

/// The ways a command can fail. Each is handed back to the caller of the
/// command; nothing is retried here.
#[derive(Clone, Copy, Debug, PartialEq, Eq, Structural)]
pub enum CommandError {
    /// The command needs a display surface and the host has none.
    SurfaceNotFound,
    /// The destination text does not parse as an absolute URL.
    InvalidDestination,
    /// The display host could not do what it was asked to.
    DelegationFailure,
}

impl CommandError {
    /// A short message for logs and for the caller.
    pub fn message(&self) -> (text: &'static str)
        ensures
            text@ == match *self {
                CommandError::SurfaceNotFound => "no display surface exists"@,
                CommandError::InvalidDestination => "invalid URL provided"@,
                CommandError::DelegationFailure => "the display host failed"@,
            },
    {
        match self {
            CommandError::SurfaceNotFound => "no display surface exists",
            CommandError::InvalidDestination => "invalid URL provided",
            CommandError::DelegationFailure => "the display host failed",
        }
    }
}

} // verus!
