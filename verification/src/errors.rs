//! The closed set of failures the dashboard core distinguishes. Failures of
//! outside collaborators (hardware reads, terminal I/O) are reported by the
//! shell around the library and do not occur inside it.

use vstd::prelude::*;

verus! {

/// Why the dashboard stops or rejects an input.
#[derive(Debug, PartialEq, Eq, Structural, Clone, Copy)]
pub enum Error {
    /// The user asked to leave: the normal termination path, not a failure.
    UserExit,
    /// Device enumeration found nothing to show; fatal at startup.
    NoBatteries,
    /// Every event producer is gone, so the main loop can never wake again.
    Channel,
    /// A value offered for a configuration option could not be read.
    ParseError,
}

impl Error {
    /// The human-readable description of this error.
    pub fn message(&self) -> (r: &'static str)
        ensures
            r@ == match *self {
                Error::UserExit => "User-requested exit"@,
                Error::NoBatteries => "Unable to find any batteries installed"@,
                Error::Channel => "Event channel closed"@,
                Error::ParseError => "Unable to parse value"@,
            },
    {
        match *self {
            Error::UserExit => "User-requested exit",
            Error::NoBatteries => "Unable to find any batteries installed",
            Error::Channel => "Event channel closed",
            Error::ParseError => "Unable to parse value",
        }
    }
}

} // verus!
