//! The error kinds that registry and supervisor operations can report.

use vstd::prelude::*;

verus! {

/// What went wrong during a registry or supervisor operation.
///
/// `NotFound` covers an unknown job id or file name; `AlreadyStarted` an
/// attempted rebuild of a job whose child group is or was running;
/// `Inspection` a process-table read failure; `Io` a filesystem or pipe
/// failure; `Spawn` a child that failed to launch; `BadAddress` a bind
/// string with no usable address; `BadRequest` a malformed or over-limit
/// request body.
#[derive(Clone, Copy, Debug, PartialEq, Eq, Structural)]
pub enum Error {
    NotFound,
    AlreadyStarted,
    Inspection,
    Io,
    Spawn,
    BadAddress,
    BadRequest,
}

impl Error {
    /// A short human-readable description of the error kind.
    pub fn message(&self) -> (r: &'static str)
        ensures
            r@ == self.spec_message(),
    {
        match self {
            Error::NotFound => "job id or file not found",
            Error::AlreadyStarted => "job has already been started",
            Error::Inspection => "cannot inspect the process table",
            Error::Io => "filesystem or pipe failure",
            Error::Spawn => "child process failed to launch",
            Error::BadAddress => "no usable bind address",
            Error::BadRequest => "malformed or over-limit request",
        }
    }

    pub open spec fn spec_message(self) -> Seq<char> {
        match self {
            Error::NotFound => "job id or file not found"@,
            Error::AlreadyStarted => "job has already been started"@,
            Error::Inspection => "cannot inspect the process table"@,
            Error::Io => "filesystem or pipe failure"@,
            Error::Spawn => "child process failed to launch"@,
            Error::BadAddress => "no usable bind address"@,
            Error::BadRequest => "malformed or over-limit request"@,
        }
    }
}

} // verus!
