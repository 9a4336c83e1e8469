//! What a wait on the traced process reports, and how trace requests fail.
use vstd::prelude::*;

verus! {

/// The state of the traced process after a wait.
#[derive(Clone, Copy, Debug, PartialEq, Eq, Structural)]
pub enum Status {
    /// Stopped by a signal (its number), at the given instruction pointer.
    Stopped(i32, usize),
    /// Exited normally with the given exit code.
    Exited(i32),
    /// Terminated by the given signal.
    Signaled(i32),
}

/// A failed trace request.
#[derive(Clone, Copy, Debug, PartialEq, Eq, Structural)]
pub enum TraceError {
    /// The process is gone (`ESRCH`): stale, and never a hard failure.
    NoSuchProcess,
    /// Any other operating-system error, by its number.
    Os(i32),
}

/// Signal number of `SIGTRAP`, the signal a trap instruction raises.
pub const SIGTRAP: i32 = 5;

/// Error number of `ESRCH` ("no such process").
pub const ESRCH: i32 = 3;

impl Status {
    /// Whether the process is gone: it exited or was killed by a signal.
    pub open spec fn is_terminal(self) -> bool {
        self is Exited || self is Signaled
    }

    pub fn terminal(&self) -> (r: bool)
        ensures
            r == self.is_terminal(),
    {
        match self {
            Status::Stopped(_, _) => false,
            _ => true,
        }
    }
}

/// Whether a freshly started process reported what a traced start must
/// report first: a stop by `SIGTRAP`.
pub fn is_initial_trap(r: &Result<Status, TraceError>) -> (b: bool)
    ensures
        b == (r matches Ok(Status::Stopped(sig, _)) && sig == SIGTRAP),
{
    match r {
        Ok(Status::Stopped(sig, _)) => *sig == SIGTRAP,
        _ => false,
    }
}

/// The result of killing the traced process, from the error number of the
/// kill request (`None` when it succeeded). A process that is already gone
/// counts as killed.
pub fn kill_result(errno: Option<i32>) -> (r: Result<Status, TraceError>)
    ensures
        match errno {
            None => r == Ok::<Status, TraceError>(Status::Exited(0)),
            Some(e) => if e == ESRCH {
                r == Ok::<Status, TraceError>(Status::Exited(0))
            } else {
                r == Err::<Status, TraceError>(TraceError::Os(e))
            },
        },
{
    match errno {
        None => Ok(Status::Exited(0)),
        Some(e) => match TraceError::from_errno(e) {
            TraceError::NoSuchProcess => Ok(Status::Exited(0)),
            other => Err(other),
        },
    }
}

impl TraceError {
    /// Classifies an operating-system error number.
    pub fn from_errno(errno: i32) -> (r: TraceError)
        ensures
            errno == ESRCH ==> r == TraceError::NoSuchProcess,
            errno != ESRCH ==> r == TraceError::Os(errno),
    {
        if errno == ESRCH {
            TraceError::NoSuchProcess
        } else {
            TraceError::Os(errno)
        }
    }
}

} // verus!
