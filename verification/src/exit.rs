//! The exit code reported for a finished child process.

use vstd::prelude::*;

verus! {

/// Offset added to a signal number to form the exit code of a process that
/// a signal terminated.
pub const SIGNAL_EXIT_BASE: i32 = 128;

/// Exit code reported when neither an exit code nor a signal is known.
pub const INDETERMINATE_EXIT: i32 = -1;

/// How a child process ended, as far as the operating system told.
#[derive(Clone, Copy, Debug, PartialEq, Eq, Structural)]
pub struct ProcessExit {
    /// The code the process exited with, if it terminated normally.
    pub code: Option<i32>,
    /// The signal that terminated the process, if one did.
    pub signal: Option<i32>,
}

/// The exit code of a process: its own code if it terminated normally, the
/// signal number above `SIGNAL_EXIT_BASE` if a signal terminated it, and
/// `INDETERMINATE_EXIT` if neither is known.
pub open spec fn exit_code_of(status: ProcessExit) -> int {
    match status.code {
        Some(code) => code as int,
        None => match status.signal {
            Some(signal) => SIGNAL_EXIT_BASE + signal,
            None => INDETERMINATE_EXIT as int,
        },
    }
}

/// Whether the exit code of `status` fits the response's signed 32-bit field.
pub open spec fn exit_code_fits(status: ProcessExit) -> bool {
    i32::MIN <= exit_code_of(status) <= i32::MAX
}

impl ProcessExit {
    /// Whether the exit code of this status fits a signed 32-bit integer: it
    /// does unless a signal number is so large that `SIGNAL_EXIT_BASE` above
    /// it is out of range.
    pub fn fits(&self) -> (fits: bool)
        ensures
            fits == exit_code_fits(*self),
    {
        match (self.code, self.signal) {
            (None, Some(signal)) => signal <= i32::MAX - SIGNAL_EXIT_BASE,
            _ => true,
        }
    }
}

/// Computes the exit code of a finished process.
pub fn exit_code(status: ProcessExit) -> (code: i32)
    requires
        exit_code_fits(status),
    ensures
        code == exit_code_of(status),
{
    match status.code {
        Some(code) => code,
        None => match status.signal {
            Some(signal) => SIGNAL_EXIT_BASE + signal,
            None => INDETERMINATE_EXIT,
        },
    }
}

} // verus!
