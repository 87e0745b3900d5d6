//! The interfaces the retry and supervise machinery executes through: a
//! piped command executor and a sleeper, with the real sleeper and the
//! command-line parser of the real executor.

use vstd::prelude::*;
use crate::cmdline::{spec_args, spec_program, split_command};
use crate::exec::ExecError;

verus! {

/// Captured integer exit status of a terminated child process.
///
/// A value of this type exists only for a child that terminated and reported
/// a code; a process killed by a signal or never started yields an error
/// instead.
#[derive(Debug, Clone, Copy, PartialEq, Eq, Structural)]
pub struct Exit {
    pub code: i32,
}

impl Exit {
    /// Wrap a reported exit code.
    pub fn new(code: i32) -> (e: Exit)
        ensures
            e.code == code,
    {
        Exit { code }
    }

    /// The reported exit code.
    pub fn code(&self) -> (c: i32)
        ensures
            c == self.code,
    {
        self.code
    }
}

/// An executor of a full command line whose child streams are captured and
/// forwarded to the corresponding streams of the supervising process.
///
/// Implementations decide how the child is actually run; what comes back is
/// the child's exit status, or the failure that prevented one.
pub trait PipedCmdExecute {
    /// Execute the command line and report the child's exit status.
    fn piped_exec(&self, command: &str) -> Result<Exit, ExecError>;
}

/// A way of suspending the calling flow for a given time.
pub trait Sleep {
    /// Suspend for the given number of milliseconds, then return.
    fn sleep_millis(&self, millis: u64);
}

/// The real piped command executor.
///
/// Only the command-line parsing lives here; running the child and draining
/// its streams concurrently require an async runtime and are supplied by the
/// embedding program through [`PipedCmdExecute`].
pub struct PipedCmdExecutor;

impl PipedCmdExecutor {
    /// Split a command line into the program name and its arguments.
    pub fn parse_command(command: &str) -> (r: (String, Vec<String>))
        ensures
            r.0@ == spec_program(command@),
            r.1.deep_view() == spec_args(command@),
    {
        split_command(command)
    }
}

/// Relies on tokio::time::sleep, run to completion on a freshly built
/// current-thread tokio runtime: returns no earlier than the given number
/// of milliseconds after being called — except that it returns at once in
/// the rare case that the runtime cannot be built. It must be called from
/// outside any async executor: tokio's block_on panics when nested inside
/// one, so this is for synchronous callers only.
#[verifier::external_body]
fn suspend_millis(millis: u64) {
    let runtime = tokio::runtime::Builder::new_current_thread().enable_time().build();
    if let Result::Ok(runtime) = runtime {
        let guard = runtime.enter();
        let sleep = tokio::time::sleep(std::time::Duration::from_millis(millis));
        drop(guard);
        runtime.block_on(sleep);
    }
}

/// The real sleeper: suspends the calling thread.
pub struct Sleeper;

impl Sleep for Sleeper {
    fn sleep_millis(&self, millis: u64) {
        suspend_millis(millis);
    }
}

} // verus!
