//! An earlier generation of the piped executor interface, kept for callers
//! that still use it: the same exit status and executor contract, with the
//! parser of its concrete executor.

use vstd::prelude::*;
use crate::cmdline::{spec_args, spec_program, split_command};
use crate::exec::ExecError;

verus! {

/// Captured integer exit status of a terminated child process.
///
/// A value of this type exists only for a child that terminated and reported
/// a code; a process killed by a signal or never started yields an error
/// instead.
#[derive(Debug, Clone, Copy, PartialEq, Eq, Structural)]
pub struct Exit {
    pub code: i32,
}

impl Exit {
    /// Wrap a reported exit code.
    pub fn new(code: i32) -> (e: Exit)
        ensures
            e.code == code,
    {
        Exit { code }
    }

    /// The reported exit code.
    pub fn code(&self) -> (c: i32)
        ensures
            c == self.code,
    {
        self.code
    }
}

/// An executor of a full command line with captured, forwarded streams.
pub trait PipedCmdExecutor {
    /// Execute the command line and report the child's exit status.
    fn piped_exec(&self, command: &str) -> Result<Exit, ExecError>;
}

/// The concrete executor of this generation.
///
/// Only the command-line parsing lives here; running the child requires an
/// async runtime and is supplied by the embedding program.
pub struct TokioPipedCmdExecutor;

impl TokioPipedCmdExecutor {
    /// Split a command line into the program name and its arguments.
    pub fn parse_command(command: &str) -> (r: (String, Vec<String>))
        ensures
            r.0@ == spec_program(command@),
            r.1.deep_view() == spec_args(command@),
    {
        split_command(command)
    }
}

} // verus!
