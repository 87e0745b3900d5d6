//! Command execution: exit statuses, the error kinds of a failed execution,
//! the traits through which child processes are spawned and their output is
//! forwarded, and the generic piped executor driver.
//!
//! The driver itself is verified; the actual spawning and the concurrent
//! draining of the child's streams are supplied by implementations of
//! [`SpawnChild`] and [`ChildProcess`], which live outside the verified core
//! (a real one backed by an async runtime, or a stub for tests).

pub mod child_process;
pub mod process;

use vstd::prelude::*;

verus! {

/// Captured integer exit status of a terminated child process.
///
/// A value of this type exists only for a child that terminated and reported
/// a code; a process killed by a signal or never started yields an error
/// instead.
#[derive(Debug, Clone, Copy, PartialEq, Eq, Structural)]
pub struct Exit {
    pub code: i32,
}

impl Exit {
    /// Wrap a reported exit code.
    pub fn new(code: i32) -> (e: Exit)
        ensures
            e.code == code,
    {
        Exit { code }
    }

    /// The reported exit code.
    pub fn code(&self) -> (c: i32)
        ensures
            c == self.code,
    {
        self.code
    }
}

/// The ways a command execution can fail without producing an [`Exit`].
///
/// All three are handled identically by the retry and supervise logic: the
/// attempt did not succeed.
#[derive(Debug, Clone, Copy, PartialEq, Eq, Structural)]
pub enum ExecError {
    /// The program could not be started: not found or not executable.
    SpawnFailure,
    /// The child's standard output or standard error handle was unavailable.
    StreamAcquisitionFailure,
    /// The child terminated without a reportable exit code, e.g. killed by a
    /// signal.
    AbnormalTermination,
}

/// What waiting on a spawned child, while forwarding its streams, can yield.
#[derive(Debug, Clone, Copy, PartialEq, Eq, Structural)]
pub enum WaitOutcome {
    /// The child terminated and reported this exit code.
    Exited(i32),
    /// The child terminated without a reportable exit code.
    NoExitCode,
    /// The child's standard output handle could not be acquired.
    NoStdout,
    /// The child's standard error handle could not be acquired.
    NoStderr,
}

/// A sink for chunks of bytes forwarded from a child's stream.
pub trait ByteSink {
    /// Accept the next chunk of bytes, in order.
    fn write_chunk(&mut self, chunk: &[u8]);
}

/// A spawned child process whose captured standard streams are still to be
/// drained.
pub trait ChildProcess<O: ByteSink, E: ByteSink> {
    /// Wait until the child has exited, its standard output is fully
    /// forwarded to `stdout_sink`, and its standard error is fully forwarded
    /// to `stderr_sink` — all three together, so that a child blocked on a
    /// full pipe is still drained while being awaited.
    fn wait_and_forward(&mut self, stdout_sink: &mut O, stderr_sink: &mut E) -> WaitOutcome;
}

/// A way of spawning a program with captured standard streams.
pub trait SpawnChild<O: ByteSink, E: ByteSink> {
    type Child: ChildProcess<O, E>;

    /// Spawn `program` with the given arguments, its standard output and
    /// standard error captured. Fails when the program cannot be started.
    fn spawn(&self, program: &str, args: &Vec<String>) -> Result<Self::Child, ExecError>;
}

/// An executor of a full command line with captured, forwarded streams.
pub trait PipedCmdExecutor {
    /// Execute the command line and report the child's exit status.
    fn piped_exec(&self, command: &str) -> Result<Exit, ExecError>;
}

/// The result owed for each possible outcome of waiting on a child.
pub open spec fn spec_exit_of_wait(w: WaitOutcome) -> Result<Exit, ExecError> {
    match w {
        WaitOutcome::Exited(code) => Ok(Exit { code }),
        WaitOutcome::NoExitCode => Err(ExecError::AbnormalTermination),
        WaitOutcome::NoStdout => Err(ExecError::StreamAcquisitionFailure),
        WaitOutcome::NoStderr => Err(ExecError::StreamAcquisitionFailure),
    }
}

/// The result owed for a whole execution: a spawn failure when the child
/// could not be started, and otherwise whatever the wait outcome dictates.
pub open spec fn spec_piped_result(spawned: bool, w: WaitOutcome) -> Result<Exit, ExecError> {
    if spawned {
        spec_exit_of_wait(w)
    } else {
        Err(ExecError::SpawnFailure)
    }
}

/// Turn the outcome of waiting on a child into the executor's result.
pub fn exit_of_wait(w: WaitOutcome) -> (r: Result<Exit, ExecError>)
    ensures
        r == spec_exit_of_wait(w),
{
    match w {
        WaitOutcome::Exited(code) => Ok(Exit::new(code)),
        WaitOutcome::NoExitCode => Err(ExecError::AbnormalTermination),
        WaitOutcome::NoStdout => Err(ExecError::StreamAcquisitionFailure),
        WaitOutcome::NoStderr => Err(ExecError::StreamAcquisitionFailure),
    }
}

/// Execute a command line: split it into program and arguments, spawn the
/// child through `spawner` with captured streams, forward both streams to
/// the given sinks while awaiting the exit, and map what happened to the
/// executor's result.
///
/// Every result is the documented image of a spawn attempt and a wait
/// outcome; which one occurred depends on the environment alone.
pub fn piped_exec<O, E, Sp>(
    spawner: &Sp,
    stdout_sink: &mut O,
    stderr_sink: &mut E,
    command: &str,
) -> (r: Result<Exit, ExecError>)
    where
        O: ByteSink,
        E: ByteSink,
        Sp: SpawnChild<O, E>,
    ensures
        exists|spawned: bool, w: WaitOutcome| r == #[trigger] spec_piped_result(spawned, w),
{
    let (program, args) = crate::cmdline::split_command(command);
    match spawner.spawn(program.as_str(), &args) {
        Result::Err(_) => {
            proof {
                assert(Err::<Exit, ExecError>(ExecError::SpawnFailure) == spec_piped_result(
                    false,
                    WaitOutcome::NoExitCode,
                ));
            }
            Err(ExecError::SpawnFailure)
        },
        Result::Ok(mut child) => {
            let outcome = child.wait_and_forward(stdout_sink, stderr_sink);
            let r = exit_of_wait(outcome);
            proof {
                assert(r == spec_piped_result(true, outcome));
            }
            r
        },
    }
}

} // verus!
