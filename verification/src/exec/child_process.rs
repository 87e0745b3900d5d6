//! Spawning of child processes: the command-line parser used when spawning,
//! and stub implementations that replay canned output for tests.

use vstd::prelude::*;
use crate::cmdline::{spec_args, spec_program, split_command};
use super::{ByteSink, ChildProcess, ExecError, SpawnChild, WaitOutcome};

verus! {

/// The spawner of real child processes.
///
/// Only the command-line parsing lives here; actually starting the child
/// and draining its streams require an async runtime and are supplied by
/// the embedding program through [`SpawnChild`].
pub struct TokioCmdExecutor;

impl TokioCmdExecutor {
    /// Split a command line into the program name and its arguments.
    pub fn parse(command: &str) -> (r: (String, Vec<String>))
        ensures
            r.0@ == spec_program(command@),
            r.1.deep_view() == spec_args(command@),
    {
        split_command(command)
    }
}

/// A stub child process that replays canned bytes on both streams and then
/// reports exit code 0. It drives the in-memory byte sinks, so that what an
/// execution forwards can be stated exactly.
pub struct StubChildProcess {
    pub stdout: Vec<u8>,
    pub stderr: Vec<u8>,
}

impl ChildProcess<Vec<u8>, Vec<u8>> for StubChildProcess {
    /// Replaying the canned streams: each sink is extended by exactly the
    /// stored bytes, in order, the stub itself is untouched, and the child
    /// reports exit code 0.
    fn wait_and_forward(&mut self, stdout_sink: &mut Vec<u8>, stderr_sink: &mut Vec<u8>) -> (w:
        WaitOutcome)
        ensures
            final(stdout_sink)@ == old(stdout_sink)@ + old(self).stdout@,
            final(stderr_sink)@ == old(stderr_sink)@ + old(self).stderr@,
            *final(self) == *old(self),
            w == WaitOutcome::Exited(0i32),
    {
        stdout_sink.write_chunk(self.stdout.as_slice());
        stderr_sink.write_chunk(self.stderr.as_slice());
        WaitOutcome::Exited(0)
    }
}

/// A stub spawner whose children replay the given bytes and exit with 0.
pub struct StubCmdExecutor {
    pub child_stdout: Vec<u8>,
    pub child_stderr: Vec<u8>,
}

impl SpawnChild<Vec<u8>, Vec<u8>> for StubCmdExecutor {
    type Child = StubChildProcess;

    /// Spawning always succeeds: the stub child carries exactly the stored
    /// bytes of both streams.
    fn spawn(&self, _program: &str, _args: &Vec<String>) -> (r: Result<
        StubChildProcess,
        ExecError,
    >)
        ensures
            r matches Ok(c) && c.stdout@ == self.child_stdout@ && c.stderr@
                == self.child_stderr@,
    {
        let mut stdout: Vec<u8> = Vec::new();
        stdout.write_chunk(self.child_stdout.as_slice());
        let mut stderr: Vec<u8> = Vec::new();
        stderr.write_chunk(self.child_stderr.as_slice());
        proof {
            assert(stdout@ =~= self.child_stdout@);
            assert(stderr@ =~= self.child_stderr@);
        }
        Ok(StubChildProcess { stdout, stderr })
    }
}

} // verus!
