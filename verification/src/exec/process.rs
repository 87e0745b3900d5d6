//! The streams of the supervising process itself, as byte sinks, and a stub
//! that collects bytes in memory for tests.

use std::io::Write;
use vstd::prelude::*;
use super::ByteSink;

verus! {

/// A source of sinks for the two standard streams of the supervising
/// process.
pub trait Process {
    type Out: ByteSink;
    type Err: ByteSink;

    /// A sink forwarding to the process's standard output.
    fn stdout(&self) -> Self::Out;

    /// A sink forwarding to the process's standard error.
    fn stderr(&self) -> Self::Err;
}

/// Relies on std::io::stdout and Write::write_all: the chunk is written to
/// the process's standard output stream and flushed.
#[verifier::external_body]
fn forward_to_stdout(chunk: &[u8]) {
    let mut out = std::io::stdout();
    let _ = out.write_all(chunk);
    let _ = out.flush();
}

/// Relies on std::io::stderr and Write::write_all: the chunk is written to
/// the process's standard error stream and flushed.
#[verifier::external_body]
fn forward_to_stderr(chunk: &[u8]) {
    let mut err = std::io::stderr();
    let _ = err.write_all(chunk);
    let _ = err.flush();
}

/// A sink that writes each chunk to the process's real standard output.
pub struct StdoutSink;

impl ByteSink for StdoutSink {
    fn write_chunk(&mut self, chunk: &[u8]) {
        forward_to_stdout(chunk);
    }
}

/// A sink that writes each chunk to the process's real standard error.
pub struct StderrSink;

impl ByteSink for StderrSink {
    fn write_chunk(&mut self, chunk: &[u8]) {
        forward_to_stderr(chunk);
    }
}

/// The real process streams.
pub struct TokioProcess;

impl Process for TokioProcess {
    type Out = StdoutSink;
    type Err = StderrSink;

    fn stdout(&self) -> StdoutSink {
        StdoutSink
    }

    fn stderr(&self) -> StderrSink {
        StderrSink
    }
}

/// An in-memory sink: chunks are appended to the vector, byte for byte.
impl ByteSink for Vec<u8> {
    fn write_chunk(&mut self, chunk: &[u8])
        ensures
            final(self)@ == old(self)@ + chunk@,
    {
        let mut i: usize = 0;
        while i < chunk.len()
            invariant
                i <= chunk@.len(),
                self@ == old(self)@ + chunk@.subrange(0, i as int),
            decreases chunk@.len() - i,
        {
            proof {
                assert(old(self)@ + chunk@.subrange(0, i as int + 1) =~= (old(self)@
                    + chunk@.subrange(0, i as int)).push(chunk@[i as int]));
            }
            self.push(chunk[i]);
            i += 1;
        }
        proof {
            assert(chunk@.subrange(0, chunk@.len() as int) =~= chunk@);
        }
    }
}

/// A process stub whose streams collect into memory, for tests: the sinks it
/// hands out start as copies of the stored vectors.
pub struct StubProcess {
    pub stdout: Vec<u8>,
    pub stderr: Vec<u8>,
}

impl Process for StubProcess {
    type Out = Vec<u8>;
    type Err = Vec<u8>;

    fn stdout(&self) -> (v: Vec<u8>)
        ensures
            v@ == self.stdout@,
    {
        self.stdout.clone()
    }

    fn stderr(&self) -> (v: Vec<u8>)
        ensures
            v@ == self.stderr@,
    {
        self.stderr.clone()
    }
}

} // verus!
