//! A command-line process supervisor core.
//!
//! Two operating modes are built from the same pieces: *retry* re-runs a
//! command until it exits successfully or a retry budget is exhausted, and
//! *supervise* re-runs a command a fixed or unbounded number of times
//! regardless of its exit status, separated by a fixed interval.
//!
//! The verified core holds the state-machine step contracts, the retry and
//! supervise transition logic with their laws, the command-line tokenizer,
//! and the composition of executor, diagnostic and sleep components.
//! Process spawning and stream plumbing are supplied by implementations of
//! the spawn/sink traits; the driving loop is one match per step and lives
//! with the embedding program, since an unbounded run never terminates.

pub mod app;
pub mod cmdline;
pub mod exec;
pub mod exec2;
pub mod io;
