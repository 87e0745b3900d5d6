//! The composable components the retry and supervise machines are built
//! from: a command executor, a decorator that reports a failed command, a
//! sleeper, and the shared parameter bundle that converts between the
//! executing and the sleeping shape.

use std::io::Write;
use vstd::prelude::*;
use crate::cmdline::{spec_program, split_command};
use crate::exec::ExecError;
use crate::io::{Exit, PipedCmdExecute, Sleep};

verus! {

/// A capability wrapper: a single operation producing a typed result, used
/// to compose cross-cutting behaviour around the command executor.
pub trait Component {
    type Output;

    /// Perform the component's one operation.
    fn handle(&self) -> Self::Output;
}

/// The component that executes the stored command line through the stored
/// executor.
pub struct CmdExecutor<'a, Ex> {
    pub command: String,
    pub executor: &'a Ex,
}

impl<'a, Ex> CmdExecutor<'a, Ex> {
    /// Bundle a command line with the executor that will run it.
    pub fn new(command: String, executor: &'a Ex) -> (c: Self)
        ensures
            c.command == command,
            c.executor == executor,
    {
        CmdExecutor { command, executor }
    }
}

impl<'a, Ex: PipedCmdExecute> Component for CmdExecutor<'a, Ex> {
    type Output = Result<Exit, ExecError>;

    fn handle(&self) -> Result<Exit, ExecError> {
        self.executor.piped_exec(self.command.as_str())
    }
}

/// The diagnostic line owed when the command `s` fails: a fixed notice for
/// an empty command line, and otherwise the first token of the command,
/// quoted.
pub open spec fn spec_not_found_line(s: Seq<char>) -> Seq<char> {
    if s.len() == 0 {
        "cx: no command entered"@
    } else {
        "cx: command not found '"@ + spec_program(s) + "'"@
    }
}

/// The diagnostic line for a failed command.
pub fn not_found_line(command: &str) -> (line: String)
    ensures
        line@ == spec_not_found_line(command@),
{
    if command.unicode_len() == 0 {
        "cx: no command entered".to_owned()
    } else {
        let (program, _args) = split_command(command);
        let mut line = "cx: command not found '".to_owned();
        line.append(program.as_str());
        line.append("'");
        line
    }
}

/// Relies on std::io::stderr and the writeln macro: the line is printed to
/// the standard error stream, followed by a newline.
#[verifier::external_body]
fn emit_diagnostic(line: &String) {
    let mut err = std::io::stderr();
    let _ = writeln!(err, "{}", line.as_str());
}

/// Observe the outcome of a delegated call: if and only if it is an error,
/// print the not-found diagnostic for `command` to the error stream. The
/// outcome itself is handed back unchanged — never swallowed or altered —
/// and nothing is written when it is a success.
pub fn observe_outcome<T>(command: &str, result: Result<T, ExecError>) -> (r: Result<
    T,
    ExecError,
>)
    ensures
        r == result,
{
    if result.is_err() {
        let line = not_found_line(command);
        emit_diagnostic(&line);
    }
    result
}

/// A decorator that delegates to the wrapped component and, if and only if
/// the delegated call failed, prints the not-found diagnostic for the stored
/// command to the error stream. The wrapped component's result is handed
/// back unchanged: the body is one delegated call observed by
/// [`observe_outcome`], whose contract states the pass-through.
pub struct PrintableCmdNotFound<C> {
    pub command: String,
    pub inner: C,
}

impl<C> PrintableCmdNotFound<C> {
    /// Wrap a component, remembering the command line its diagnostic is
    /// about.
    pub fn new(command: String, inner: C) -> (d: Self)
        ensures
            d.command == command,
            d.inner == inner,
    {
        PrintableCmdNotFound { command, inner }
    }
}

impl<T, C: Component<Output = Result<T, ExecError>>> Component for PrintableCmdNotFound<C> {
    type Output = Result<T, ExecError>;

    /// What comes back is an outcome the wrapped component itself could
    /// have produced: the delegated result is handed back unchanged, as
    /// [`observe_outcome`]'s contract states.
    fn handle(&self) -> (out: Result<T, ExecError>)
        ensures
            call_ensures(C::handle, (&self.inner,), out),
    {
        observe_outcome(self.command.as_str(), self.inner.handle())
    }
}

/// The component that sleeps out the interval between attempts.
pub struct WaitSec<'a, Sl> {
    pub millis: u64,
    pub sleeper: &'a Sl,
}

impl<'a, Sl: Sleep> Component for WaitSec<'a, Sl> {
    type Output = ();

    fn handle(&self) {
        self.sleeper.sleep_millis(self.millis);
    }
}

/// The parameters shared by every state of a machine — the command line,
/// the interval in milliseconds, and the executor and sleeper dependencies —
/// together with the component of the currently live state.
pub struct SharedParams<'a, Ex, Sl, C> {
    pub command: String,
    pub interval_millis: u64,
    pub executor: &'a Ex,
    pub sleeper: &'a Sl,
    pub inner: C,
}

impl<'a, Ex, Sl, C> SharedParams<'a, Ex, Sl, C> {
    /// Bundle the shared parameters with the live component.
    pub fn new(
        command: String,
        interval_millis: u64,
        executor: &'a Ex,
        sleeper: &'a Sl,
        inner: C,
    ) -> (p: Self)
        ensures
            p.command == command,
            p.interval_millis == interval_millis,
            p.executor == executor,
            p.sleeper == sleeper,
            p.inner == inner,
    {
        SharedParams { command, interval_millis, executor, sleeper, inner }
    }
}

impl<'a, Ex, Sl, C: Component> Component for SharedParams<'a, Ex, Sl, C> {
    type Output = C::Output;

    /// What comes back is an outcome the inner component itself could have
    /// produced: the bundle only delegates.
    fn handle(&self) -> (out: C::Output)
        ensures
            call_ensures(C::handle, (&self.inner,), out),
    {
        self.inner.handle()
    }
}

/// The executing shape: the shared parameters around the decorated executor.
pub type ExecutingParams<'a, Ex, Sl> = SharedParams<
    'a,
    Ex,
    Sl,
    PrintableCmdNotFound<CmdExecutor<'a, Ex>>,
>;

/// The sleeping shape: the shared parameters around the sleep component.
pub type SleepingParams<'a, Ex, Sl> = SharedParams<'a, Ex, Sl, WaitSec<'a, Sl>>;

impl<'a, Ex, Sl> SharedParams<'a, Ex, Sl, PrintableCmdNotFound<CmdExecutor<'a, Ex>>> {
    /// An executing shape is well formed when its components carry the same
    /// command and executor as the bundle itself.
    pub open spec fn wf(&self) -> bool {
        &&& self.inner.command == self.command
        &&& self.inner.inner.command == self.command
        &&& self.inner.inner.executor == self.executor
    }

    /// The sleeping shape this bundle converts to: everything shared is
    /// kept, and the sleep duration is derived from the stored interval.
    pub open spec fn spec_into_sleeping(self) -> SleepingParams<'a, Ex, Sl> {
        SharedParams {
            command: self.command,
            interval_millis: self.interval_millis,
            executor: self.executor,
            sleeper: self.sleeper,
            inner: WaitSec { millis: self.interval_millis, sleeper: self.sleeper },
        }
    }

    /// Convert to the sleeping shape.
    pub fn into_sleeping(self) -> (s: SleepingParams<'a, Ex, Sl>)
        ensures
            s == self.spec_into_sleeping(),
    {
        let SharedParams { command, interval_millis, executor, sleeper, inner: _ } = self;
        SharedParams {
            command,
            interval_millis,
            executor,
            sleeper,
            inner: WaitSec { millis: interval_millis, sleeper },
        }
    }
}

impl<'a, Ex, Sl> SharedParams<'a, Ex, Sl, WaitSec<'a, Sl>> {
    /// A sleeping shape is well formed when its sleep component carries the
    /// stored interval and sleeper.
    pub open spec fn wf(&self) -> bool {
        &&& self.inner.millis == self.interval_millis
        &&& self.inner.sleeper == self.sleeper
    }

    /// The executing shape this bundle converts to: everything shared is
    /// kept, and a fresh decorated executor is rebuilt from the stored
    /// command and executor.
    pub open spec fn spec_into_executing(self) -> ExecutingParams<'a, Ex, Sl> {
        SharedParams {
            command: self.command,
            interval_millis: self.interval_millis,
            executor: self.executor,
            sleeper: self.sleeper,
            inner: PrintableCmdNotFound {
                command: self.command,
                inner: CmdExecutor { command: self.command, executor: self.executor },
            },
        }
    }

    /// Convert to the executing shape.
    pub fn into_executing(self) -> (e: ExecutingParams<'a, Ex, Sl>)
        ensures
            e == self.spec_into_executing(),
    {
        let SharedParams { command, interval_millis, executor, sleeper, inner: _ } = self;
        let decorator_command = command.clone();
        let executor_command = command.clone();
        SharedParams {
            command,
            interval_millis,
            executor,
            sleeper,
            inner: PrintableCmdNotFound {
                command: decorator_command,
                inner: CmdExecutor { command: executor_command, executor },
            },
        }
    }
}

/// Law: converting an executing-shaped parameter bundle to the sleeping
/// shape and back preserves the command string, the interval, and the
/// executor and sleeper dependencies; a well-formed bundle comes back
/// exactly as it was, nothing lost and nothing invented, the sleep duration
/// alone being re-derived from the stored interval on the way.
pub proof fn lemma_executing_round_trip<'a, Ex, Sl>(p: ExecutingParams<'a, Ex, Sl>)
    ensures
        p.spec_into_sleeping().spec_into_executing().command == p.command,
        p.spec_into_sleeping().spec_into_executing().interval_millis == p.interval_millis,
        p.spec_into_sleeping().spec_into_executing().executor == p.executor,
        p.spec_into_sleeping().spec_into_executing().sleeper == p.sleeper,
        p.spec_into_sleeping().wf(),
        p.wf() ==> p.spec_into_sleeping().spec_into_executing() == p,
{
}

/// Law: the conversion is bidirectional — a well-formed sleeping bundle
/// converted to the executing shape and back comes back exactly as it was.
pub proof fn lemma_sleeping_round_trip<'a, Ex, Sl>(p: SleepingParams<'a, Ex, Sl>)
    ensures
        p.spec_into_executing().spec_into_sleeping().command == p.command,
        p.spec_into_executing().spec_into_sleeping().interval_millis == p.interval_millis,
        p.spec_into_executing().spec_into_sleeping().executor == p.executor,
        p.spec_into_executing().spec_into_sleeping().sleeper == p.sleeper,
        p.spec_into_executing().wf(),
        p.wf() ==> p.spec_into_executing().spec_into_sleeping() == p,
{
}

} // verus!
