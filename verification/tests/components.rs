use std::cell::Cell;

use cx::app::components::{
    CmdExecutor, Component, PrintableCmdNotFound, SharedParams, WaitSec, not_found_line,
    observe_outcome,
};
use cx::exec::ExecError;
use cx::io::{Exit, PipedCmdExecute, Sleep};

struct AlwaysFails;

impl PipedCmdExecute for AlwaysFails {
    fn piped_exec(&self, _command: &str) -> Result<Exit, ExecError> {
        Err(ExecError::SpawnFailure)
    }
}

struct NeverSleeps;

impl Sleep for NeverSleeps {
    fn sleep_millis(&self, _millis: u64) {}
}

struct ExitsWithSeven;

impl PipedCmdExecute for ExitsWithSeven {
    fn piped_exec(&self, _command: &str) -> Result<Exit, ExecError> {
        Ok(Exit::new(7))
    }
}

struct RecordingSleep {
    millis: Cell<u64>,
}

impl Sleep for RecordingSleep {
    fn sleep_millis(&self, millis: u64) {
        self.millis.set(millis);
    }
}

#[test]
fn not_found_line_for_empty_command() {
    assert_eq!(not_found_line(""), "cx: no command entered");
}

#[test]
fn not_found_line_quotes_first_token() {
    assert_eq!(not_found_line("dummy arg"), "cx: command not found 'dummy'");
}

#[test]
fn not_found_line_of_single_token() {
    assert_eq!(not_found_line("dummy"), "cx: command not found 'dummy'");
}

#[test]
fn observing_an_error_hands_it_back_unchanged() {
    let observed: Result<i32, ExecError> = observe_outcome("", Err(ExecError::SpawnFailure));
    assert_eq!(observed, Err(ExecError::SpawnFailure));
}

#[test]
fn observing_a_success_hands_it_back_unchanged() {
    let observed: Result<i32, ExecError> = observe_outcome("dummy", Ok(9));
    assert_eq!(observed, Ok(9));
}

#[test]
fn decorator_returns_failure_unchanged() {
    let executor = AlwaysFails;
    let decorated = PrintableCmdNotFound::new(
        String::new(),
        CmdExecutor::new(String::new(), &executor),
    );
    assert_eq!(decorated.handle(), Err(ExecError::SpawnFailure));
}

#[test]
fn decorator_returns_success_unchanged() {
    let executor = ExitsWithSeven;
    let decorated = PrintableCmdNotFound::new(
        "dummy".to_string(),
        CmdExecutor::new("dummy".to_string(), &executor),
    );
    assert_eq!(decorated.handle(), Ok(Exit::new(7)));
}

#[test]
fn wait_component_passes_interval_to_sleeper() {
    let sleeper = RecordingSleep { millis: Cell::new(0) };
    let wait = WaitSec { millis: 250, sleeper: &sleeper };
    wait.handle();
    assert_eq!(sleeper.millis.get(), 250);
}

fn executing_bundle<'a>(
    executor: &'a AlwaysFails,
    sleeper: &'a NeverSleeps,
) -> SharedParams<'a, AlwaysFails, NeverSleeps, PrintableCmdNotFound<CmdExecutor<'a, AlwaysFails>>> {
    SharedParams::new(
        "echo a b".to_string(),
        700,
        executor,
        sleeper,
        PrintableCmdNotFound::new(
            "echo a b".to_string(),
            CmdExecutor::new("echo a b".to_string(), executor),
        ),
    )
}

#[test]
fn conversion_to_sleeping_keeps_the_shared_parameters() {
    let executor = AlwaysFails;
    let sleeper = NeverSleeps;
    let sleeping = executing_bundle(&executor, &sleeper).into_sleeping();
    assert_eq!(sleeping.command, "echo a b");
    assert_eq!(sleeping.interval_millis, 700);
    assert_eq!(sleeping.inner.millis, 700);
    assert!(std::ptr::eq(sleeping.executor, &executor));
    assert!(std::ptr::eq(sleeping.sleeper, &sleeper));
    assert!(std::ptr::eq(sleeping.inner.sleeper, &sleeper));
}

#[test]
fn round_trip_preserves_command_interval_and_dependencies() {
    let executor = AlwaysFails;
    let sleeper = NeverSleeps;
    let back = executing_bundle(&executor, &sleeper).into_sleeping().into_executing();
    assert_eq!(back.command, "echo a b");
    assert_eq!(back.interval_millis, 700);
    assert_eq!(back.inner.command, "echo a b");
    assert_eq!(back.inner.inner.command, "echo a b");
    assert!(std::ptr::eq(back.executor, &executor));
    assert!(std::ptr::eq(back.sleeper, &sleeper));
    assert!(std::ptr::eq(back.inner.inner.executor, &executor));
}
