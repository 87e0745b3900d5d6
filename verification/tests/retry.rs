use std::cell::Cell;

use cx::app::components::{SharedParams, WaitSec};
use cx::app::retry::{RetryApp, RetryResult};
use cx::app::{State, StateMachine, Transition};
use cx::exec::ExecError;
use cx::io::{Exit, PipedCmdExecute, Sleep};

struct ScriptedExec {
    codes: Vec<Result<i32, ExecError>>,
    calls: Cell<usize>,
}

impl ScriptedExec {
    fn new(codes: Vec<Result<i32, ExecError>>) -> ScriptedExec {
        ScriptedExec { codes, calls: Cell::new(0) }
    }
}

impl PipedCmdExecute for ScriptedExec {
    fn piped_exec(&self, _command: &str) -> Result<Exit, ExecError> {
        let i = self.calls.get();
        self.calls.set(i + 1);
        let index = if i < self.codes.len() { i } else { self.codes.len() - 1 };
        match self.codes[index] {
            Ok(code) => Ok(Exit::new(code)),
            Err(e) => Err(e),
        }
    }
}

struct CountingSleep {
    naps: Cell<usize>,
}

impl CountingSleep {
    fn new() -> CountingSleep {
        CountingSleep { naps: Cell::new(0) }
    }
}

impl Sleep for CountingSleep {
    fn sleep_millis(&self, _millis: u64) {
        self.naps.set(self.naps.get() + 1);
    }
}

fn drive_retry(executor: &ScriptedExec, sleeper: &CountingSleep, count: Option<usize>) -> RetryResult {
    let mut app = RetryApp::new("dummy arg".to_string(), count, 1, executor, sleeper);
    loop {
        match app.handle() {
            Transition::Next(next) => app = next,
            Transition::Done(done) => return done,
        }
    }
}

#[test]
fn failing_command_exhausts_bounded_budget() {
    let executor = ScriptedExec::new(vec![Err(ExecError::SpawnFailure)]);
    let sleeper = CountingSleep::new();
    let result = drive_retry(&executor, &sleeper, Some(3));
    assert_eq!(result, RetryResult::Failure);
    assert_eq!(executor.calls.get(), 3);
    assert_eq!(sleeper.naps.get(), 2);
}

#[test]
fn failing_command_with_budget_of_one() {
    let executor = ScriptedExec::new(vec![Ok(1)]);
    let sleeper = CountingSleep::new();
    let result = drive_retry(&executor, &sleeper, Some(1));
    assert_eq!(result, RetryResult::Failure);
    assert_eq!(executor.calls.get(), 1);
    assert_eq!(sleeper.naps.get(), 0);
}

#[test]
fn first_success_stops_immediately() {
    let executor = ScriptedExec::new(vec![Ok(0)]);
    let sleeper = CountingSleep::new();
    let result = drive_retry(&executor, &sleeper, Some(5));
    assert_eq!(result, RetryResult::Success);
    assert_eq!(executor.calls.get(), 1);
    assert_eq!(sleeper.naps.get(), 0);
}

#[test]
fn success_after_failures_with_unbounded_budget() {
    let executor = ScriptedExec::new(vec![Err(ExecError::SpawnFailure), Ok(2), Ok(0)]);
    let sleeper = CountingSleep::new();
    let result = drive_retry(&executor, &sleeper, None);
    assert_eq!(result, RetryResult::Success);
    assert_eq!(executor.calls.get(), 3);
    assert_eq!(sleeper.naps.get(), 2);
}

#[test]
fn zero_budget_executes_nothing() {
    let executor = ScriptedExec::new(vec![Ok(0)]);
    let sleeper = CountingSleep::new();
    let result = drive_retry(&executor, &sleeper, Some(0));
    assert_eq!(result, RetryResult::Failure);
    assert_eq!(executor.calls.get(), 0);
    assert_eq!(sleeper.naps.get(), 0);
}

#[test]
fn execute_to_done_with_success_and_unbounded_budget() {
    let executor = ScriptedExec::new(vec![Ok(0)]);
    let sleeper = CountingSleep::new();
    let app = RetryApp::new("dummy".to_string(), None, 1, &executor, &sleeper);
    assert!(matches!(app.handle(), Transition::Done(RetryResult::Success)));
}

#[test]
fn execute_to_sleep_decrements_the_budget() {
    let executor = ScriptedExec::new(vec![Ok(1)]);
    let sleeper = CountingSleep::new();
    let app = RetryApp::new("dummy".to_string(), Some(2), 1, &executor, &sleeper);
    match app.handle() {
        Transition::Next(next) => {
            assert_eq!(next.count, Some(1));
            assert!(matches!(next.state, State::Sleep(_)));
        }
        Transition::Done(_) => panic!("expected a transition to the sleep state"),
    }
}

#[test]
fn sleep_returns_to_execute_with_the_same_budget() {
    let executor = ScriptedExec::new(vec![Ok(1)]);
    let sleeper = CountingSleep::new();
    let params = SharedParams::new(
        "dummy".to_string(),
        1,
        &executor,
        &sleeper,
        WaitSec { millis: 1, sleeper: &sleeper },
    );
    let app = RetryApp { state: State::Sleep(params), count: Some(1) };
    match app.handle() {
        Transition::Next(next) => {
            assert_eq!(next.count, Some(1));
            assert!(matches!(next.state, State::ExecuteCommand(_)));
        }
        Transition::Done(_) => panic!("expected a transition to the execute state"),
    }
    assert_eq!(sleeper.naps.get(), 1);
    assert_eq!(executor.calls.get(), 0);
}

#[test]
fn nonzero_exit_consumes_budget_like_an_error() {
    let executor = ScriptedExec::new(vec![Ok(7), Err(ExecError::AbnormalTermination)]);
    let sleeper = CountingSleep::new();
    let result = drive_retry(&executor, &sleeper, Some(2));
    assert_eq!(result, RetryResult::Failure);
    assert_eq!(executor.calls.get(), 2);
    assert_eq!(sleeper.naps.get(), 1);
}
