use std::cell::Cell;

use cx::app::supervise::SuperviseApp;
use cx::app::{StateMachine, Transition};
use cx::exec::ExecError;
use cx::io::{Exit, PipedCmdExecute, Sleep};

struct FailingExec {
    calls: Cell<usize>,
}

impl PipedCmdExecute for FailingExec {
    fn piped_exec(&self, _command: &str) -> Result<Exit, ExecError> {
        self.calls.set(self.calls.get() + 1);
        Err(ExecError::SpawnFailure)
    }
}

struct SucceedingExec {
    calls: Cell<usize>,
}

impl PipedCmdExecute for SucceedingExec {
    fn piped_exec(&self, _command: &str) -> Result<Exit, ExecError> {
        self.calls.set(self.calls.get() + 1);
        Ok(Exit::new(0))
    }
}

struct QuietSleep {
    naps: Cell<usize>,
}

impl Sleep for QuietSleep {
    fn sleep_millis(&self, _millis: u64) {
        self.naps.set(self.naps.get() + 1);
    }
}

#[test]
fn bounded_budget_executes_exactly_that_often() {
    let executor = SucceedingExec { calls: Cell::new(0) };
    let sleeper = QuietSleep { naps: Cell::new(0) };
    let mut app = SuperviseApp::new("echo abc".to_string(), Some(3), 1, &executor, &sleeper);
    loop {
        match app.handle() {
            Transition::Next(next) => app = next,
            Transition::Done(()) => break,
        }
    }
    assert_eq!(executor.calls.get(), 3);
    assert_eq!(sleeper.naps.get(), 2);
}

#[test]
fn exit_status_is_ignored() {
    let executor = FailingExec { calls: Cell::new(0) };
    let sleeper = QuietSleep { naps: Cell::new(0) };
    let mut app = SuperviseApp::new("dummy".to_string(), Some(2), 1, &executor, &sleeper);
    loop {
        match app.handle() {
            Transition::Next(next) => app = next,
            Transition::Done(()) => break,
        }
    }
    assert_eq!(executor.calls.get(), 2);
    assert_eq!(sleeper.naps.get(), 1);
}

#[test]
fn zero_budget_executes_nothing_and_stops() {
    let executor = SucceedingExec { calls: Cell::new(0) };
    let sleeper = QuietSleep { naps: Cell::new(0) };
    let app = SuperviseApp::new("echo abc".to_string(), Some(0), 1, &executor, &sleeper);
    assert!(matches!(app.handle(), Transition::Done(())));
    assert_eq!(executor.calls.get(), 0);
}

#[test]
fn unbounded_budget_keeps_making_progress() {
    let executor = SucceedingExec { calls: Cell::new(0) };
    let sleeper = QuietSleep { naps: Cell::new(0) };
    let mut app = SuperviseApp::new("echo abc".to_string(), None, 1, &executor, &sleeper);
    let mut transitions: usize = 0;
    while transitions < 10 {
        match app.handle() {
            Transition::Next(next) => app = next,
            Transition::Done(()) => panic!("an unbounded supervise run must not stop"),
        }
        transitions += 1;
    }
    assert_eq!(executor.calls.get(), 5);
    assert_eq!(sleeper.naps.get(), 5);
}
