//! The retry state machine: re-run a command until it exits successfully or
//! the attempt budget is exhausted, sleeping out the interval between
//! attempts.

use vstd::prelude::*;
use super::{decrement, spec_decrement, State, StateMachine, Transition};
use super::components::{
    CmdExecutor,
    Component,
    ExecutingParams,
    PrintableCmdNotFound,
    SharedParams,
    SleepingParams,
};
use crate::io::{PipedCmdExecute, Sleep};

verus! {

/// The terminal output of the retry machine.
#[derive(Debug, Clone, Copy, PartialEq, Eq, Structural)]
pub enum RetryResult {
    /// An execution exited with code 0.
    Success,
    /// The budget was exhausted without a successful execution.
    Failure,
}

/// What the retry machine does after one execution attempt.
#[derive(Debug, Clone, Copy, PartialEq, Eq)]
pub enum RetryStep {
    /// Stop with the given terminal result.
    Stop(RetryResult),
    /// Sleep out the interval, then try again with the given budget.
    SleepThenRetry(Option<usize>),
}

/// The retry transition table after one execution attempt with the given
/// budget: success stops immediately with `Success` whatever the budget; a
/// failed attempt on the last budgeted try stops with `Failure`; any other
/// failed attempt consumes one from the budget and goes to sleep.
///
/// A budget of `Some(0)` never reaches this table: it stops the machine
/// with `Failure` before anything is executed.
pub open spec fn spec_retry_step(count: Option<usize>, succeeded: bool) -> RetryStep {
    if succeeded {
        RetryStep::Stop(RetryResult::Success)
    } else if count == Some(1usize) {
        RetryStep::Stop(RetryResult::Failure)
    } else {
        RetryStep::SleepThenRetry(spec_decrement(count))
    }
}

/// Decide what the retry machine does after one execution attempt.
pub fn retry_step(count: Option<usize>, succeeded: bool) -> (s: RetryStep)
    ensures
        s == spec_retry_step(count, succeeded),
{
    if succeeded {
        RetryStep::Stop(RetryResult::Success)
    } else {
        match count {
            Option::Some(1) => RetryStep::Stop(RetryResult::Failure),
            _ => RetryStep::SleepThenRetry(decrement(count)),
        }
    }
}

/// The whole of a retry run, over the outcome of each execution the
/// environment would deliver, in order (`true` meaning exit code 0): how
/// many executions and how many sleeps the machine performs — one sleep
/// between consecutive executions, none after the last — and what it stops
/// with, as the triple (executions, sleeps, result). `None` where the
/// provided outcomes do not suffice to stop it: with an unbounded budget
/// and no success among them, the machine keeps going.
pub open spec fn spec_retry_run(count: Option<usize>, outcomes: Seq<bool>) -> Option<
    (nat, nat, RetryResult),
>
    decreases outcomes.len(),
{
    if count == Some(0usize) {
        Some((0 as nat, 0 as nat, RetryResult::Failure))
    } else if outcomes.len() == 0 {
        None
    } else {
        match spec_retry_step(count, outcomes[0]) {
            RetryStep::Stop(r) => Some((1 as nat, 0 as nat, r)),
            RetryStep::SleepThenRetry(c) => match spec_retry_run(c, outcomes.drop_first()) {
                Option::None => None,
                Option::Some(p) => Some(((p.0 + 1) as nat, (p.1 + 1) as nat, p.2)),
            },
        }
    }
}

/// Law: with a bounded budget of `n >= 1` attempts and every execution
/// failing, retry performs exactly `n` executions and `n - 1` sleeps — one
/// interval between consecutive attempts — and stops with `Failure`.
pub proof fn lemma_retry_exhausts_budget(n: usize, outcomes: Seq<bool>)
    requires
        1 <= n,
        n <= outcomes.len(),
        forall|i: int| 0 <= i < outcomes.len() ==> !outcomes[i],
    ensures
        spec_retry_run(Some(n), outcomes) == Some(
            (n as nat, (n - 1) as nat, RetryResult::Failure),
        ),
    decreases n,
{
    if n > 1 {
        assert forall|i: int| 0 <= i < outcomes.drop_first().len() implies !outcomes.drop_first()[i] by {
            assert(outcomes.drop_first()[i] == outcomes[i + 1]);
        }
        lemma_retry_exhausts_budget((n - 1) as usize, outcomes.drop_first());
    }
}

/// Law: the first execution that exits with code 0 stops retry immediately
/// with `Success`, whatever budget remains: if the `k` executions before it
/// all fail and the budget reaches past them, retry performs exactly
/// `k + 1` executions and `k` sleeps.
pub proof fn lemma_retry_first_success(count: Option<usize>, outcomes: Seq<bool>, k: int)
    requires
        0 <= k < outcomes.len(),
        forall|i: int| 0 <= i < k ==> !outcomes[i],
        outcomes[k],
        count matches Some(n) ==> k < n,
    ensures
        spec_retry_run(count, outcomes) == Some(
            ((k + 1) as nat, k as nat, RetryResult::Success),
        ),
    decreases k,
{
    if k > 0 {
        assert forall|i: int| 0 <= i < k - 1 implies !outcomes.drop_first()[i] by {
            assert(outcomes.drop_first()[i] == outcomes[i + 1]);
        }
        assert(outcomes.drop_first()[k - 1] == outcomes[k]);
        lemma_retry_first_success(spec_decrement(count), outcomes.drop_first(), k - 1);
    }
}

/// Law: with a budget of `Some(0)`, retry performs no executions and no
/// sleeps and stops with `Failure`, whatever the command would have done.
pub proof fn lemma_retry_zero_budget(outcomes: Seq<bool>)
    ensures
        spec_retry_run(Some(0usize), outcomes) == Some(
            (0 as nat, 0 as nat, RetryResult::Failure),
        ),
{
}

/// The transition the executing state owes after one attempt with the
/// given outcome, for a budget that is not `Some(0)`: the step table
/// applied, with the parameter bundle converted to the sleeping shape
/// where the machine goes on.
pub open spec fn spec_retry_transition<'a, Ex, Sl>(
    count: Option<usize>,
    p: ExecutingParams<'a, Ex, Sl>,
    succeeded: bool,
) -> Transition<RetryApp<'a, Ex, Sl>, RetryResult> {
    match spec_retry_step(count, succeeded) {
        RetryStep::Stop(r) => Transition::Done(r),
        RetryStep::SleepThenRetry(c) => Transition::Next(
            RetryApp {
                state: State::<ExecutingParams<'a, Ex, Sl>, SleepingParams<'a, Ex, Sl>>::Sleep(
                    p.spec_into_sleeping(),
                ),
                count: c,
            },
        ),
    }
}

/// The retry state machine: alternates between executing the decorated
/// command and sleeping out the interval, with the attempt budget threaded
/// through the transitions.
pub struct RetryApp<'a, Ex, Sl> {
    pub state: State<ExecutingParams<'a, Ex, Sl>, SleepingParams<'a, Ex, Sl>>,
    pub count: Option<usize>,
}

impl<'a, Ex: PipedCmdExecute, Sl: Sleep> RetryApp<'a, Ex, Sl> {
    /// Seed a retry machine: it starts in the executing state, with a fresh
    /// decorated executor built around the command.
    pub fn new(
        command: String,
        count: Option<usize>,
        interval_millis: u64,
        executor: &'a Ex,
        sleeper: &'a Sl,
    ) -> (app: Self)
        ensures
            app.count == count,
            app.inv(),
            app.state matches State::ExecuteCommand(p) && p.command == command
                && p.interval_millis == interval_millis && p.executor == executor && p.sleeper
                == sleeper,
    {
        let decorated = PrintableCmdNotFound::new(
            command.clone(),
            CmdExecutor::new(command.clone(), executor),
        );
        let params = SharedParams::new(command, interval_millis, executor, sleeper, decorated);
        RetryApp { state: State::ExecuteCommand(params), count }
    }
}

impl<'a, Ex: PipedCmdExecute, Sl: Sleep> StateMachine for RetryApp<'a, Ex, Sl> {
    type Output = RetryResult;

    /// The live state's parameter bundle is well formed.
    open spec fn inv(&self) -> bool {
        match self.state {
            State::ExecuteCommand(p) => p.wf(),
            State::Sleep(p) => p.wf(),
        }
    }

    /// The retry transition table, as a relation between the machine and
    /// its transition. From the executing state: a budget of `Some(0)`
    /// stops with `Failure` before executing anything, and otherwise the
    /// transition is the step table applied to some attempt outcome — which
    /// one occurred is up to the command. From the sleeping state: always
    /// back to executing, same budget, bundle converted back.
    open spec fn step_ok(&self, t: &Transition<Self, RetryResult>) -> bool {
        match self.state {
            State::ExecuteCommand(p) => if self.count == Some(0usize) {
                *t == Transition::<Self, RetryResult>::Done(RetryResult::Failure)
            } else {
                exists|succeeded: bool|
                    *t == #[trigger] spec_retry_transition(self.count, p, succeeded)
            },
            State::Sleep(p) => match *t {
                Transition::Done(_) => false,
                Transition::Next(m) => m.count == self.count && m.state == State::<
                    ExecutingParams<'a, Ex, Sl>,
                    SleepingParams<'a, Ex, Sl>,
                >::ExecuteCommand(p.spec_into_executing()),
            },
        }
    }

    fn handle(self) -> (t: Transition<Self, RetryResult>) {
        match self.state {
            State::ExecuteCommand(component) => match self.count {
                Option::Some(0) => Transition::Done(RetryResult::Failure),
                _ => {
                    let ghost pre = component;
                    let result = component.handle();
                    let succeeded = match &result {
                        Result::Ok(exit) => exit.code == 0,
                        Result::Err(_) => false,
                    };
                    let t = match retry_step(self.count, succeeded) {
                        RetryStep::Stop(r) => Transition::Done(r),
                        RetryStep::SleepThenRetry(next_count) => Transition::Next(
                            RetryApp {
                                state: State::Sleep(component.into_sleeping()),
                                count: next_count,
                            },
                        ),
                    };
                    proof {
                        assert(t == spec_retry_transition(self.count, pre, succeeded));
                    }
                    t
                },
            },
            State::Sleep(component) => {
                component.handle();
                Transition::Next(
                    RetryApp {
                        state: State::ExecuteCommand(component.into_executing()),
                        count: self.count,
                    },
                )
            },
        }
    }
}

} // verus!

