//! The supervise state machine: re-run a command a fixed or unbounded
//! number of times regardless of its exit status, sleeping out the interval
//! between executions.

use vstd::prelude::*;
use super::{decrement, spec_decrement, State, StateMachine, Transition};
use super::components::{
    CmdExecutor,
    Component,
    ExecutingParams,
    PrintableCmdNotFound,
    SharedParams,
    SleepingParams,
};
use crate::io::{PipedCmdExecute, Sleep};

verus! {

/// What the supervise machine does after one execution.
#[derive(Debug, Clone, Copy, PartialEq, Eq)]
pub enum SuperviseStep {
    /// Stop: the budgeted executions are all done.
    Stop,
    /// Sleep out the interval, then execute again with the given budget.
    SleepThenContinue(Option<usize>),
}

/// The supervise transition table after one execution with the given
/// budget: the exit status is never inspected; the last budgeted execution
/// stops the machine, and any other consumes one from the budget and goes
/// to sleep — with an unbounded budget, always.
///
/// A budget of `Some(0)` never reaches this table: it stops the machine
/// before anything is executed.
pub open spec fn spec_supervise_step(count: Option<usize>) -> SuperviseStep {
    if count == Some(1usize) {
        SuperviseStep::Stop
    } else {
        SuperviseStep::SleepThenContinue(spec_decrement(count))
    }
}

/// Decide what the supervise machine does after one execution.
pub fn supervise_step(count: Option<usize>) -> (s: SuperviseStep)
    ensures
        s == spec_supervise_step(count),
{
    match count {
        Option::Some(1) => SuperviseStep::Stop,
        _ => SuperviseStep::SleepThenContinue(decrement(count)),
    }
}

/// The whole of a supervise run: how many executions and how many sleeps
/// the machine performs before stopping — one sleep between consecutive
/// executions, none after the last — as the pair (executions, sleeps), or
/// `None` where it never stops. Exit statuses play no part, so an unbounded
/// budget runs forever.
pub open spec fn spec_supervise_run(count: Option<usize>) -> Option<(nat, nat)>
    decreases
            (match count {
                Option::Some(n) => n as int,
                Option::None => 0,
            }),
{
    match count {
        Option::None => None,
        Option::Some(n) => if n == 0 {
            Some((0 as nat, 0 as nat))
        } else if n == 1 {
            Some((1 as nat, 0 as nat))
        } else {
            match spec_supervise_run(Some((n - 1) as usize)) {
                Option::None => None,
                Option::Some(p) => Some(((p.0 + 1) as nat, (p.1 + 1) as nat)),
            }
        },
    }
}

/// Law: with a bounded budget of `n >= 1`, supervise performs exactly `n`
/// executions and `n - 1` sleeps — one interval between consecutive
/// executions — whatever the exit statuses, and stops; with an unbounded
/// budget it never stops, and a budget of `Some(0)` performs nothing.
pub proof fn lemma_supervise_execution_count(n: usize)
    requires
        1 <= n,
    ensures
        spec_supervise_run(Some(n)) == Some((n as nat, (n - 1) as nat)),
        spec_supervise_run(None::<usize>) == None::<(nat, nat)>,
        spec_supervise_run(Some(0usize)) == Some((0 as nat, 0 as nat)),
    decreases n,
{
    if n > 1 {
        lemma_supervise_execution_count((n - 1) as usize);
    }
}

/// The transition the executing state owes after one execution, for a
/// budget that is not `Some(0)`: the step table applied, with the parameter
/// bundle converted to the sleeping shape where the machine goes on.
pub open spec fn spec_supervise_transition<'a, Ex, Sl>(
    count: Option<usize>,
    p: ExecutingParams<'a, Ex, Sl>,
) -> Transition<SuperviseApp<'a, Ex, Sl>, ()> {
    match spec_supervise_step(count) {
        SuperviseStep::Stop => Transition::Done(()),
        SuperviseStep::SleepThenContinue(c) => Transition::Next(
            SuperviseApp {
                state: State::<ExecutingParams<'a, Ex, Sl>, SleepingParams<'a, Ex, Sl>>::Sleep(
                    p.spec_into_sleeping(),
                ),
                count: c,
            },
        ),
    }
}

/// The supervise state machine: alternates between executing the decorated
/// command — ignoring its result — and sleeping out the interval, with the
/// execution budget threaded through the transitions.
pub struct SuperviseApp<'a, Ex, Sl> {
    pub state: State<ExecutingParams<'a, Ex, Sl>, SleepingParams<'a, Ex, Sl>>,
    pub count: Option<usize>,
}

/// Law: an unbounded supervise machine never stops and always makes
/// progress — every transition the step relation permits is `Next`, with
/// the budget still unbounded, so each completed execution is followed by a
/// sleep and each completed sleep by the next execution.
pub proof fn lemma_supervise_unbounded_progress<'a, Ex: PipedCmdExecute, Sl: Sleep>(
    m: SuperviseApp<'a, Ex, Sl>,
    t: Transition<SuperviseApp<'a, Ex, Sl>, ()>,
)
    requires
        m.count == None::<usize>,
        m.step_ok(&t),
    ensures
        t matches Transition::Next(next) && next.count == None::<usize>,
{
}

impl<'a, Ex: PipedCmdExecute, Sl: Sleep> SuperviseApp<'a, Ex, Sl> {
    /// Seed a supervise machine: it starts in the executing state, with a
    /// fresh decorated executor built around the command.
    pub fn new(
        command: String,
        count: Option<usize>,
        interval_millis: u64,
        executor: &'a Ex,
        sleeper: &'a Sl,
    ) -> (app: Self)
        ensures
            app.count == count,
            app.inv(),
            app.state matches State::ExecuteCommand(p) && p.command == command
                && p.interval_millis == interval_millis && p.executor == executor && p.sleeper
                == sleeper,
    {
        let decorated = PrintableCmdNotFound::new(
            command.clone(),
            CmdExecutor::new(command.clone(), executor),
        );
        let params = SharedParams::new(command, interval_millis, executor, sleeper, decorated);
        SuperviseApp { state: State::ExecuteCommand(params), count }
    }
}

impl<'a, Ex: PipedCmdExecute, Sl: Sleep> StateMachine for SuperviseApp<'a, Ex, Sl> {
    type Output = ();

    /// The live state's parameter bundle is well formed.
    open spec fn inv(&self) -> bool {
        match self.state {
            State::ExecuteCommand(p) => p.wf(),
            State::Sleep(p) => p.wf(),
        }
    }

    /// The supervise transition table, as an exact equation — the exit
    /// status never matters. From the executing state: a budget of
    /// `Some(0)` stops the machine before executing anything, and any other
    /// budget executes and then follows the step table. From the sleeping
    /// state: always back to executing, same budget, bundle converted back.
    open spec fn step_ok(&self, t: &Transition<Self, ()>) -> bool {
        match self.state {
            State::ExecuteCommand(p) => if self.count == Some(0usize) {
                *t == Transition::<Self, ()>::Done(())
            } else {
                *t == spec_supervise_transition(self.count, p)
            },
            State::Sleep(p) => *t matches Transition::Next(m) && m.count == self.count && m.state
                == State::<ExecutingParams<'a, Ex, Sl>, SleepingParams<'a, Ex, Sl>>::ExecuteCommand(
                p.spec_into_executing(),
            ),
        }
    }

    fn handle(self) -> (t: Transition<Self, ()>) {
        match self.state {
            State::ExecuteCommand(component) => match self.count {
                Option::Some(0) => Transition::Done(()),
                _ => {
                    let ghost pre = component;
                    let _ = component.handle();
                    let t = match supervise_step(self.count) {
                        SuperviseStep::Stop => Transition::Done(()),
                        SuperviseStep::SleepThenContinue(next_count) => Transition::Next(
                            SuperviseApp {
                                state: State::Sleep(component.into_sleeping()),
                                count: next_count,
                            },
                        ),
                    };
                    proof {
                        assert(t == spec_supervise_transition(self.count, pre));
                    }
                    t
                },
            },
            State::Sleep(component) => {
                component.handle();
                Transition::Next(
                    SuperviseApp {
                        state: State::ExecuteCommand(component.into_executing()),
                        count: self.count,
                    },
                )
            },
        }
    }
}

} // verus!
