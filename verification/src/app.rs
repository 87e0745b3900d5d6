//! The state-machine engine and the states shared by the retry and
//! supervise machines.

pub mod components;
pub mod retry;
pub mod supervise;

use vstd::prelude::*;

verus! {

/// What one transition of a state machine produces: either the next machine
/// value to run, or the machine's terminal output.
pub enum Transition<N, D> {
    Next(N),
    Done(D),
}

/// The two alternating states of the retry and supervise machines: executing
/// the command, or sleeping out the interval between attempts.
pub enum State<E, S> {
    ExecuteCommand(E),
    Sleep(S),
}

/// The attempt budget after one consumed attempt: an unbounded budget stays
/// unbounded, a bounded one loses one.
pub open spec fn spec_decrement(count: Option<usize>) -> Option<usize> {
    match count {
        Option::None => None,
        Option::Some(n) => Some(
            if n >= 1 {
                (n - 1) as usize
            } else {
                0
            },
        ),
    }
}

/// Consume one attempt from the budget.
pub fn decrement(count: Option<usize>) -> (r: Option<usize>)
    ensures
        r == spec_decrement(count),
{
    match count {
        Option::None => None,
        Option::Some(n) => if n >= 1 {
            Some(n - 1)
        } else {
            Some(0)
        },
    }
}

/// A value that, given ownership of itself, performs one step of work and
/// produces either a successor value or a terminal output.
///
/// The engine that drives a machine is the plain loop `handle` calls for:
/// replace the machine with the payload of every `Next` transition, and stop
/// at the first `Done`, whose payload is the machine's output. Each step owns
/// the machine value outright, so no two transitions ever overlap. The loop
/// itself cannot stand here: a machine with an unbounded budget never
/// terminates, which is exactly what it is for. What every driver obtains is
/// still pinned down by `handle`'s contract: each output handed back by a
/// `Done` transition satisfies `step_ok` of the well-formed machine value
/// that produced it.
pub trait StateMachine: Sized {
    type Output;

    /// The machine's own well-formedness.
    spec fn inv(&self) -> bool;

    /// What one step taken from `self` guarantees of its transition.
    spec fn step_ok(&self, t: &Transition<Self, Self::Output>) -> bool;

    /// Perform one step, consuming the machine.
    fn handle(self) -> (t: Transition<Self, Self::Output>)
        requires
            self.inv(),
        ensures
            self.step_ok(&t),
            t matches Transition::Next(m) ==> m.inv(),
    ;
}

} // verus!
