//! [`switch`] runs two actions side by side and completes with the first of
//! them that does.

use crate::action::Action;
use crate::runner::{CancellationToken, RunWithTaskOutput, RunnerIntoAction, TaskOutput, TaskRunner};
use bevy::prelude::World;
use std::marker::PhantomData;
use vstd::prelude::*;

verus! {

/// The runner of [`switch`]: the two candidates.
pub struct SelectRunner<I, O, RA, RB> {
    /// The candidate that was named first. It is polled first, and wins a tie.
    pub first: TaskRunner<O, RA>,
    /// The candidate that was named second.
    pub second: TaskRunner<O, RB>,
    /// Keeps the input type of the candidates.
    pub marker: PhantomData<I>,
}

impl<I, O, RA: RunWithTaskOutput<O>, RB: RunWithTaskOutput<O>> SelectRunner<I, O, RA, RB> {
    /// A step in which the first candidate leaves the world `between` and
    /// produces `a`, and the second then produces `b`.
    pub open spec fn step_through(
        &self,
        world: World,
        next: Self,
        next_world: World,
        produced: Option<O>,
        between: World,
        a: Option<O>,
        b: Option<O>,
    ) -> bool {
        &&& self.first.runner.step(world, next.first.runner, between, a)
        &&& self.second.runner.step(between, next.second.runner, next_world, b)
        &&& produced == if a is Some {
            a
        } else {
            b
        }
        &&& next.first.output@ is None
        &&& next.first.token@ == (a is None && b is Some)
        &&& next.second.output@ == if a is Some {
            b
        } else {
            None
        }
        &&& next.second.token@ == (a is Some)
    }
}

impl<I, O, RA: RunWithTaskOutput<O>, RB: RunWithTaskOutput<O>> RunWithTaskOutput<O> for SelectRunner<
    I,
    O,
    RA,
    RB,
> {
    type In = I;

    open spec fn inv(&self) -> bool {
        self.first.idle() && self.second.idle()
    }

    /// Both candidates make one step, the first before the second. The runner
    /// completes exactly if one of them does, with the output of the first if
    /// it completed and that of the second otherwise; the other candidate is
    /// cancelled.
    open spec fn step(&self, world: World, next: Self, next_world: World, produced: Option<O>) -> bool {
        exists|between: World, a: Option<O>, b: Option<O>| #[trigger]
            self.step_through(world, next, next_world, produced, between, a, b)
    }

    /// Both candidates are cancelled, and neither is polled.
    open spec fn cancelled(&self, next: Self) -> bool {
        &&& next.first.token@
        &&& next.first.output@ == self.first.output@
        &&& next.first.runner == self.first.runner
        &&& next.second.token@
        &&& next.second.output@ == self.second.output@
        &&& next.second.runner == self.second.runner
    }

    fn run_with_task_output(
        &mut self,
        token: &mut CancellationToken,
        output: &mut TaskOutput<O>,
        world: &mut World,
    ) -> (done: bool) {
        if token.requested_cancel() {
            self.first.token.cancel();
            self.second.token.cancel();
            return true;
        }
        let first_done = self.first.run(world);
        let ghost between = *world;
        let second_done = self.second.run(world);
        let ghost a = self.first.output@;
        let ghost b = self.second.output@;
        let done = if let Some(o) = self.first.output.take() {
            self.second.token.cancel();
            output.replace(o);
            true
        } else if let Some(o) = self.second.output.take() {
            self.first.token.cancel();
            output.replace(o);
            true
        } else {
            false
        };
        proof {
            let produced = if done { output@ } else { None };
            assert(old(self).step_through(*old(world), *self, *world, produced, between, a, b));
        }
        done
    }
}

/// The action that runs `first` and `second` side by side, and completes on the
/// first poll on which one of them completes, with its output. Where both
/// complete on one poll, `first` wins.
pub fn switch<I, O, A: Action<I, O>, B: Action<I, O>>(first: A, second: B) -> (selected:
    RunnerIntoAction<SelectRunner<I, O, A::Runner, B::Runner>>)
    requires
        first.inv(),
        second.inv(),
    ensures
        selected.0.first.runner == first.runner(),
        selected.0.second.runner == second.runner(),
        selected.0.first.idle(),
        selected.0.second.idle(),
        selected.inv(),
{
    let first = first.to_runner(CancellationToken::new(), TaskOutput::new());
    let second = second.to_runner(CancellationToken::new(), TaskOutput::new());
    RunnerIntoAction::new(SelectRunner { first, second, marker: PhantomData })
}

} // verus!
