//! [`once`] performs an effect on the world, on its one poll.

use crate::action::Action;
use crate::effect::Effect;
use crate::runner::{
    CancellationToken, Polls, RunWithTaskOutput, RunnerIntoAction, TaskOutput, TaskRunner,
};
use bevy::prelude::World;
use vstd::prelude::*;

pub mod switch;

verus! {

/// The runner of [`once`]: the effect to perform.
pub struct OnceRunner<E> {
    /// The effect to perform.
    pub effect: E,
}

impl<Out, E: Effect<Out>> RunWithTaskOutput<Out> for OnceRunner<E> {
    type In = ();

    open spec fn inv(&self) -> bool {
        self.effect.ready()
    }

    /// The effect is performed, and what it returns is produced.
    open spec fn step(&self, world: World, next: Self, next_world: World, produced: Option<Out>) -> bool {
        produced matches Some(out) && self.effect.performs(world, next.effect, next_world, out)
    }

    /// A cancelled effect is not performed.
    open spec fn cancelled(&self, next: Self) -> bool {
        next == *self
    }

    fn run_with_task_output(
        &mut self,
        token: &mut CancellationToken,
        output: &mut TaskOutput<Out>,
        world: &mut World,
    ) -> (done: bool)
        ensures
            done,
    {
        if token.requested_cancel() {
            return true;
        }
        let out = self.effect.perform(world);
        output.replace(out);
        true
    }
}

/// A runner made by [`once`] completes on the poll that it is given, whatever
/// the world holds; unless it was cancelled, it has performed the effect and
/// produced what the effect returned.
pub proof fn once_completes_on_first_poll<Out, E: Effect<Out>>(
    runner: TaskRunner<Out, OnceRunner<E>>,
    world: World,
    next: TaskRunner<Out, OnceRunner<E>>,
    next_world: World,
    done: bool,
)
    requires
        runner.polled(world, next, next_world, done),
    ensures
        done,
        !runner.token@ ==> (next.output@ matches Some(out) && runner.runner.effect.performs(
            world,
            next.runner.effect,
            next_world,
            out,
        )),
        runner.token@ ==> next.output@ == runner.output@ && next_world == world && next.runner
            == runner.runner,
{
}

/// A runner made by [`once`] is polled once: its first poll completes, so the
/// host makes no second.
pub proof fn once_is_polled_once<Out, E: Effect<Out>>(polls: Polls<Out, OnceRunner<E>>)
    requires
        polls.wf(),
    ensures
        polls.len() <= 1,
        forall|i: int| 0 <= i < polls.len() ==> polls.done[i],
{
    if polls.len() > 0 {
        assert(polls.poll(0));
    }
}

/// The action that performs `effect` on its first poll and completes on that
/// poll, with what `effect` returned.
pub fn once<Out, E: Effect<Out>>(effect: E) -> (action: RunnerIntoAction<OnceRunner<E>>)
    ensures
        action.0.effect == effect,
        effect.ready() ==> action.inv(),
{
    RunnerIntoAction::new(OnceRunner { effect })
}

} // verus!
