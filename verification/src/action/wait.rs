//! Actions that poll the world on every tick, and complete once it has come to
//! what they wait for.
//!
//! - [`until`] completes without a value
//! - [`output`] completes with the value that was waited for

use crate::action::Action;
use crate::effect::Effect;
use crate::runner::{CancellationToken, RunWithTaskOutput, RunnerIntoAction, TaskOutput};
use bevy::prelude::World;
use vstd::prelude::*;

pub mod switch;

verus! {

/// The runner of [`until`]: the condition that is tested on every poll.
pub struct UntilRunner<E> {
    /// The condition to wait for.
    pub condition: E,
}

impl<E: Effect<bool>> RunWithTaskOutput<()> for UntilRunner<E> {
    type In = ();

    open spec fn inv(&self) -> bool {
        self.condition.ready()
    }

    /// The condition is tested once, and the runner completes exactly if it
    /// holds.
    open spec fn step(&self, world: World, next: Self, next_world: World, produced: Option<()>) -> bool {
        self.condition.performs(world, next.condition, next_world, produced is Some)
    }

    /// A cancelled wait tests nothing.
    open spec fn cancelled(&self, next: Self) -> bool {
        next == *self
    }

    fn run_with_task_output(
        &mut self,
        token: &mut CancellationToken,
        output: &mut TaskOutput<()>,
        world: &mut World,
    ) -> (done: bool) {
        if token.requested_cancel() {
            return true;
        }
        if self.condition.perform(world) {
            output.replace(());
            true
        } else {
            false
        }
    }
}

/// The runner of [`output`]: the source that is asked on every poll.
pub struct OutputRunner<E> {
    /// The source of the value to wait for.
    pub source: E,
}

impl<Out, E: Effect<Option<Out>>> RunWithTaskOutput<Out> for OutputRunner<E> {
    type In = ();

    open spec fn inv(&self) -> bool {
        self.source.ready()
    }

    /// The source is asked once, and the runner completes exactly if it gave a
    /// value, with that value.
    open spec fn step(&self, world: World, next: Self, next_world: World, produced: Option<Out>) -> bool {
        self.source.performs(world, next.source, next_world, produced)
    }

    /// A cancelled wait asks nothing.
    open spec fn cancelled(&self, next: Self) -> bool {
        next == *self
    }

    fn run_with_task_output(
        &mut self,
        token: &mut CancellationToken,
        output: &mut TaskOutput<Out>,
        world: &mut World,
    ) -> (done: bool) {
        if token.requested_cancel() {
            return true;
        }
        match self.source.perform(world) {
            Some(out) => {
                output.replace(out);
                true
            },
            None => false,
        }
    }
}

/// The action that tests `condition` on every poll, and completes on the first
/// poll on which it holds.
pub fn until<E: Effect<bool>>(condition: E) -> (action: RunnerIntoAction<UntilRunner<E>>)
    ensures
        action.0.condition == condition,
        condition.ready() ==> action.inv(),
{
    RunnerIntoAction::new(UntilRunner { condition })
}

/// The action that asks `source` on every poll, and completes on the first poll
/// on which it gives a value, with that value.
pub fn output<Out, E: Effect<Option<Out>>>(source: E) -> (action: RunnerIntoAction<OutputRunner<E>>)
    ensures
        action.0.source == source,
        source.ready() ==> action.inv(),
{
    RunnerIntoAction::new(OutputRunner { source })
}

} // verus!
