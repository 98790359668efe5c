//! [`seed`] produces a given value, so that a fixed input can stand at the head
//! of a sequence.

use crate::action::Action;
use crate::runner::{CancellationToken, RunWithTaskOutput, RunnerIntoAction, TaskOutput};
use bevy::prelude::World;
use vstd::prelude::*;

verus! {

/// The runner of [`seed`]: the value, until it has been produced.
pub struct SeedRunner<V> {
    /// The value to produce.
    pub value: Option<V>,
}

impl<V> RunWithTaskOutput<V> for SeedRunner<V> {
    type In = ();

    open spec fn inv(&self) -> bool {
        self.value is Some
    }

    /// The value is produced on the first poll, and the world is left alone.
    open spec fn step(&self, world: World, next: Self, next_world: World, produced: Option<V>) -> bool {
        &&& produced is Some
        &&& produced == self.value
        &&& next.value is None
        &&& next_world == world
    }

    /// A cancelled seed keeps its value to itself.
    open spec fn cancelled(&self, next: Self) -> bool {
        next == *self
    }

    fn run_with_task_output(
        &mut self,
        token: &mut CancellationToken,
        output: &mut TaskOutput<V>,
        world: &mut World,
    ) -> (done: bool)
        ensures
            done,
    {
        if token.requested_cancel() {
            return true;
        }
        if let Some(value) = self.value.take() {
            output.replace(value);
        }
        true
    }
}

/// The action that produces `value` on its first poll, with no effect on the
/// world.
pub fn seed<V>(value: V) -> (action: RunnerIntoAction<SeedRunner<V>>)
    ensures
        action.0.value == Some(value),
        action.inv(),
{
    RunnerIntoAction::new(SeedRunner { value: Some(value) })
}

} // verus!
