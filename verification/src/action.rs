//! Actions, and the combinators that build actions out of actions.
//!
//! - [`once`]
//! - [`wait`]
//! - [`delay`]
//! - [`sequence`]
//! - [`select`]
//! - [`pipe`]
//! - [`seed`]

use crate::runner::{CancellationToken, RunWithTaskOutput, RunnerIntoAction, TaskOutput, TaskRunner};
use bevy::prelude::World;
use std::marker::PhantomData;
use vstd::prelude::*;

pub mod delay;
pub mod once;
pub mod pipe;
pub mod seed;
pub mod select;
pub mod sequence;
pub mod switch;
pub mod wait;

verus! {

/// A description of a unit of work that takes an `In` and produces an `Out`.
///
/// An action does nothing by itself. It is consumed by `to_runner`, which binds
/// the runner that it describes to a token and an output slot.
pub trait Action<In, Out>: Sized {
    /// The work of the runners that the action makes.
    type Runner: RunWithTaskOutput<Out>;

    /// Holds of an action that may be converted.
    spec fn inv(&self) -> bool;

    /// The runner that the action starts from.
    spec fn runner(self) -> Self::Runner;

    /// Converts the action into a runner that answers to `token` and writes its
    /// result to `output`.
    fn to_runner(self, token: CancellationToken, output: TaskOutput<Out>) -> (bound: TaskRunner<
        Out,
        Self::Runner,
    >)
        requires
            self.inv(),
        ensures
            bound.token@ == token@,
            bound.output@ == output@,
            bound.runner == self.runner(),
            bound.runner.inv(),
    ;
}

/// The runner of [`to_tuple`]: a child, polled until its slot holds a value.
pub struct TupleRunner<I, O, R> {
    /// The runner of the action that was lifted.
    pub child: TaskRunner<O, R>,
    /// Keeps the input type of the lifted action.
    pub marker: PhantomData<I>,
}

impl<I, O, R: RunWithTaskOutput<O>> RunWithTaskOutput<(O,)> for TupleRunner<I, O, R> {
    type In = I;

    open spec fn inv(&self) -> bool {
        self.child.idle()
    }

    /// The child makes one step; what it produced, if anything, is produced as
    /// a tuple of one element.
    open spec fn step(&self, world: World, next: Self, next_world: World, produced: Option<(O,)>) -> bool {
        &&& self.child.runner.step(
            world,
            next.child.runner,
            next_world,
            match produced {
                Some(tuple) => Some(tuple.0),
                None => None,
            },
        )
        &&& !next.child.token@
        &&& next.child.output@ is None
    }

    /// The child is cancelled, and is not polled.
    open spec fn cancelled(&self, next: Self) -> bool {
        &&& next.child.token@
        &&& next.child.output@ == self.child.output@
        &&& next.child.runner == self.child.runner
    }

    fn run_with_task_output(
        &mut self,
        token: &mut CancellationToken,
        output: &mut TaskOutput<(O,)>,
        world: &mut World,
    ) -> (done: bool) {
        if token.requested_cancel() {
            self.child.token.cancel();
            return true;
        }
        self.child.run(world);
        if let Some(o) = self.child.output.take() {
            output.replace((o,));
            true
        } else {
            false
        }
    }
}

/// Lifts the output of `action` into a tuple of one element.
///
/// The runner of `action` is made here, with a token and a slot of its own.
/// The action returned polls it once per poll, and completes on the poll on
/// which it completes.
pub fn to_tuple<I, O, A: Action<I, O>>(action: A) -> (lifted: RunnerIntoAction<
    TupleRunner<I, O, A::Runner>,
>)
    requires
        action.inv(),
    ensures
        lifted.0.child.runner == action.runner(),
        lifted.0.child.idle(),
        lifted.inv(),
{
    let token = CancellationToken::default();
    let o = TaskOutput::default();
    let child = action.to_runner(token, o);
    RunnerIntoAction::new(TupleRunner { child, marker: PhantomData })
}

} // verus!
