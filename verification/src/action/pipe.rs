//! [`pipe`] passes the output of an action through a function.

use crate::action::Action;
use crate::effect::Transform;
use crate::runner::{CancellationToken, RunWithTaskOutput, RunnerIntoAction, TaskOutput, TaskRunner};
use bevy::prelude::World;
use std::marker::PhantomData;
use vstd::prelude::*;

verus! {

/// The runner of [`pipe`]: a child, and the function that its output is to
/// pass through.
pub struct PipeRunner<I, O, O2, R, T> {
    /// The runner of the action whose output is transformed.
    pub child: TaskRunner<O, R>,
    /// The transform, until it has been applied.
    pub transform: Option<T>,
    /// Keeps the input type of the action and the output type of the transform.
    pub marker: PhantomData<(I, O2)>,
}

impl<I, O, O2, R: RunWithTaskOutput<O>, T: Transform<O, O2>> PipeRunner<I, O, O2, R, T> {
    /// A step on which the child completes with `o`, and the transform makes
    /// of it what is produced.
    pub open spec fn completes_from(
        &self,
        world: World,
        next: Self,
        next_world: World,
        produced: Option<O2>,
        o: O,
    ) -> bool {
        &&& self.child.runner.step(world, next.child.runner, next_world, Some(o))
        &&& self.transform matches Some(f) && produced matches Some(out) && f.transforms(o, out)
        &&& next.transform is None
    }
}

impl<I, O, O2, R: RunWithTaskOutput<O>, T: Transform<O, O2>> RunWithTaskOutput<O2> for PipeRunner<
    I,
    O,
    O2,
    R,
    T,
> {
    type In = I;

    open spec fn inv(&self) -> bool {
        &&& self.child.idle()
        &&& self.transform matches Some(f) && forall|o: O| #[trigger] f.accepts(o)
    }

    /// The child makes one step. The runner completes exactly if the child
    /// does, with what the transform makes of the child's output.
    open spec fn step(&self, world: World, next: Self, next_world: World, produced: Option<O2>) -> bool {
        &&& !next.child.token@
        &&& next.child.output@ is None
        &&& if produced is Some {
            exists|o: O| #[trigger] self.completes_from(world, next, next_world, produced, o)
        } else {
            &&& next.transform == self.transform
            &&& self.child.runner.step(world, next.child.runner, next_world, None)
        }
    }

    /// The child is cancelled, and is not polled.
    open spec fn cancelled(&self, next: Self) -> bool {
        &&& next.child.token@
        &&& next.child.output@ == self.child.output@
        &&& next.child.runner == self.child.runner
        &&& next.transform == self.transform
    }

    fn run_with_task_output(
        &mut self,
        token: &mut CancellationToken,
        output: &mut TaskOutput<O2>,
        world: &mut World,
    ) -> (done: bool) {
        if token.requested_cancel() {
            self.child.token.cancel();
            return true;
        }
        self.child.run(world);
        match self.child.output.take() {
            Some(o) => {
                let ghost taken = o;
                if let Some(transform) = self.transform.take() {
                    let out = transform.transform(o);
                    output.replace(out);
                    assert(old(self).completes_from(*old(world), *self, *world, Some(out), taken));
                }
                true
            },
            None => false,
        }
    }
}

/// Every step of a pipe is a step of its child, and completes exactly if that
/// step of the child completes: a pipe changes what is produced, and not when.
pub proof fn pipe_keeps_the_timing<I, O, O2, R: RunWithTaskOutput<O>, T: Transform<O, O2>>(
    runner: PipeRunner<I, O, O2, R, T>,
    world: World,
    next: PipeRunner<I, O, O2, R, T>,
    next_world: World,
    produced: Option<O2>,
)
    requires
        runner.step(world, next, next_world, produced),
    ensures
        produced is Some ==> exists|o: O| #[trigger]
            runner.child.runner.step(world, next.child.runner, next_world, Some(o)),
        produced is None ==> runner.child.runner.step(world, next.child.runner, next_world, None),
{
    if produced is Some {
        let o = choose|o: O| #[trigger] runner.completes_from(world, next, next_world, produced, o);
        assert(runner.child.runner.step(world, next.child.runner, next_world, Some(o)));
    }
}

/// The action that runs `action` and completes when it does, with what
/// `transform` makes of its output. The timing is that of `action`.
pub fn pipe<I, O, O2, A: Action<I, O>, T: Transform<O, O2>>(action: A, transform: T) -> (piped:
    RunnerIntoAction<PipeRunner<I, O, O2, A::Runner, T>>)
    requires
        action.inv(),
    ensures
        piped.0.child.runner == action.runner(),
        piped.0.child.idle(),
        piped.0.transform == Some(transform),
        (forall|o: O| #[trigger] transform.accepts(o)) ==> piped.inv(),
{
    let child = action.to_runner(CancellationToken::new(), TaskOutput::new());
    RunnerIntoAction::new(PipeRunner { child, transform: Some(transform), marker: PhantomData })
}

} // verus!
