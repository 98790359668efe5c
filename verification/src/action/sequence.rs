//! [`sequence`] runs one action, and after it the action that is made from its
//! output.

use crate::action::Action;
use crate::effect::Transform;
use crate::runner::{
    CancellationToken, Polls, RunWithTaskOutput, RunnerIntoAction, TaskOutput, TaskRunner,
};
use bevy::prelude::World;
use std::marker::PhantomData;
use vstd::prelude::*;

verus! {

/// The runner of [`sequence`].
///
/// While the first stage runs, `first` and `continuation` are there and
/// `second` is not. Once the first stage has completed, only `second` is there:
/// the runner of the second stage exists from that poll on, and not before.
pub struct SequenceRunner<I, O1, I2, O2, RA, C, B: Action<I2, O2>> {
    /// The runner of the first stage, while it runs.
    pub first: Option<TaskRunner<O1, RA>>,
    /// Makes the second stage from the output of the first.
    pub continuation: Option<C>,
    /// The runner of the second stage, once the first has completed.
    pub second: Option<TaskRunner<O2, B::Runner>>,
    /// Keeps the input type of the first stage.
    pub marker: PhantomData<I>,
}

impl<I, O1, I2, O2, RA: RunWithTaskOutput<O1>, C: Transform<O1, B>, B: Action<I2, O2>> SequenceRunner<
    I,
    O1,
    I2,
    O2,
    RA,
    C,
    B,
> {
    /// Whether `continuation` may be applied to every output of the first
    /// stage, and makes only actions that may be converted.
    pub open spec fn continues(continuation: C) -> bool {
        &&& forall|o: O1| #[trigger] continuation.accepts(o)
        &&& forall|o: O1, action: B| #[trigger] continuation.transforms(o, action) ==> action.inv()
    }

    /// A step on which the first stage does not complete.
    pub open spec fn first_continues(&self, world: World, next: Self, next_world: World) -> bool {
        &&& self.first matches Some(a) && next.first matches Some(na) && a.runner.step(
            world,
            na.runner,
            next_world,
            None,
        ) && !na.token@ && na.output@ is None
        &&& next.continuation == self.continuation
        &&& next.second is None
    }

    /// A step on which the first stage completes with `o`, leaving its runner
    /// as `first_end` and the world as `between`; the continuation makes
    /// `action` of `o`, and the runner of `action` is made and takes its first
    /// step.
    pub open spec fn hands_over(
        &self,
        world: World,
        next: Self,
        next_world: World,
        produced: Option<O2>,
        first_end: RA,
        between: World,
        o: O1,
        action: B,
    ) -> bool {
        &&& self.first matches Some(a) && a.runner.step(world, first_end, between, Some(o))
        &&& self.continuation matches Some(f) && f.transforms(o, action)
        &&& next.second matches Some(nb) && action.runner().step(
            between,
            nb.runner,
            next_world,
            produced,
        ) && !nb.token@ && nb.output@ is None
        &&& next.first is None
        &&& next.continuation is None
    }

    /// A step of the second stage.
    pub open spec fn second_continues(
        &self,
        world: World,
        next: Self,
        next_world: World,
        produced: Option<O2>,
    ) -> bool {
        &&& self.second matches Some(b) && next.second matches Some(nb) && b.runner.step(
            world,
            nb.runner,
            next_world,
            produced,
        ) && !nb.token@ && nb.output@ is None
        &&& next.first is None
        &&& next.continuation is None
    }

    /// The runner of the second stage is made on a step on which the first
    /// stage completes, from the action that the continuation makes of the
    /// output of the first stage, and on no other step. Nothing is produced
    /// before it is made.
    pub proof fn second_stage_waits_for_first(
        self,
        world: World,
        next: Self,
        next_world: World,
        produced: Option<O2>,
    )
        requires
            self.second is None,
            self.step(world, next, next_world, produced),
        ensures
            next.second is Some <==> exists|first_end: RA, between: World, o: O1, action: B| #[trigger]
                self.hands_over(world, next, next_world, produced, first_end, between, o, action),
            next.second is None ==> produced is None && self.first_continues(world, next, next_world),
    {
    }

    /// What the sequence produces is what the runner of the second stage
    /// produces on that step.
    pub proof fn output_is_of_second_stage(
        self,
        world: World,
        next: Self,
        next_world: World,
        produced: Option<O2>,
    )
        requires
            self.step(world, next, next_world, produced),
            produced is Some,
        ensures
            next.second is Some,
            self.second is Some ==> self.second_continues(world, next, next_world, produced),
            self.second is None ==> exists|first_end: RA, between: World, o: O1, action: B| #[trigger]
                self.hands_over(world, next, next_world, produced, first_end, between, o, action),
    {
    }

    /// A sequence that is cancelled while its first stage runs completes on
    /// its next poll without touching the world or its slot, cancels the first
    /// stage, and makes no second stage.
    pub proof fn cancelled_first_stage_has_no_second(
        runner: TaskRunner<O2, Self>,
        world: World,
        next: TaskRunner<O2, Self>,
        next_world: World,
        done: bool,
    )
        requires
            runner.token@,
            runner.runner.second is None,
            runner.polled(world, next, next_world, done),
        ensures
            done,
            next_world == world,
            next.output@ == runner.output@,
            next.runner.second is None,
            next.runner.continuation == runner.runner.continuation,
            runner.runner.first is Some ==> (next.runner.first matches Some(a) && a.token@),
    {
    }

    /// A sequence that is cancelled while its first stage runs is polled once
    /// more at most, and has no second stage then or ever after.
    pub proof fn cancelled_first_stage_never_has_second(polls: Polls<O2, Self>, i: int)
        requires
            polls.wf(),
            polls.runners[0].token@,
            polls.runners[0].runner.second is None,
            0 <= i <= polls.len(),
        ensures
            polls.len() <= 1,
            polls.runners[i].runner.second is None,
            forall|j: int| 0 <= j < polls.len() ==> polls.done[j],
    {
        if polls.len() > 0 {
            assert(polls.poll(0));
        }
    }
}

impl<I, O1, I2, O2, RA: RunWithTaskOutput<O1>, C: Transform<O1, B>, B: Action<I2, O2>> RunWithTaskOutput<
    O2,
> for SequenceRunner<I, O1, I2, O2, RA, C, B> {
    type In = I;

    open spec fn inv(&self) -> bool {
        match self.second {
            Some(b) => b.idle() && self.first is None && self.continuation is None,
            None => {
                &&& self.first matches Some(a) && a.idle()
                &&& self.continuation matches Some(f) && Self::continues(f)
            },
        }
    }

    /// While the first stage runs, it alone makes a step. On the step on which
    /// it completes, the second stage is made from its output and makes its
    /// first step. From that step on the second stage alone makes a step, and
    /// the runner completes when it does, with its output.
    open spec fn step(&self, world: World, next: Self, next_world: World, produced: Option<O2>) -> bool {
        if self.second is Some {
            self.second_continues(world, next, next_world, produced)
        } else {
            ||| produced is None && self.first_continues(world, next, next_world)
            ||| exists|first_end: RA, between: World, o: O1, action: B| #[trigger]
                self.hands_over(world, next, next_world, produced, first_end, between, o, action)
        }
    }

    /// The stage that runs is cancelled, and nothing is polled. A second stage
    /// that has not been made is not made.
    open spec fn cancelled(&self, next: Self) -> bool {
        &&& next.continuation == self.continuation
        &&& match self.second {
            Some(b) => {
                &&& next.second matches Some(nb) && nb.token@ && nb.output@ == b.output@ && nb.runner
                    == b.runner
                &&& next.first == self.first
            },
            None => {
                &&& next.second is None
                &&& match self.first {
                    Some(a) => next.first matches Some(na) && na.token@ && na.output@ == a.output@
                        && na.runner == a.runner,
                    None => next.first is None,
                }
            },
        }
    }

    fn run_with_task_output(
        &mut self,
        token: &mut CancellationToken,
        output: &mut TaskOutput<O2>,
        world: &mut World,
    ) -> (done: bool) {
        if token.requested_cancel() {
            match &mut self.second {
                Some(b) => b.token.cancel(),
                None => match &mut self.first {
                    Some(a) => a.token.cancel(),
                    None => {},
                },
            }
            return true;
        }
        let ghost mut handed: Option<(RA, World, O1, B)> = None;
        if self.second.is_none() {
            if let Some(mut a) = self.first.take() {
                a.run(world);
                match a.output.take() {
                    None => {
                        self.first = Some(a);
                        return false;
                    },
                    Some(o) => {
                        if let Some(continuation) = self.continuation.take() {
                            let ghost taken = o;
                            let action = continuation.transform(o);
                            proof {
                                handed = Some((a.runner, *world, taken, action));
                            }
                            let b = action.to_runner(CancellationToken::new(), TaskOutput::new());
                            self.second = Some(b);
                        }
                    },
                }
            }
        }
        if let Some(mut b) = self.second.take() {
            b.run(world);
            let done = match b.output.take() {
                Some(out) => {
                    output.replace(out);
                    true
                },
                None => false,
            };
            self.second = Some(b);
            proof {
                let produced = if done {
                    output@
                } else {
                    None
                };
                if let Some((first_end, between, o, action)) = handed {
                    assert(old(self).hands_over(
                        *old(world),
                        *self,
                        *world,
                        produced,
                        first_end,
                        between,
                        o,
                        action,
                    ));
                }
            }
            done
        } else {
            true
        }
    }
}

/// The action that runs `first`, makes an action of its output with
/// `continuation` and runs that, and completes when the second action does,
/// with its output.
///
/// The second action is made on the poll on which `first` completes, and takes
/// its first step on that same poll.
pub fn sequence<I, O1, I2, O2, A: Action<I, O1>, C: Transform<O1, B>, B: Action<I2, O2>>(
    first: A,
    continuation: C,
) -> (sequenced: RunnerIntoAction<SequenceRunner<I, O1, I2, O2, A::Runner, C, B>>)
    requires
        first.inv(),
    ensures
        sequenced.0.first matches Some(a) && a.runner == first.runner() && a.idle(),
        sequenced.0.continuation == Some(continuation),
        sequenced.0.second is None,
        SequenceRunner::<I, O1, I2, O2, A::Runner, C, B>::continues(continuation) ==> sequenced.inv(),
{
    let first = first.to_runner(CancellationToken::new(), TaskOutput::new());
    RunnerIntoAction::new(
        SequenceRunner {
            first: Some(first),
            continuation: Some(continuation),
            second: None,
            marker: PhantomData,
        },
    )
}

} // verus!
