//! [`delay`] holds completion back for a number of ticks.

use crate::action::sequence::SequenceRunner;
use crate::action::Action;
use crate::effect::Transform;
use crate::runner::{CancellationToken, Polls, RunWithTaskOutput, RunnerIntoAction, TaskOutput};
use bevy::prelude::World;
use vstd::prelude::*;

verus! {

/// The runner of [`delay`]: the number of polls that are still to report no
/// completion.
pub struct DelayRunner {
    /// The ticks that are left to wait.
    pub remaining: usize,
}

impl RunWithTaskOutput<()> for DelayRunner {
    type In = ();

    open spec fn inv(&self) -> bool {
        true
    }

    /// A poll counts one tick down, and completes once none is left. The world
    /// is left alone.
    open spec fn step(&self, world: World, next: Self, next_world: World, produced: Option<()>) -> bool {
        &&& next_world == world
        &&& if self.remaining == 0 {
            produced is Some && next == *self
        } else {
            produced is None && next.remaining == self.remaining - 1
        }
    }

    /// A cancelled delay stops counting.
    open spec fn cancelled(&self, next: Self) -> bool {
        next == *self
    }

    fn run_with_task_output(
        &mut self,
        token: &mut CancellationToken,
        output: &mut TaskOutput<()>,
        world: &mut World,
    ) -> (done: bool)
        ensures
            !old(token)@ ==> done == (old(self).remaining == 0),
    {
        if token.requested_cancel() {
            return true;
        }
        if self.remaining == 0 {
            output.replace(());
            true
        } else {
            self.remaining = self.remaining - 1;
            false
        }
    }
}

/// The action that reports no completion on its first `ticks` polls, and
/// completes on the next one.
pub fn delay(ticks: usize) -> (action: RunnerIntoAction<DelayRunner>)
    ensures
        action.0.remaining == ticks,
        action.inv(),
{
    RunnerIntoAction::new(DelayRunner { remaining: ticks })
}

/// Whether every action that `continuation` may make completes on the first
/// step of its runner.
pub open spec fn makes_immediate<O1, I2, O2, C: Transform<O1, B>, B: Action<I2, O2>>(
    continuation: C,
) -> bool {
    forall|o: O1, action: B, world: World, next: B::Runner, next_world: World, produced: Option<O2>|
        #[trigger] continuation.transforms(o, action) && #[trigger] action.runner().step(
            world,
            next,
            next_world,
            produced,
        ) ==> produced is Some
}

/// Whether `runner` is a sequence in its first stage, which is a delay with
/// `remaining` ticks left, followed by an action that completes at once.
pub open spec fn delays_immediate<I, I2, O2, C: Transform<(), B>, B: Action<I2, O2>>(
    runner: SequenceRunner<I, (), I2, O2, DelayRunner, C, B>,
    remaining: int,
) -> bool {
    &&& runner.second is None
    &&& runner.first matches Some(a) && a.runner.remaining == remaining
    &&& runner.continuation matches Some(f) && makes_immediate::<(), I2, O2, C, B>(f)
}

/// One step of a delay that is followed by an action that completes at once:
/// while ticks are left, one tick is counted down and nothing is produced;
/// when none is left, the step completes.
pub proof fn delayed_step<I, I2, O2, C: Transform<(), B>, B: Action<I2, O2>>(
    runner: SequenceRunner<I, (), I2, O2, DelayRunner, C, B>,
    remaining: int,
    world: World,
    next: SequenceRunner<I, (), I2, O2, DelayRunner, C, B>,
    next_world: World,
    produced: Option<O2>,
)
    requires
        delays_immediate(runner, remaining),
        runner.step(world, next, next_world, produced),
    ensures
        remaining > 0 ==> produced is None && delays_immediate(next, remaining - 1),
        remaining == 0 ==> produced is Some,
{
    if !(produced is None && runner.first_continues(world, next, next_world)) {
        let (first_end, between, o, action) = choose|
            first_end: DelayRunner,
            between: World,
            o: (),
            action: B,
        | #[trigger]
            runner.hands_over(world, next, next_world, produced, first_end, between, o, action);
        assert(runner.hands_over(world, next, next_world, produced, first_end, between, o, action));
    }
}

/// A delay of `ticks` ticks, followed in a sequence by an action that
/// completes at once, reaches poll `upto` without completing, for every `upto`
/// up to `ticks`: by then `upto` ticks have been counted down.
pub proof fn delayed_polls_count_down<I, I2, O2, C: Transform<(), B>, B: Action<I2, O2>>(
    polls: Polls<O2, SequenceRunner<I, (), I2, O2, DelayRunner, C, B>>,
    ticks: int,
    upto: int,
)
    requires
        polls.wf(),
        !polls.runners[0].token@,
        delays_immediate(polls.runners[0].runner, ticks),
        0 <= upto <= ticks,
        upto <= polls.len(),
    ensures
        !polls.runners[upto].token@,
        delays_immediate(polls.runners[upto].runner, ticks - upto),
        forall|i: int| 0 <= i < upto ==> !polls.done[i],
    decreases upto,
{
    if upto > 0 {
        delayed_polls_count_down(polls, ticks, upto - 1);
        let i = upto - 1;
        assert(polls.poll(i));
        let produced = if polls.done[i] {
            polls.runners[i + 1].output@
        } else {
            None
        };
        delayed_step(
            polls.runners[i].runner,
            ticks - i,
            polls.worlds[i].0,
            polls.runners[i + 1].runner,
            polls.worlds[i].1,
            produced,
        );
    }
}

/// A delay of `ticks` ticks, followed in a sequence by an action that
/// completes at once, completes on the poll that follows `ticks` polls, and on
/// no earlier one: the delay adds its ticks to the one poll that the action
/// needs by itself.
pub proof fn delay_adds_its_ticks<I, I2, O2, C: Transform<(), B>, B: Action<I2, O2>>(
    polls: Polls<O2, SequenceRunner<I, (), I2, O2, DelayRunner, C, B>>,
    ticks: int,
    i: int,
)
    requires
        polls.wf(),
        !polls.runners[0].token@,
        delays_immediate(polls.runners[0].runner, ticks),
        0 <= i < polls.len(),
    ensures
        polls.done[i] <==> i == ticks,
        i <= ticks,
{
    let reached = if i <= ticks {
        i
    } else {
        ticks
    };
    delayed_polls_count_down(polls, ticks, reached);
    assert(polls.poll(reached));
    let produced = if polls.done[reached] {
        polls.runners[reached + 1].output@
    } else {
        None
    };
    delayed_step(
        polls.runners[reached].runner,
        ticks - reached,
        polls.worlds[reached].0,
        polls.runners[reached + 1].runner,
        polls.worlds[reached].1,
        produced,
    );
}

/// Whether `runner` completes on whatever step it makes.
pub open spec fn is_immediate<O, R: RunWithTaskOutput<O>>(runner: R) -> bool {
    forall|world: World, next: R, next_world: World, produced: Option<O>| #[trigger]
        runner.step(world, next, next_world, produced) ==> produced is Some
}

/// Whether every action that `continuation` may make is a delay of `ticks`
/// ticks.
pub open spec fn makes_delay<O1, C: Transform<O1, RunnerIntoAction<DelayRunner>>>(
    continuation: C,
    ticks: int,
) -> bool {
    forall|o: O1, action: RunnerIntoAction<DelayRunner>| #[trigger]
        continuation.transforms(o, action) ==> action.0.remaining == ticks
}

/// Whether `runner` is a sequence in its first stage, which completes at once
/// and is followed by a delay of `ticks` ticks.
pub open spec fn immediate_delays<I, O1, RA: RunWithTaskOutput<O1>, C: Transform<
    O1,
    RunnerIntoAction<DelayRunner>,
>>(runner: SequenceRunner<I, O1, (), (), RA, C, RunnerIntoAction<DelayRunner>>, ticks: int) -> bool {
    &&& runner.second is None
    &&& runner.first matches Some(a) && is_immediate::<O1, RA>(a.runner)
    &&& runner.continuation matches Some(f) && makes_delay(f, ticks)
}

/// Whether `runner` is a sequence in its second stage, which is a delay with
/// `remaining` ticks left.
pub open spec fn delays_last<I, O1, RA: RunWithTaskOutput<O1>, C: Transform<
    O1,
    RunnerIntoAction<DelayRunner>,
>>(runner: SequenceRunner<I, O1, (), (), RA, C, RunnerIntoAction<DelayRunner>>, remaining: int) -> bool {
    runner.second matches Some(b) && b.runner.remaining == remaining
}

/// The first step of an action that completes at once and is followed by a
/// delay: the action completes, the delay is made and takes its first step on
/// the same poll, which completes exactly if the delay has no ticks.
pub proof fn immediate_step<I, O1, RA: RunWithTaskOutput<O1>, C: Transform<
    O1,
    RunnerIntoAction<DelayRunner>,
>>(
    runner: SequenceRunner<I, O1, (), (), RA, C, RunnerIntoAction<DelayRunner>>,
    ticks: int,
    world: World,
    next: SequenceRunner<I, O1, (), (), RA, C, RunnerIntoAction<DelayRunner>>,
    next_world: World,
    produced: Option<()>,
)
    requires
        immediate_delays(runner, ticks),
        runner.step(world, next, next_world, produced),
    ensures
        ticks > 0 ==> produced is None && delays_last(next, ticks - 1),
        ticks == 0 ==> produced is Some,
{
    let (first_end, between, o, action) = choose|
        first_end: RA,
        between: World,
        o: O1,
        action: RunnerIntoAction<DelayRunner>,
    | #[trigger]
        runner.hands_over(world, next, next_world, produced, first_end, between, o, action);
    assert(runner.hands_over(world, next, next_world, produced, first_end, between, o, action));
}

/// An action that completes at once, followed in a sequence by a delay of
/// `ticks` ticks, reaches poll `upto` without completing, for every `upto`
/// from 1 up to `ticks`: by then the delay has counted `upto` ticks down.
pub proof fn polls_count_down_last<I, O1, RA: RunWithTaskOutput<O1>, C: Transform<
    O1,
    RunnerIntoAction<DelayRunner>,
>>(
    polls: Polls<(), SequenceRunner<I, O1, (), (), RA, C, RunnerIntoAction<DelayRunner>>>,
    ticks: int,
    upto: int,
)
    requires
        polls.wf(),
        !polls.runners[0].token@,
        immediate_delays(polls.runners[0].runner, ticks),
        1 <= upto <= ticks,
        upto <= polls.len(),
    ensures
        !polls.runners[upto].token@,
        delays_last(polls.runners[upto].runner, ticks - upto),
        forall|i: int| 0 <= i < upto ==> !polls.done[i],
    decreases upto,
{
    let i = upto - 1;
    assert(polls.poll(i));
    let produced = if polls.done[i] {
        polls.runners[i + 1].output@
    } else {
        None
    };
    if upto == 1 {
        immediate_step(
            polls.runners[0].runner,
            ticks,
            polls.worlds[0].0,
            polls.runners[1].runner,
            polls.worlds[0].1,
            produced,
        );
    } else {
        polls_count_down_last(polls, ticks, upto - 1);
    }
}

/// An action that completes at once, followed in a sequence by a delay of
/// `ticks` ticks, completes on the poll that follows `ticks` polls, and on no
/// earlier one: here too the delay adds its ticks to the one poll that the
/// action needs by itself.
pub proof fn delay_adds_its_ticks_last<I, O1, RA: RunWithTaskOutput<O1>, C: Transform<
    O1,
    RunnerIntoAction<DelayRunner>,
>>(
    polls: Polls<(), SequenceRunner<I, O1, (), (), RA, C, RunnerIntoAction<DelayRunner>>>,
    ticks: int,
    i: int,
)
    requires
        polls.wf(),
        !polls.runners[0].token@,
        immediate_delays(polls.runners[0].runner, ticks),
        0 <= ticks,
        0 <= i < polls.len(),
    ensures
        polls.done[i] <==> i == ticks,
        i <= ticks,
{
    let reached = if i <= ticks {
        i
    } else {
        ticks
    };
    assert(polls.poll(reached));
    let produced = if polls.done[reached] {
        polls.runners[reached + 1].output@
    } else {
        None
    };
    if reached == 0 {
        immediate_step(
            polls.runners[0].runner,
            ticks,
            polls.worlds[0].0,
            polls.runners[1].runner,
            polls.worlds[0].1,
            produced,
        );
    } else {
        polls_count_down_last(polls, ticks, reached);
    }
}

} // verus!
