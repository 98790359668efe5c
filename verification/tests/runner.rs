use bevy::prelude::{Resource, World};
use bevy_flurx::prelude::{
    delay, once, pipe, seed, sequence, switch, to_tuple, wait, Action, CancellationToken,
    RunWithTaskOutput, RunnerIntoAction, TaskOutput, TaskRunner,
};

struct Count(usize);

impl Resource for Count {}

fn world_with_count(start: usize) -> World {
    let mut world = World::new();
    world.insert_resource(Count(start));
    world
}

fn count(world: &World) -> usize {
    world.resource::<Count>().0
}

fn bump(world: &mut World) -> usize {
    let mut count = world.resource_mut::<Count>();
    count.0 += 1;
    count.0
}

fn start<I, O, A: Action<I, O>>(action: A) -> TaskRunner<O, A::Runner> {
    action.to_runner(CancellationToken::new(), TaskOutput::new())
}

/// Polls until the runner completes, and returns the tick on which it did.
fn ticks_to_complete<O, R: RunWithTaskOutput<O>>(runner: &mut TaskRunner<O, R>, world: &mut World) -> usize {
    let mut tick = 1;
    while !runner.run(world) {
        tick += 1;
        assert!(tick < 1000);
    }
    tick
}

#[test]
fn token_stays_cancelled() {
    let mut token = CancellationToken::new();
    assert!(!token.requested_cancel());
    assert!(!token.requested_cancel());
    token.cancel();
    assert!(token.requested_cancel());
    token.cancel();
    assert!(token.requested_cancel());
    assert!(token.requested_cancel());
    assert!(!CancellationToken::default().requested_cancel());
}

#[test]
fn output_is_taken_once() {
    let mut output = TaskOutput::<u32>::new();
    assert_eq!(output.take(), None);
    output.replace(3);
    assert_eq!(output.take(), Some(3));
    assert_eq!(output.take(), None);
    assert_eq!(TaskOutput::<u32>::default().take(), None);
}

#[test]
fn output_keeps_the_last_value() {
    let mut output = TaskOutput::new();
    output.replace(1);
    output.replace(2);
    assert_eq!(output.take(), Some(2));
    assert_eq!(output.take(), None);
}

#[test]
fn to_runner_binds_token_and_output() {
    let mut token = CancellationToken::new();
    token.cancel();
    let mut output = TaskOutput::new();
    output.replace(9);
    let mut runner = seed(1).to_runner(token, output);
    assert!(runner.token.requested_cancel());
    assert_eq!(runner.output.take(), Some(9));
}

#[test]
fn runner_into_action_starts_from_its_runner() {
    let mut world = World::new();
    let inner = start(delay(1)).runner;
    let mut runner = start(RunnerIntoAction::new(inner));
    assert!(!runner.run(&mut world));
    assert!(runner.run(&mut world));
}

#[test]
fn once_completes_on_the_first_poll() {
    let mut world = world_with_count(4);
    let mut runner = start(once(bump));
    assert_eq!(count(&world), 4);
    assert!(runner.run(&mut world));
    assert_eq!(count(&world), 5);
    assert_eq!(runner.output.take(), Some(5));
}

#[test]
fn once_completes_whatever_the_world_holds() {
    for held in [0, 1, 17, 4000] {
        let mut world = world_with_count(held);
        let mut runner = start(once(|world: &mut World| count(world) * 2));
        assert!(runner.run(&mut world));
        assert_eq!(runner.output.take(), Some(held * 2));
    }
}

#[test]
fn cancelled_once_has_no_effect() {
    let mut world = world_with_count(0);
    let mut runner = start(once(bump));
    runner.token.cancel();
    assert!(runner.run(&mut world));
    assert_eq!(count(&world), 0);
    assert_eq!(runner.output.take(), None);
}

#[test]
fn seed_produces_its_value_at_once() {
    let mut world = World::new();
    let mut runner = start(seed("fixed"));
    assert!(runner.run(&mut world));
    assert_eq!(runner.output.take(), Some("fixed"));
}

#[test]
fn cancelled_seed_produces_nothing() {
    let mut world = World::new();
    let mut runner = start(seed(1));
    runner.token.cancel();
    assert!(runner.run(&mut world));
    assert_eq!(runner.output.take(), None);
}

#[test]
fn delay_holds_for_its_ticks() {
    let mut world = World::new();
    let mut runner = start(delay(0));
    assert!(runner.run(&mut world));
    assert_eq!(runner.output.take(), Some(()));

    let mut runner = start(delay(3));
    assert!(!runner.run(&mut world));
    assert_eq!(runner.output.take(), None);
    assert!(!runner.run(&mut world));
    assert!(!runner.run(&mut world));
    assert_eq!(runner.runner.remaining, 0);
    assert!(runner.run(&mut world));
    assert_eq!(runner.output.take(), Some(()));
}

#[test]
fn cancelled_delay_completes_at_once() {
    let mut world = World::new();
    let mut runner = start(delay(5));
    assert!(!runner.run(&mut world));
    runner.token.cancel();
    assert!(runner.run(&mut world));
    assert_eq!(runner.output.take(), None);
    assert_eq!(runner.runner.remaining, 4);
}

#[test]
fn wait_until_completes_when_the_condition_holds() {
    let mut world = world_with_count(0);
    let mut runner = start(wait::until(|world: &mut World| count(world) >= 2));
    assert!(!runner.run(&mut world));
    bump(&mut world);
    assert!(!runner.run(&mut world));
    assert_eq!(runner.output.take(), None);
    bump(&mut world);
    assert!(runner.run(&mut world));
    assert_eq!(runner.output.take(), Some(()));
}

#[test]
fn wait_output_completes_with_the_value() {
    let mut world = world_with_count(0);
    let mut runner = start(wait::output(|world: &mut World| {
        if bump(world) == 3 {
            Some("three")
        } else {
            None
        }
    }));
    assert_eq!(ticks_to_complete(&mut runner, &mut world), 3);
    assert_eq!(runner.output.take(), Some("three"));
    assert_eq!(count(&world), 3);
}

#[test]
fn cancelled_wait_tests_nothing() {
    let mut world = world_with_count(0);
    let mut runner = start(wait::until(|world: &mut World| bump(world) > 100));
    assert!(!runner.run(&mut world));
    assert_eq!(count(&world), 1);
    runner.token.cancel();
    assert!(runner.run(&mut world));
    assert_eq!(count(&world), 1);
    assert_eq!(runner.output.take(), None);

    let mut runner = start(wait::output(|world: &mut World| Some(bump(world))));
    runner.token.cancel();
    assert!(runner.run(&mut world));
    assert_eq!(count(&world), 1);
    assert_eq!(runner.output.take(), None);
}

#[test]
fn pipe_changes_the_value_and_not_the_timing() {
    let mut world = World::new();
    let mut plain = start(delay(2));
    let mut piped = start(pipe(delay(2), |_| 7));
    assert_eq!(ticks_to_complete(&mut plain, &mut world), 3);
    assert_eq!(ticks_to_complete(&mut piped, &mut world), 3);
    assert_eq!(piped.output.take(), Some(7));

    let mut piped = start(pipe(seed(20), |v: i32| v + 1));
    assert!(piped.run(&mut world));
    assert_eq!(piped.output.take(), Some(21));
}

#[test]
fn cancelled_pipe_cancels_its_child() {
    let mut world = World::new();
    let mut piped = start(pipe(delay(2), |_| 7));
    assert!(!piped.run(&mut world));
    assert!(!piped.runner.child.token.requested_cancel());
    piped.token.cancel();
    assert!(piped.run(&mut world));
    assert!(piped.runner.child.token.requested_cancel());
    assert_eq!(piped.runner.child.runner.remaining, 1);
    assert_eq!(piped.output.take(), None);
}

#[test]
fn to_tuple_wraps_the_output() {
    let mut world = World::new();
    let mut runner = start(to_tuple(seed(5)));
    assert!(runner.run(&mut world));
    assert_eq!(runner.output.take(), Some((5,)));

    let mut runner = start(to_tuple(pipe(delay(1), |_| "late")));
    assert!(!runner.run(&mut world));
    assert_eq!(runner.output.take(), None);
    assert!(runner.run(&mut world));
    assert_eq!(runner.output.take(), Some(("late",)));
}

#[test]
fn cancelled_to_tuple_cancels_its_child() {
    let mut world = world_with_count(0);
    let mut runner = start(to_tuple(once(bump)));
    runner.token.cancel();
    assert!(runner.run(&mut world));
    assert!(runner.runner.child.token.requested_cancel());
    assert_eq!(count(&world), 0);
    assert_eq!(runner.output.take(), None);
}

#[test]
fn sequence_feeds_the_first_output_to_the_second() {
    let mut world = world_with_count(10);
    let mut runner = start(sequence(seed(5), |v: usize| {
        once(move |world: &mut World| bump(world) + v)
    }));
    assert!(runner.run(&mut world));
    assert_eq!(runner.output.take(), Some(16));
}

#[test]
fn sequence_makes_the_second_stage_when_the_first_completes() {
    let mut world = world_with_count(0);
    let mut runner = start(sequence(delay(2), |_| once(bump)));
    assert!(!runner.run(&mut world));
    assert!(runner.runner.second.is_none());
    assert!(runner.runner.first.is_some());
    assert_eq!(count(&world), 0);
    assert!(!runner.run(&mut world));
    assert!(runner.runner.second.is_none());
    assert_eq!(count(&world), 0);
    assert!(runner.run(&mut world));
    assert!(runner.runner.second.is_some());
    assert!(runner.runner.first.is_none());
    assert_eq!(count(&world), 1);
    assert_eq!(runner.output.take(), Some(1));
}

#[test]
fn sequence_polls_only_the_second_stage_once_it_runs() {
    let mut world = world_with_count(0);
    let mut runner = start(sequence(once(bump), |_| {
        wait::until(|world: &mut World| bump(world) >= 4)
    }));
    assert!(!runner.run(&mut world));
    assert_eq!(count(&world), 2);
    assert!(!runner.run(&mut world));
    assert_eq!(count(&world), 3);
    assert!(runner.run(&mut world));
    assert_eq!(count(&world), 4);
    assert_eq!(runner.output.take(), Some(()));
}

#[test]
fn delay_adds_its_ticks_to_a_sequence() {
    for ticks in [0, 1, 2, 5] {
        let mut world = world_with_count(0);
        let mut alone = start(once(bump));
        assert_eq!(ticks_to_complete(&mut alone, &mut world), 1);

        let mut after = start(sequence(delay(ticks), |_| once(bump)));
        assert_eq!(ticks_to_complete(&mut after, &mut world), 1 + ticks);
        assert_eq!(after.output.take(), Some(2));

        let mut before = start(sequence(once(bump), move |_| delay(ticks)));
        assert_eq!(ticks_to_complete(&mut before, &mut world), 1 + ticks);
        assert_eq!(before.output.take(), Some(()));
    }
}

#[test]
fn cancelled_sequence_never_makes_the_second_stage() {
    let mut world = world_with_count(0);
    let mut runner = start(sequence(delay(1), |_| once(bump)));
    assert!(!runner.run(&mut world));
    runner.token.cancel();
    assert!(runner.run(&mut world));
    assert!(runner.runner.second.is_none());
    assert!(runner.runner.continuation.is_some());
    assert!(runner.runner.first.as_ref().is_some_and(|a| a.token.requested_cancel()));
    assert_eq!(count(&world), 0);
    assert_eq!(runner.output.take(), None);
}

#[test]
fn cancelled_sequence_cancels_the_second_stage_when_it_runs() {
    let mut world = world_with_count(0);
    let mut runner = start(sequence(seed(()), |_| delay(3)));
    assert!(!runner.run(&mut world));
    runner.token.cancel();
    assert!(runner.run(&mut world));
    assert!(runner.runner.second.as_ref().is_some_and(|b| b.token.requested_cancel()));
    assert_eq!(runner.output.take(), None);
}

#[test]
fn switch_completes_with_the_first_to_complete() {
    let mut world = World::new();
    let mut a = start(pipe(delay(1), |_| "a"));
    let mut b = start(pipe(delay(2), |_| "b"));
    assert_eq!(ticks_to_complete(&mut a, &mut world), 2);
    assert_eq!(ticks_to_complete(&mut b, &mut world), 3);

    let mut runner = start(switch(pipe(delay(1), |_| "a"), pipe(delay(2), |_| "b")));
    assert!(!runner.run(&mut world));
    assert!(!runner.runner.first.token.requested_cancel());
    assert!(!runner.runner.second.token.requested_cancel());
    assert!(runner.run(&mut world));
    assert_eq!(runner.output.take(), Some("a"));
    assert!(runner.runner.second.token.requested_cancel());
    assert!(!runner.runner.first.token.requested_cancel());
    assert_eq!(runner.runner.second.output.take(), None);
}

#[test]
fn switch_takes_the_second_when_it_is_faster() {
    let mut world = World::new();
    let mut runner = start(switch(pipe(delay(4), |_| "a"), pipe(delay(1), |_| "b")));
    assert_eq!(ticks_to_complete(&mut runner, &mut world), 2);
    assert_eq!(runner.output.take(), Some("b"));
    assert!(runner.runner.first.token.requested_cancel());
    assert!(!runner.runner.second.token.requested_cancel());
}

#[test]
fn switch_prefers_the_first_on_a_tie() {
    let mut world = world_with_count(0);
    let mut runner = start(switch(pipe(once(bump), |_| "a"), pipe(once(bump), |_| "b")));
    assert!(runner.run(&mut world));
    assert_eq!(count(&world), 2);
    assert_eq!(runner.output.take(), Some("a"));
    assert!(runner.runner.second.token.requested_cancel());
    assert_eq!(runner.runner.second.output.take(), Some("b"));
}

#[test]
fn cancelled_switch_cancels_both() {
    let mut world = world_with_count(0);
    let mut runner = start(switch(once(bump), once(bump)));
    runner.token.cancel();
    assert!(runner.run(&mut world));
    assert!(runner.runner.first.token.requested_cancel());
    assert!(runner.runner.second.token.requested_cancel());
    assert_eq!(count(&world), 0);
    assert_eq!(runner.output.take(), None);
}

#[test]
fn timeout_is_a_switch_with_a_delay() {
    let mut world = world_with_count(0);
    let mut runner = start(switch(
        pipe(wait::until(|world: &mut World| count(world) > 0), |_| true),
        pipe(delay(2), |_| false),
    ));
    assert_eq!(ticks_to_complete(&mut runner, &mut world), 3);
    assert_eq!(runner.output.take(), Some(false));
}

#[test]
fn cancelled_runner_may_be_polled_whatever_its_children_hold() {
    let mut world = world_with_count(0);
    let mut runner = start(to_tuple(once(bump)));
    runner.runner.child.token.cancel();
    runner.runner.child.output.replace(9);
    runner.token.cancel();
    assert!(runner.run(&mut world));
    assert!(runner.runner.child.token.requested_cancel());
    assert_eq!(runner.output.take(), None);
    assert_eq!(runner.runner.child.output.take(), Some(9));
    assert_eq!(count(&world), 0);

    let mut runner = start(sequence(delay(1), |_| once(bump)));
    runner.runner.first = None;
    runner.token.cancel();
    assert!(runner.run(&mut world));
    assert!(runner.runner.first.is_none());
    assert!(runner.runner.second.is_none());
    assert_eq!(runner.output.take(), None);
    assert_eq!(count(&world), 0);
}
