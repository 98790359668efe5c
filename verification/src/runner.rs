//! Runners: the live, steppable instances of actions, with the cancellation
//! token and the output slot that each of them owns.
//!
//! Nothing here is shared behind a reference count. A runner owns its token and
//! its slot, and whoever owns the runner (the host, or the combinator that the
//! runner is a child of) reaches both through it. To cancel a child is to set the
//! flag of the token inside the child; to await it is to take from the slot
//! inside the child.

use crate::action::Action;
use bevy::prelude::World;
use vstd::prelude::*;

verus! {

/// The host's state store. Its content is opaque here: runners carry it to the
/// effects that the host supplied, and contracts speak of it only as a value.
#[verifier::external_type_specification]
#[verifier::external_body]
pub struct ExWorld(World);

/// A cooperative cancel flag. Once set it stays set: no operation clears it.
#[derive(Debug)]
pub struct CancellationToken {
    requested: bool,
}

impl View for CancellationToken {
    type V = bool;

    /// Whether cancellation has been requested.
    closed spec fn view(&self) -> bool {
        self.requested
    }
}

impl CancellationToken {
    /// A token on which nothing has been requested yet.
    pub fn new() -> (token: Self)
        ensures
            !token@,
    {
        CancellationToken { requested: false }
    }

    /// Requests cancellation.
    pub fn cancel(&mut self)
        ensures
            final(self)@,
    {
        self.requested = true;
    }

    /// Whether cancellation has been requested.
    pub fn requested_cancel(&self) -> (requested: bool)
        ensures
            requested == self@,
    {
        self.requested
    }
}

/// A call made on a token.
pub enum TokenCall {
    /// A call of `cancel`.
    Cancel,
    /// A call of `requested_cancel`.
    RequestedCancel,
}

impl CancellationToken {
    /// The flag of a token that started as `start`, after `calls` in order:
    /// `cancel` sets it, and nothing else touches it.
    pub open spec fn flag_after(start: bool, calls: Seq<TokenCall>) -> bool
        decreases calls.len(),
    {
        if calls.len() == 0 {
            start
        } else {
            calls.last() is Cancel || Self::flag_after(start, calls.drop_last())
        }
    }

    /// Once `cancel` has been called, the flag is set after every later call,
    /// so every later `requested_cancel` answers `true`.
    pub proof fn cancel_is_permanent(start: bool, calls: Seq<TokenCall>, at: int)
        requires
            0 <= at < calls.len(),
            calls[at] is Cancel,
        ensures
            Self::flag_after(start, calls),
        decreases calls.len(),
    {
        if at < calls.len() - 1 {
            Self::cancel_is_permanent(start, calls.drop_last(), at);
        }
    }

    /// A second `cancel` changes nothing.
    pub proof fn cancel_is_idempotent(start: bool, calls: Seq<TokenCall>)
        ensures
            Self::flag_after(start, calls.push(TokenCall::Cancel).push(TokenCall::Cancel))
                == Self::flag_after(start, calls.push(TokenCall::Cancel)),
    {
        let once = calls.push(TokenCall::Cancel);
        assert(once.push(TokenCall::Cancel).drop_last() == once);
        assert(once.drop_last() == calls);
    }
}

impl Default for CancellationToken {
    fn default() -> (token: Self)
        ensures
            !token@,
    {
        CancellationToken::new()
    }
}

/// A slot for the one value that a runner produces. It holds at most one value;
/// writing replaces what was there, and taking empties it.
#[derive(Debug)]
pub struct TaskOutput<O> {
    value: Option<O>,
}

impl<O> View for TaskOutput<O> {
    type V = Option<O>;

    /// The value that the slot holds, if any.
    closed spec fn view(&self) -> Option<O> {
        self.value
    }
}

impl<O> TaskOutput<O> {
    /// An empty slot.
    pub fn new() -> (slot: Self)
        ensures
            slot@ is None,
    {
        TaskOutput { value: None }
    }

    /// Returns what the slot holds and leaves it empty.
    pub fn take(&mut self) -> (taken: Option<O>)
        ensures
            taken == old(self)@,
            final(self)@ is None,
    {
        self.value.take()
    }

    /// Stores `value`, dropping a value that was not taken.
    pub fn replace(&mut self, value: O)
        ensures
            final(self)@ == Some(value),
    {
        self.value = Some(value);
    }
}

/// A call made on a slot.
pub enum SlotCall<O> {
    /// A call of `take`.
    Take,
    /// A call of `replace`, with the value that it stores.
    Replace(O),
}

impl<O> TaskOutput<O> {
    /// What a slot that started as `start` holds after `calls` in order: what
    /// the last call left in it.
    pub open spec fn held_after(start: Option<O>, calls: Seq<SlotCall<O>>) -> Option<O> {
        if calls.len() == 0 {
            start
        } else {
            match calls.last() {
                SlotCall::Take => None,
                SlotCall::Replace(value) => Some(value),
            }
        }
    }

    /// Whether `calls` hold no `replace`.
    pub open spec fn none_replaces(calls: Seq<SlotCall<O>>) -> bool {
        forall|i: int| 0 <= i < calls.len() ==> !(#[trigger] calls[i] is Replace)
    }

    /// Whether `calls` hold no `take`.
    pub open spec fn none_takes(calls: Seq<SlotCall<O>>) -> bool {
        forall|i: int| 0 <= i < calls.len() ==> !(#[trigger] calls[i] is Take)
    }

    /// After a `take`, the slot is empty for as long as nothing is stored: the
    /// next `take` returns `None`, so a value is taken at most once.
    pub proof fn empty_since_take(start: Option<O>, calls: Seq<SlotCall<O>>, since: Seq<SlotCall<O>>)
        requires
            Self::none_replaces(since),
        ensures
            Self::held_after(start, calls.push(SlotCall::Take) + since) is None,
    {
        let all = calls.push(SlotCall::Take) + since;
        if since.len() > 0 {
            assert(all.last() == since[since.len() - 1]);
        } else {
            assert(all.last() == SlotCall::<O>::Take);
        }
    }

    /// After a `replace`, the slot holds a value until it is taken: the next
    /// `take` returns the value that was stored last.
    pub proof fn full_since_replace(
        start: Option<O>,
        calls: Seq<SlotCall<O>>,
        value: O,
        since: Seq<SlotCall<O>>,
    )
        requires
            Self::none_takes(since),
        ensures
            Self::held_after(start, calls.push(SlotCall::Replace(value)) + since) is Some,
            Self::none_replaces(since) ==> Self::held_after(
                start,
                calls.push(SlotCall::Replace(value)) + since,
            ) == Some(value),
    {
        let all = calls.push(SlotCall::Replace(value)) + since;
        if since.len() > 0 {
            assert(all.last() == since[since.len() - 1]);
        } else {
            assert(all.last() == SlotCall::Replace(value));
        }
    }
}

impl<O> Default for TaskOutput<O> {
    fn default() -> (slot: Self)
        ensures
            slot@ is None,
    {
        TaskOutput::new()
    }
}

/// The work of a runner: one poll, made with the token and the slot that it was
/// created for.
///
/// `step` and `cancelled` say what a poll may do; `run_with_task_output` is held
/// to them, and to the rules that every runner obeys:
///
/// - a poll never touches the flag of its own token;
/// - a poll that finds cancellation requested reports completion at once, and
///   leaves the slot and the world as they were;
/// - any other poll writes the slot exactly when it reports completion;
/// - a runner that has reported completion is not polled again: only a poll
///   that reports no completion is known to keep `inv`. A runner of which
///   cancellation is requested may be polled whatever state it is in.
pub trait RunWithTaskOutput<Out>: Sized {
    /// The input of the action that the runner was made from.
    type In;

    /// Holds of a runner that may be polled while no cancellation is requested.
    /// Unless a runner says otherwise, it always may.
    open spec fn inv(&self) -> bool {
        true
    }

    /// The polls that are possible while no cancellation is requested: from
    /// `self` and `world` to `next` and `next_world`. `produced` is the value
    /// written to the slot, and `None` if the runner has not completed. Unless a
    /// runner says otherwise, nothing is known of its polls.
    open spec fn step(&self, world: World, next: Self, next_world: World, produced: Option<Out>) -> bool {
        true
    }

    /// What a poll that finds cancellation requested makes of the runner.
    /// Unless a runner says otherwise, nothing is known of it.
    open spec fn cancelled(&self, next: Self) -> bool {
        true
    }

    /// Tries to make progress, and says whether the work is complete.
    fn run_with_task_output(
        &mut self,
        token: &mut CancellationToken,
        output: &mut TaskOutput<Out>,
        world: &mut World,
    ) -> (done: bool)
        requires
            old(token)@ || old(self).inv(),
        ensures
            final(token)@ == old(token)@,
            old(token)@ ==> {
                &&& done
                &&& final(output)@ == old(output)@
                &&& *final(world) == *old(world)
                &&& old(self).cancelled(*final(self))
            },
            !old(token)@ ==> old(self).step(
                *old(world),
                *final(self),
                *final(world),
                if done {
                    final(output)@
                } else {
                    None
                },
            ),
            !old(token)@ && done ==> final(output)@ is Some,
            !done ==> final(output)@ == old(output)@ && final(self).inv(),
    ;
}

/// A live unit of work: what is polled, with the token that cancels it and the
/// slot that its result is written to.
pub struct TaskRunner<Out, R> {
    /// Requests made of this runner. Whoever owns the runner may cancel it.
    pub token: CancellationToken,
    /// Where the result appears once the runner has completed.
    pub output: TaskOutput<Out>,
    /// The work itself.
    pub runner: R,
}

impl<Out, R: RunWithTaskOutput<Out>> TaskRunner<Out, R> {
    /// Holds of a runner that may be polled while no cancellation is requested
    /// of it.
    pub open spec fn inv(&self) -> bool {
        self.runner.inv()
    }

    /// Holds of a runner that a combinator keeps as a child between two polls:
    /// it may be polled, it has not been cancelled, and its slot is empty.
    pub open spec fn idle(&self) -> bool {
        &&& self.runner.inv()
        &&& !self.token@
        &&& self.output@ is None
    }

    /// The polls that are possible: from `self` and `world` to `next` and
    /// `next_world`, reporting `done`.
    pub open spec fn polled(&self, world: World, next: Self, next_world: World, done: bool) -> bool {
        &&& next.token@ == self.token@
        &&& if self.token@ {
            &&& done
            &&& next.output@ == self.output@
            &&& next_world == world
            &&& self.runner.cancelled(next.runner)
        } else {
            &&& self.runner.step(
                world,
                next.runner,
                next_world,
                if done {
                    next.output@
                } else {
                    None
                },
            )
            &&& done ==> next.output@ is Some
            &&& !done ==> next.output@ == self.output@ && next.runner.inv()
        }
    }

    /// Binds `runner` to the token and the slot that it is to work with.
    pub fn new(runner: R, token: CancellationToken, output: TaskOutput<Out>) -> (bound: Self)
        ensures
            bound.token@ == token@,
            bound.output@ == output@,
            bound.runner == runner,
    {
        TaskRunner { token, output, runner }
    }

    /// Polls the runner once: the one call that the host makes per tick, until
    /// it returns `true`.
    pub fn run(&mut self, world: &mut World) -> (done: bool)
        requires
            old(self).token@ || old(self).inv(),
        ensures
            old(self).polled(*old(world), *final(self), *final(world), done),
    {
        self.runner.run_with_task_output(&mut self.token, &mut self.output, world)
    }
}

/// A run of polls of one runner, as the host makes them: each poll starts from
/// what the poll before it left of the runner, and none follows a poll that
/// reported completion. Between two polls the host may do to the world what it
/// likes.
pub struct Polls<Out, R> {
    /// The runner before each poll, and at the end what the last poll left of
    /// it.
    pub runners: Seq<TaskRunner<Out, R>>,
    /// The world before and after each poll.
    pub worlds: Seq<(World, World)>,
    /// What each poll reported.
    pub done: Seq<bool>,
}

impl<Out, R: RunWithTaskOutput<Out>> Polls<Out, R> {
    /// The number of polls.
    pub open spec fn len(self) -> nat {
        self.done.len()
    }

    /// Whether poll `i` is a poll that the runner can make.
    pub open spec fn poll(self, i: int) -> bool {
        self.runners[i].polled(self.worlds[i].0, self.runners[i + 1], self.worlds[i].1, self.done[i])
    }

    /// Whether this is a run of polls.
    pub open spec fn wf(self) -> bool {
        &&& self.runners.len() == self.done.len() + 1
        &&& self.worlds.len() == self.done.len()
        &&& forall|i: int| 0 <= i < self.done.len() ==> #[trigger] self.poll(i)
        &&& forall|i: int| 0 <= i < self.done.len() - 1 ==> !#[trigger] self.done[i]
    }
}

/// The action that starts from a given runner.
pub struct RunnerIntoAction<R>(pub R);

impl<R> RunnerIntoAction<R> {
    /// The action whose runner is `runner`.
    pub fn new(runner: R) -> (action: Self)
        ensures
            action.0 == runner,
    {
        RunnerIntoAction(runner)
    }
}

impl<Out, R: RunWithTaskOutput<Out>> Action<R::In, Out> for RunnerIntoAction<R> {
    type Runner = R;

    open spec fn inv(&self) -> bool {
        self.0.inv()
    }

    open spec fn runner(self) -> R {
        self.0
    }

    fn to_runner(self, token: CancellationToken, output: TaskOutput<Out>) -> (bound: TaskRunner<Out, R>) {
        TaskRunner::new(self.0, token, output)
    }
}

} // verus!
