//! Actions that wait for the [`Switch`] of the world to be turned.
//!
//! - [`on`]
//! - [`off`]

use crate::action::once::switch::Turn;
use crate::action::switch::{shows_off, shows_on, switch_is_off, switch_is_on, Switch};
use crate::action::wait::{until, UntilRunner};
use crate::action::Action;
use crate::effect::Effect;
use crate::runner::RunnerIntoAction;
use bevy::prelude::World;
use std::marker::PhantomData;
use vstd::prelude::*;

verus! {

/// The condition of [`on`] and [`off`]: whether the world holds the switch of
/// `M`, turned as wanted.
pub struct Turned<M> {
    /// The state to wait for.
    pub turned_on: bool,
    /// Keeps the marker type of the switch.
    pub marker: PhantomData<M>,
}

impl<M> Turned<M> where M: Send + Sync + 'static {
    /// Whether `held`, the switch that was found in the world, is there and is
    /// turned as wanted.
    pub open spec fn wanted(&self, held: Option<&Switch<M>>) -> bool {
        if self.turned_on {
            shows_on(held)
        } else {
            shows_off(held)
        }
    }

    /// Whether `held`, the switch that was found in the world, is there and is
    /// turned as wanted.
    pub fn reached(&self, held: Option<&Switch<M>>) -> (reached: bool)
        ensures
            reached == self.wanted(held),
    {
        if self.turned_on {
            switch_is_on(held)
        } else {
            switch_is_off(held)
        }
    }
}

impl<M> Effect<bool> for Turned<M> where M: Send + Sync + 'static {
    open spec fn ready(&self) -> bool {
        true
    }

    /// The world is looked at and left alone, and so is the condition. What is
    /// returned is whether the switch that the look found in the world is
    /// there and is turned as wanted.
    open spec fn performs(&self, world: World, next: Self, next_world: World, out: bool) -> bool {
        &&& next == *self
        &&& next_world == world
        &&& exists|held: Option<&Switch<M>>| #[trigger]
            Switch::<M>::found_in(world, held) && out == self.wanted(held)
    }

    fn perform(&mut self, world: &mut World) -> (out: bool) {
        let held = Switch::<M>::find(world);
        self.reached(held)
    }
}

/// A wait for the switch to be turned, made on the world that a turn of the
/// switch to that state has left, finds it so, and leaves the world as it is:
/// a task that turns the switch and then waits for that does not wait. This
/// holds where the world could hold the switch.
pub proof fn turned_is_found<M>(
    turn: Turn<M>,
    world: World,
    turned_world: World,
    wait: Turned<M>,
    looked_world: World,
    found: bool,
) where M: Send + Sync + 'static
    requires
        turn.performs(world, turn, turned_world, ()),
        !Switch::<M>::registered_in(world, Some(false)),
        wait.turned_on == turn.turn_on,
        wait.performs(turned_world, wait, looked_world, found),
    ensures
        found,
        looked_world == turned_world,
{
}

/// The action that completes on the first poll that finds the switch of `M`
/// in the world and finds it on.
pub fn on<M>() -> (action: RunnerIntoAction<UntilRunner<Turned<M>>>) where M: Send + Sync + 'static
    ensures
        action.0.condition.turned_on,
        action.inv(),
{
    until(Turned { turned_on: true, marker: PhantomData })
}

/// The action that completes on the first poll that finds the switch of `M`
/// in the world and finds it off.
pub fn off<M>() -> (action: RunnerIntoAction<UntilRunner<Turned<M>>>) where M: Send + Sync + 'static
    ensures
        !action.0.condition.turned_on,
        action.inv(),
{
    until(Turned { turned_on: false, marker: PhantomData })
}

} // verus!
