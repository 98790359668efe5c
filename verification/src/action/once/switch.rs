//! Actions that turn the [`Switch`] of the world.
//!
//! - [`on`]
//! - [`off`]

use crate::action::once::{once, OnceRunner};
use crate::action::switch::Switch;
use crate::action::Action;
use crate::effect::Effect;
use crate::runner::RunnerIntoAction;
use bevy::prelude::World;
use std::marker::PhantomData;
use vstd::prelude::*;

verus! {

/// The effect of [`on`] and [`off`]: turns the switch of `M`.
pub struct Turn<M> {
    /// The state to turn the switch to.
    pub turn_on: bool,
    /// Keeps the marker type of the switch.
    pub marker: PhantomData<M>,
}

impl<M> Effect<()> for Turn<M> where M: Send + Sync + 'static {
    open spec fn ready(&self) -> bool {
        true
    }

    /// The effect stays as it is. Where the world can hold the switch, it is
    /// looked into for the switch of `M`, and every look into the world that is
    /// left finds what [`Switch::turned_or_fresh`] makes of what was found: the
    /// switch that was there, turned, or a new one. Where the world cannot hold
    /// the switch, it is left as it was.
    open spec fn performs(&self, world: World, next: Self, next_world: World, out: ()) -> bool {
        &&& next == *self
        &&& {
            ||| Switch::<M>::registered_in(world, Some(false)) && next_world == world
            ||| Switch::<M>::holdable(world) && exists|found: Option<&Switch<M>>| #[trigger]
                Switch::<M>::found_in(world, found) && Switch::<M>::holds(
                    next_world,
                    Switch::<M>::turned_or_fresh(found, self.turn_on),
                )
        }
    }

    fn perform(&mut self, world: &mut World) -> (out: ()) {
        let _ = Switch::<M>::try_turn(world, self.turn_on);
    }
}

/// The action that turns the switch of `M` on, on its first poll. Where the
/// world holds no such switch, one is made, turned on.
pub fn on<M>() -> (action: RunnerIntoAction<OnceRunner<Turn<M>>>) where M: Send + Sync + 'static
    ensures
        action.0.effect.turn_on,
        action.inv(),
{
    once(Turn { turn_on: true, marker: PhantomData })
}

/// The action that turns the switch of `M` off, on its first poll. Where the
/// world holds no such switch, one is made, turned off.
pub fn off<M>() -> (action: RunnerIntoAction<OnceRunner<Turn<M>>>) where M: Send + Sync + 'static
    ensures
        !action.0.effect.turn_on,
        action.inv(),
{
    once(Turn { turn_on: false, marker: PhantomData })
}

} // verus!
