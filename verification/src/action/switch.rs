//! A switch is a structure that represents two states: `on` and `off`.
//!
//! A task turns the switch on to ask for work that only a system of the host can
//! do, and waits for it to be turned off again. The system runs while the switch
//! is on, and turns it off when the work is done.
//!
//! resource
//!
//! - [`Switch`]
//!
//! run conditions
//!
//! - [`switch_is_on`]
//! - [`switch_is_off`]
//! - [`switch_just_turned_on`]
//! - [`switch_just_turned_off`]
//!
//! actions
//!
//! - [`once::switch::on`](crate::action::once::switch::on)
//! - [`once::switch::off`](crate::action::once::switch::off)
//! - [`wait::switch::on`](crate::action::wait::switch::on)
//! - [`wait::switch::off`](crate::action::wait::switch::off)

use bevy::ecs::component::{ComponentId, ComponentInfo};
use bevy::prelude::{Resource, World};
use std::marker::PhantomData;
use vstd::prelude::*;

verus! {

/// Whether a switch is there and is on.
pub open spec fn shows_on<M>(switch: Option<&Switch<M>>) -> bool {
    switch matches Some(s) && s.turned_on
}

/// Whether a switch is there and is off.
pub open spec fn shows_off<M>(switch: Option<&Switch<M>>) -> bool {
    switch matches Some(s) && !s.turned_on
}

/// What an observer makes of the level that it sees, given the level that it
/// saw last (its latch): whether it reports an edge, and its new latch. An edge
/// is reported when the level is up and the latch is not.
pub open spec fn observed(level: bool, latch: bool) -> (bool, bool) {
    (level && !latch, level)
}

/// A run condition that holds while the switch is on.
#[inline]
pub fn switch_is_on<M>(switch: Option<&Switch<M>>) -> (on: bool) where M: Send + Sync + 'static
    ensures
        on == shows_on(switch),
{
    match switch {
        Some(s) => s.is_on(),
        None => false,
    }
}

/// A run condition that holds while the switch is off.
#[inline]
pub fn switch_is_off<M>(switch: Option<&Switch<M>>) -> (off: bool) where M: Send + Sync + 'static
    ensures
        off == shows_off(switch),
{
    match switch {
        Some(s) => s.is_off(),
        None => false,
    }
}

/// A run condition that holds on the first call that finds the switch on, and
/// not again until a call has found it otherwise. `is_on` is the caller's own
/// latch: what the previous call found.
#[inline]
pub fn switch_just_turned_on<M>(switch: Option<&Switch<M>>, is_on: &mut bool) -> (turned: bool) where
    M: Send + Sync + 'static,

    ensures
        (turned, *final(is_on)) == observed(shows_on(switch), *old(is_on)),
{
    if switch_is_on(switch) {
        if *is_on {
            false
        } else {
            *is_on = true;
            true
        }
    } else {
        *is_on = false;
        false
    }
}

/// A run condition that holds on the first call that finds the switch off, and
/// not again until a call has found it otherwise. `is_off` is the caller's own
/// latch: what the previous call found.
#[inline]
pub fn switch_just_turned_off<M>(switch: Option<&Switch<M>>, is_off: &mut bool) -> (turned: bool) where
    M: Send + Sync + 'static,

    ensures
        (turned, *final(is_off)) == observed(shows_off(switch), *old(is_off)),
{
    if switch_is_off(switch) {
        if *is_off {
            false
        } else {
            *is_off = true;
            true
        }
    } else {
        *is_off = false;
        false
    }
}

/// Looks for the switch of `M` among the resources of the world, with bevy's
/// `World::get_resource`.
///
/// Trusted. What is found depends on what the host has put into the world, so
/// nothing is claimed of it; the call only reads. Contracts speak of what it
/// may find as [`Switch::found_in`].
#[verifier::external_body]
fn held_switch<M>(world: &World) -> (held: Option<&Switch<M>>) where M: Send + Sync + 'static {
    world.get_resource::<Switch<M>>()
}

/// An id that bevy gives to a type that is registered with a world.
#[verifier::external_type_specification]
#[verifier::external_body]
pub struct ExComponentId(ComponentId);

/// What bevy keeps of a type that is registered with a world.
#[verifier::external_type_specification]
#[verifier::external_body]
pub struct ExComponentInfo(ComponentInfo);

/// Asks the world for the id under which the type of the switch of `M` is
/// registered as a resource, with bevy's `World::components` and
/// `Components::resource_id`.
///
/// Trusted. What is read depends on what the host has done with the world, so
/// nothing is claimed of it.
#[verifier::external_body]
fn switch_id<M>(world: &World) -> (id: Option<ComponentId>) where M: Send + Sync + 'static {
    world.components().resource_id::<Switch<M>>()
}

/// Asks the world for what it keeps of the type that is registered under
/// `id`, with bevy's `World::components` and `Components::get_info`.
///
/// Trusted. What is read depends on what the host has done with the world, so
/// nothing is claimed of it.
#[verifier::external_body]
fn registered_info(world: &World, id: ComponentId) -> (info: Option<&ComponentInfo>) {
    world.components().get_info(id)
}

/// Reads whether a registered type may be shared between threads, with bevy's
/// `ComponentInfo::is_send_and_sync`.
///
/// Trusted. Nothing is claimed of what is read.
#[verifier::external_body]
fn is_shared(info: &ComponentInfo) -> (shared: bool) {
    info.is_send_and_sync()
}

/// Makes `switch` the switch of `M` among the resources of the world, with
/// bevy's `World::insert_resource`, which overwrites the one that was there.
///
/// Trusted. The call panics where the host has registered the type of the
/// switch as a resource that is bound to one thread, so a world is asked for
/// on which a look at the registration has read otherwise. Of a world that the
/// call has returned, every look for the switch of `M` finds `switch`; nothing
/// else is claimed of it. Contracts speak of the call as [`Switch::put_by`].
#[verifier::external_body]
fn hold_switch<M>(world: &mut World, switch: Switch<M>) where M: Send + Sync + 'static
    requires
        Switch::<M>::holdable(*old(world)),
    ensures
        forall|held: Option<&Switch<M>>| #[trigger]
            Switch::<M>::found_in(*final(world), held) ==> held == Some(&switch),
{
    world.insert_resource(switch);
}

/// An observer that has seen a level reports no edge on seeing it again,
/// whatever its latch was before.
pub proof fn edge_is_reported_once(level: bool, latch: bool)
    ensures
        !observed(level, observed(level, latch).1).0,
{
}

/// An observer that has seen the level down reports an edge when it next sees
/// the level up, and reports it on that look alone. This holds of each observer
/// by itself: what it reports depends on the level and on its own latch, and
/// looking changes neither the level nor the latch of another.
pub proof fn edge_is_reported_after_a_change(latch: bool)
    ensures
        observed(true, observed(false, latch).1) == (true, true),
        observed(true, observed(true, observed(false, latch).1).1) == (false, true),
{
}

/// A switch is a structure that represents two states: `on` and `off`.
///
/// `M` tells one switch from another: the host keeps one switch per marker
/// type.
#[derive(Debug, Eq, PartialEq)]
pub struct Switch<M> {
    /// Set by every change of state.
    pub just_change: bool,
    /// The state: `true` is on.
    pub turned_on: bool,
    /// Keeps the marker type.
    pub marker: PhantomData<M>,
}

/// The host keeps the switch among its resources.
impl<M> Resource for Switch<M> where M: Send + Sync + 'static {
}

impl<M> Switch<M> where M: Send + Sync + 'static {
    /// The switch in the state `turn_on`, marked as just changed if the state
    /// differs from that of `self`.
    pub open spec fn turned(self, turn_on: bool) -> Self {
        Switch {
            just_change: self.just_change || self.turned_on != turn_on,
            turned_on: turn_on,
            marker: self.marker,
        }
    }

    /// Create new Switch with initial status.
    #[inline(always)]
    pub fn new(turn_on: bool) -> (switch: Switch<M>)
        ensures
            switch == Self::fresh(turn_on),
    {
        Self { just_change: true, turned_on: turn_on, marker: PhantomData }
    }

    /// Returns true if switch is on.
    #[inline(always)]
    pub fn is_on(&self) -> (on: bool)
        ensures
            on == self.turned_on,
    {
        self.turned_on
    }

    /// Returns true if switch is off.
    #[inline(always)]
    pub fn is_off(&self) -> (off: bool)
        ensures
            off == !self.turned_on,
    {
        !self.turned_on
    }

    /// Sets turn on or off.
    pub fn set(&mut self, turn_on: bool)
        ensures
            *final(self) == old(self).turned(turn_on),
    {
        if turn_on {
            self.on();
        } else {
            self.off();
        }
    }

    /// Turn on the switch.
    #[inline(always)]
    pub fn on(&mut self)
        ensures
            *final(self) == old(self).turned(true),
    {
        if self.is_off() {
            self.just_change = true;
            self.turned_on = true;
        }
    }

    /// Turn off the switch.
    #[inline(always)]
    pub fn off(&mut self)
        ensures
            *final(self) == old(self).turned(false),
    {
        if self.turned_on {
            self.just_change = true;
            self.turned_on = false;
        }
    }

    /// A copy of the switch, turned to `turn_on`.
    pub fn turned_copy(&self, turn_on: bool) -> (switch: Switch<M>)
        ensures
            switch == self.turned(turn_on),
    {
        let mut switch = Switch {
            just_change: self.just_change,
            turned_on: self.turned_on,
            marker: self.marker,
        };
        switch.set(turn_on);
        switch
    }

    /// A new switch in the state `turn_on`: marked as just changed.
    pub open spec fn fresh(turn_on: bool) -> Self {
        Switch { just_change: true, turned_on: turn_on, marker: PhantomData }
    }

    /// What the world is to hold once the switch has been asked to turn to
    /// `turn_on`, given the switch `held` that was found in it: that switch,
    /// turned; or, where none was found, a new one in that state.
    pub open spec fn turned_or_fresh(held: Option<&Switch<M>>, turn_on: bool) -> Self {
        match held {
            Some(found) => found.turned(turn_on),
            None => Self::fresh(turn_on),
        }
    }

    /// Whether `held` is what a look into `world` for the switch of `M` may
    /// find: a possible outcome of bevy's `World::get_resource` on `world`.
    pub closed spec fn found_in(world: World, held: Option<&Switch<M>>) -> bool {
        call_ensures(held_switch::<M>, (&world,), held)
    }

    /// Whether `shared` is what a look at the registration of the type of the
    /// switch of `M` with `world` may read: `None` where the type is not
    /// registered as a resource, else whether it is registered as one that may
    /// be shared between threads.
    pub closed spec fn registered_in(world: World, shared: Option<bool>) -> bool {
        ||| shared is None && call_ensures(switch_id::<M>, (&world,), None)
        ||| exists|id: ComponentId, info: Option<&ComponentInfo>| #[trigger]
            Self::registered_through(world, shared, id, info)
    }

    /// Whether a look at the registration may read `shared` by way of `id` and
    /// `info`: the type is registered under `id`, and `info` is what the world
    /// keeps of it. A type of which the world keeps nothing is taken for one
    /// that may not be shared.
    closed spec fn registered_through(
        world: World,
        shared: Option<bool>,
        id: ComponentId,
        info: Option<&ComponentInfo>,
    ) -> bool {
        &&& call_ensures(switch_id::<M>, (&world,), Some(id))
        &&& call_ensures(registered_info, (&world, id), info)
        &&& match info {
            Some(kept) => shared matches Some(read) && call_ensures(is_shared, (kept,), read),
            None => shared == Some(false),
        }
    }

    /// Whether a look at `world` tells that it can hold the switch of `M`: the
    /// host has not registered the type of the switch as a resource that is
    /// bound to one thread.
    pub open spec fn holdable(world: World) -> bool {
        exists|shared: Option<bool>| #[trigger]
            Self::registered_in(world, shared) && shared != Some(false)
    }

    /// Whether `world` is a world that was lent to bevy's
    /// `World::insert_resource` together with `switch`: it was the world before
    /// the call, and is the world after it once the call has returned.
    pub closed spec fn put_by(world: &mut World, switch: Switch<M>) -> bool {
        call_ensures(hold_switch::<M>, (world, switch), ())
    }

    /// What is known of a call that has put `switch` into a world, which was
    /// `before` and is `after`, is known of a world that was lent to it.
    proof fn put_is_recorded(before: World, after: World, switch: Switch<M>)
        requires
            exists|lent: &mut World|
                *lent == before && *final(lent) == after && #[trigger] call_ensures(
                    hold_switch::<M>,
                    (lent, switch),
                    (),
                ),
        ensures
            exists|lent: &mut World|
                *lent == before && *final(lent) == after && #[trigger] Self::put_by(lent, switch),
    {
        let lent = choose|lent: &mut World|
            *lent == before && *final(lent) == after && #[trigger] call_ensures(
                hold_switch::<M>,
                (lent, switch),
                (),
            );
        assert(Self::put_by(lent, switch));
    }

    /// Whether every look into `world` for the switch of `M` finds `switch`.
    pub open spec fn holds(world: World, switch: Switch<M>) -> bool {
        forall|found: Option<&Switch<M>>| #[trigger]
            Self::found_in(world, found) ==> found == Some(&switch)
    }

    /// Looks into the world for the switch of `M`.
    pub fn find(world: &World) -> (held: Option<&Switch<M>>)
        ensures
            Self::found_in(*world, held),
    {
        held_switch::<M>(world)
    }

    /// Looks at how the type of the switch of `M` is registered with the
    /// world: `None` where it is not registered as a resource, else whether it
    /// is registered as one that may be shared between threads. A world in
    /// which it is registered otherwise cannot hold the switch.
    pub fn registration(world: &World) -> (shared: Option<bool>)
        ensures
            Self::registered_in(*world, shared),
    {
        match switch_id::<M>(world) {
            None => None,
            Some(id) => {
                let ghost under = id;
                let info = registered_info(world, id);
                let shared = match info {
                    Some(kept) => Some(is_shared(kept)),
                    None => Some(false),
                };
                assert(Self::registered_through(*world, shared, under, info));
                shared
            },
        }
    }

    /// What the world is to hold once the switch has been asked to turn to
    /// `turn_on`, given the switch `held` that was found in it.
    pub fn turned_or_new(held: Option<&Switch<M>>, turn_on: bool) -> (switch: Switch<M>)
        ensures
            switch == Self::turned_or_fresh(held, turn_on),
    {
        match held {
            Some(found) => found.turned_copy(turn_on),
            None => Self::new(turn_on),
        }
    }

    /// Puts a new switch into the world, in the state `turn_on`. It takes the
    /// place of a switch of `M` that the world held. Returns the switch as it
    /// was put there; every look into the world then finds it.
    ///
    /// The world must be one that can hold the switch: see
    /// [`try_setup`](Self::try_setup), which looks first.
    pub fn setup(world: &mut World, turn_on: bool) -> (held: Switch<M>)
        requires
            Self::holdable(*old(world)),
        ensures
            held == Self::fresh(turn_on),
            Self::holds(*final(world), held),
            exists|lent: &mut World|
                *lent == *old(world) && *final(lent) == *final(world) && #[trigger] Self::put_by(
                    lent,
                    held,
                ),
    {
        hold_switch(world, Self::new(turn_on));
        proof {
            Self::put_is_recorded(*old(world), *world, Self::fresh(turn_on));
        }
        Self::new(turn_on)
    }

    /// Turns the switch that the world holds to `turn_on`; where the world
    /// holds none, puts one into it in that state. Returns the switch as it
    /// was put there: what [`turned_or_fresh`](Self::turned_or_fresh) makes of
    /// what was found in the world. Every look into the world then finds it.
    ///
    /// The world must be one that can hold the switch: see
    /// [`try_turn`](Self::try_turn), which looks first.
    pub fn turn(world: &mut World, turn_on: bool) -> (held: Switch<M>)
        requires
            Self::holdable(*old(world)),
        ensures
            held.turned_on == turn_on,
            exists|found: Option<&Switch<M>>| #[trigger]
                Self::found_in(*old(world), found) && held == Self::turned_or_fresh(found, turn_on),
            Self::holds(*final(world), held),
            exists|lent: &mut World|
                *lent == *old(world) && *final(lent) == *final(world) && #[trigger] Self::put_by(
                    lent,
                    held,
                ),
    {
        let found = held_switch::<M>(world);
        let switch = Self::turned_or_new(found, turn_on);
        let held = switch.turned_copy(turn_on);
        assert(Self::found_in(*old(world), found));
        hold_switch(world, switch);
        proof {
            Self::put_is_recorded(*old(world), *world, held);
        }
        held
    }

    /// Looks whether the world can hold the switch of `M`, and puts a new
    /// switch into it as [`setup`](Self::setup) does if it can. Returns the
    /// switch as it was put there, and `None` where the world was left as it
    /// was: where the host has registered the type of the switch as a resource
    /// that is bound to one thread.
    pub fn try_setup(world: &mut World, turn_on: bool) -> (held: Option<Switch<M>>)
        ensures
            held is None ==> *final(world) == *old(world) && Self::registered_in(
                *old(world),
                Some(false),
            ),
            held matches Some(put) ==> {
                &&& Self::holdable(*old(world))
                &&& put == Self::fresh(turn_on)
                &&& Self::holds(*final(world), put)
            },
    {
        match Self::registration(world) {
            Some(false) => None,
            _ => Some(Self::setup(world, turn_on)),
        }
    }

    /// Looks whether the world can hold the switch of `M`, and turns the
    /// switch in it as [`turn`](Self::turn) does if it can. Returns the switch
    /// as it was put there, and `None` where the world was left as it was:
    /// where the host has registered the type of the switch as a resource that
    /// is bound to one thread.
    pub fn try_turn(world: &mut World, turn_on: bool) -> (held: Option<Switch<M>>)
        ensures
            held is None ==> *final(world) == *old(world) && Self::registered_in(
                *old(world),
                Some(false),
            ),
            held matches Some(put) ==> {
                &&& Self::holdable(*old(world))
                &&& exists|found: Option<&Switch<M>>| #[trigger]
                    Self::found_in(*old(world), found) && put == Self::turned_or_fresh(
                        found,
                        turn_on,
                    )
                &&& Self::holds(*final(world), put)
            },
    {
        match Self::registration(world) {
            Some(false) => None,
            _ => Some(Self::turn(world, turn_on)),
        }
    }

    /// Turning the switch to the state that it is in changes nothing, and
    /// turning it twice to one state is turning it once.
    pub proof fn turning_is_idempotent(self, turn_on: bool)
        ensures
            self.turned_on == turn_on ==> self.turned(turn_on) == self,
            self.turned(turn_on).turned(turn_on) == self.turned(turn_on),
    {
    }
}

impl<M> Default for Switch<M> where M: Send + Sync + 'static {
    fn default() -> (switch: Self)
        ensures
            !switch.turned_on,
            switch.just_change,
    {
        Self::new(false)
    }
}

} // verus!
