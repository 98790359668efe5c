//! What the host supplies to the actions: effects on the world, and functions
//! from the output of one action to what comes next.
//!
//! Both are traits, so that a contract can say what an effect or a function
//! does. Closures and functions have them too, with the contract that they were
//! written with.

use bevy::prelude::World;
use vstd::prelude::*;

verus! {

/// Work on the world that returns an `Out`. It may keep state of its own from
/// one call to the next.
pub trait Effect<Out>: Sized {
    /// Holds of an effect that may be performed, on whatever world. Unless an
    /// effect says otherwise, it always may.
    open spec fn ready(&self) -> bool {
        true
    }

    /// The calls that are possible: from `self` and `world` to `next` and
    /// `next_world`, returning `out`. Unless an effect says otherwise, nothing
    /// is known of what it does.
    open spec fn performs(&self, world: World, next: Self, next_world: World, out: Out) -> bool {
        true
    }

    /// Performs the effect.
    fn perform(&mut self, world: &mut World) -> (out: Out)
        requires
            old(self).ready(),
        ensures
            final(self).ready(),
            old(self).performs(*old(world), *final(self), *final(world), out),
    ;
}

/// A closure or function on the world is an effect without state of its own.
/// Of the world that it leaves behind nothing is said here.
impl<Out, F: Fn(&mut World) -> Out> Effect<Out> for F {
    open spec fn ready(&self) -> bool {
        forall|w: &mut World| #[trigger] call_requires(*self, (w,))
    }

    open spec fn performs(&self, world: World, next: Self, next_world: World, out: Out) -> bool {
        &&& next == *self
        &&& exists|w: &mut World| *w == world && #[trigger] call_ensures(*self, (w,), out)
    }

    fn perform(&mut self, world: &mut World) -> (out: Out) {
        (*self)(world)
    }
}

/// A function from an `In` to an `Out`, applied once.
pub trait Transform<In, Out>: Sized {
    /// Whether the function may be applied to `input`. Unless a transform says
    /// otherwise, it may be applied to every input.
    open spec fn accepts(&self, input: In) -> bool {
        true
    }

    /// Whether the function may make `out` of `input`. Unless a transform says
    /// otherwise, nothing is known of what it makes.
    open spec fn transforms(&self, input: In, out: Out) -> bool {
        true
    }

    /// Applies the function.
    fn transform(self, input: In) -> (out: Out)
        requires
            self.accepts(input),
        ensures
            self.transforms(input, out),
    ;
}

/// A closure or function of one argument is a transform.
impl<In, Out, F: FnOnce(In) -> Out> Transform<In, Out> for F {
    open spec fn accepts(&self, input: In) -> bool {
        call_requires(*self, (input,))
    }

    open spec fn transforms(&self, input: In, out: Out) -> bool {
        call_ensures(*self, (input,), out)
    }

    fn transform(self, input: In) -> (out: Out) {
        self(input)
    }
}

} // verus!
