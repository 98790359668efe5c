//! Cooperative, tick-driven tasks over a bevy [`World`](bevy::prelude::World).
//!
//! An [`Action`](action::Action) describes a unit of work. Handed a
//! [`CancellationToken`](runner::CancellationToken) and a
//! [`TaskOutput`](runner::TaskOutput) it becomes a
//! [`TaskRunner`](runner::TaskRunner), which the host polls once per tick until it
//! reports completion. The combinators under [`action`] build actions out of
//! other actions, and [`Switch`](action::switch::Switch) is the two-state flag by
//! which a task and a system of the host hand work to each other.
//!
//! What the host supplies is an [`Effect`](effect::Effect) or a
//! [`Transform`](effect::Transform). Closures are both. Verified code that wants
//! to know what its effects and transforms do gives them a type of their own
//! and implements the trait for it, or stays generic over the closure's type:
//! of a closure whose type is known Verus proves nothing through a trait.

pub mod action;
pub mod effect;
pub mod prelude;
pub mod runner;
