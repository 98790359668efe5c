//! The names that most users of the crate need.

pub use crate::action::delay::delay;
pub use crate::action::once::{self, once};
pub use crate::action::pipe::pipe;
pub use crate::action::seed::seed;
pub use crate::action::select::switch;
pub use crate::action::sequence::sequence;
pub use crate::action::switch::{
    switch_is_off, switch_is_on, switch_just_turned_off, switch_just_turned_on, Switch,
};
pub use crate::action::wait;
pub use crate::action::{to_tuple, Action};
pub use crate::effect::{Effect, Transform};
pub use crate::runner::{CancellationToken, RunWithTaskOutput, RunnerIntoAction, TaskOutput, TaskRunner};
