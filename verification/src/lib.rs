//! A single-threaded runtime for a unidirectional state-management loop.
//!
//! Pure decision logic (how the model evolves, which effects it requests) is
//! kept apart from effect execution: a transition function maps a model and an
//! event to a [`Next`] value, an effect-handling function maps a model and an
//! effect to follow-up events, and the [`SerialLoop`] runtime mediates between
//! the two through a FIFO task queue that it drains to a fixpoint.

pub mod builder;
pub mod hooks;
pub mod serial;
pub mod steps;
pub mod transition;

pub use builder::Builder;
pub use hooks::{InitHook, ObserveHook, Supplied, Unset};
pub use serial::SerialLoop;
pub use transition::{First, Next, Task};
