//! A unidirectional, effect-driven state container.
//!
//! A single authoritative state value is updated only through a pure
//! transition policy (a [`reducer::Reducer`]); any side-effecting work a
//! transition requires is described as an inert [`effect::Effect`] value
//! and routed by a [`scheduler::Scheduler`] to a caller-supplied
//! execution context. The [`store::Store`] serializes dispatch, keeps a
//! log of committed snapshots for its subscribers, and hands each
//! produced effect to the scheduler.

pub mod effect;
pub mod reducer;
pub mod samples;
pub mod scheduler;
pub mod state;
pub mod store;
