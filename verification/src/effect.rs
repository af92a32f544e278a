//! Inert descriptions of side-effecting work.
//!
//! An effect is purely data: constructing one does nothing. `W` is a
//! payload destined for a blocking-capable execution context and `T` a
//! payload destined for a cooperative (suspendable) one; what the
//! payloads mean is the business of whoever runs them.

use vstd::prelude::*;

verus! {

/// What an effect asks of the execution context: nothing, one piece of
/// blocking work, or one piece of cooperative work.
pub enum EffectAction<W, T> {
    Nothing,
    Sync(W),
    Async(T),
}

/// A declarative description of zero or one piece of follow-up work.
/// An effect carries no reference to any store; it is reconnected to one
/// only by whoever executes its payload.
pub struct Effect<W, T> {
    pub action: EffectAction<W, T>,
}

impl<W, T> Effect<W, T> {
    /// An effect that performs no work and produces no actions.
    pub fn none() -> (e: Self)
        ensures
            e.action == EffectAction::<W, T>::Nothing,
    {
        Effect { action: EffectAction::Nothing }
    }

    /// Wraps work for a blocking-capable context; while it runs, the
    /// work may emit any number of actions back into a store.
    pub fn run_sync(work: W) -> (e: Self)
        ensures
            e.action == EffectAction::<W, T>::Sync(work),
    {
        Effect { action: EffectAction::Sync(work) }
    }

    /// Wraps work for a cooperative context: a suspendable task, started
    /// exactly once, that may emit actions over its whole lifetime.
    pub fn run_async(work: T) -> (e: Self)
        ensures
            e.action == EffectAction::<W, T>::Async(work),
    {
        Effect { action: EffectAction::Async(work) }
    }
}

} // verus!
