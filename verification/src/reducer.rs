//! The pure transition policy of a store.

use vstd::prelude::*;

use crate::effect::{Effect, EffectAction};

verus! {

/// A stateless transition policy: `reduce` mutates the state in place
/// and returns an effect describing follow-up work.
///
/// The two spec functions fix the policy mathematically, so a reduction
/// is total and deterministic over the declared action type, and
/// `reduce` must realise exactly that transition. `reduce` is called
/// under the store's exclusive mutation access and must not panic:
/// abnormal termination inside a reduction has no recovery path.
pub trait Reducer: Sized {
    type State;

    type Action;

    /// Work payload this policy routes to a blocking-capable context.
    type SyncWork;

    /// Work payload this policy routes to a cooperative context.
    type AsyncWork;

    /// The state that reducing `a` in state `s` commits.
    spec fn next_state(s: Self::State, a: Self::Action) -> Self::State;

    /// The effect that reducing `a` in state `s` produces.
    spec fn next_effect(s: Self::State, a: Self::Action) -> EffectAction<
        Self::SyncWork,
        Self::AsyncWork,
    >;

    /// One reduction: consumes the action, commits the next state, and
    /// hands back the produced effect.
    fn reduce(&self, state: &mut Self::State, action: Self::Action) -> (eff: Effect<
        Self::SyncWork,
        Self::AsyncWork,
    >)
        ensures
            *final(state) == Self::next_state(*old(state), action),
            eff.action == Self::next_effect(*old(state), action),
    ;
}

} // verus!
