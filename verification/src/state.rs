//! What a store requires of a state value.

use vstd::prelude::*;

verus! {

/// A state that can hand out snapshots of itself for broadcasting.
/// A snapshot equals the value it was taken from, so every subscriber
/// sees exactly the committed state and a subscriber can never mutate
/// the authoritative value through its copy.
pub trait Snapshot: Sized {
    /// An independent copy, equal to `self`.
    fn snapshot(&self) -> (copy: Self)
        ensures
            copy == *self,
    ;
}

} // verus!
