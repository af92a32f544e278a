//! The owner of the authoritative state.
//!
//! A store serializes mutation — every dispatch runs the reducer under
//! exclusive access — commits exactly one snapshot per dispatch to a
//! log, and hands the produced effect to its scheduler. Subscribers are
//! cursors into the log: each sees the state current at subscription
//! time first and then every later commit, in commit order, with no
//! commit lost or duplicated.

use vstd::prelude::*;

use crate::reducer::Reducer;
use crate::scheduler::{scheduled_async, scheduled_blocking, Scheduler, Spawner};
use crate::state::Snapshot;

verus! {

/// Successive application of the policy `R` to an initial state, in
/// order: the state a sequence of dispatches commits.
pub open spec fn apply_actions<R: Reducer>(init: R::State, actions: Seq<R::Action>) -> R::State
    decreases actions.len(),
{
    if actions.len() == 0 {
        init
    } else {
        R::next_state(apply_actions::<R>(init, actions.drop_last()), actions.last())
    }
}

/// Work that completes without emitting anything dispatches nothing: a
/// batch of zero emissions leaves the state exactly where it was.
pub proof fn lemma_no_emissions_no_change<R: Reducer>(init: R::State)
    ensures
        apply_actions::<R>(init, Seq::empty()) == init,
{
}

/// The composition point: one authoritative state, one reducer, one
/// scheduler. The store keeps every committed snapshot, so a subscriber
/// can be handed each commit in order without racing the mutation path.
pub struct Store<Sp, S, A, R> {
    /// The authoritative state. Exactly one instance exists; it is
    /// mutated only by a reduction inside `send`.
    pub state: S,
    /// One snapshot per commit, oldest first; the first entry is the
    /// initial state and the last equals the authoritative state.
    pub log: Vec<S>,
    /// The actions dispatched so far, in commit order.
    pub actions: Ghost<Seq<A>>,
    /// The transition policy; logically immutable after construction.
    pub reducer: R,
    /// Where produced effects are routed; logically immutable wiring.
    pub scheduler: Scheduler<Sp>,
}

/// A subscriber: a cursor into a store's commit log. Snapshots are read
/// through [`Store::poll`], which yields each commit at most once.
pub struct Subscription {
    /// The index of the next commit to observe.
    pub cursor: usize,
}

impl<Sp, S, A, R> Store<Sp, S, A, R> where
    Sp: Spawner,
    S: Snapshot,
    R: Reducer<State = S, Action = A, SyncWork = Sp::BlockingWork, AsyncWork = Sp::AsyncWork>,
 {
    /// The log is exactly the trajectory of the reducer over the
    /// dispatched actions and the authoritative state is its last entry:
    /// a partially-mutated state is never observable.
    pub open spec fn wf(&self) -> bool {
        &&& self.log@.len() == self.actions@.len() + 1
        &&& self.log@.last() == self.state
        &&& forall|i: int|
            0 <= i < self.actions@.len() ==> self.log@[i + 1] == R::next_state(
                self.log@[i],
                #[trigger] self.actions@[i],
            )
    }

    /// A store over `state`, run by the supplied reducer instance and
    /// routing effects to the supplied scheduler.
    pub fn new(state: S, reducer: R, scheduler: Scheduler<Sp>) -> (store: Self)
        ensures
            store.wf(),
            store.state == state,
            store.log@ == seq![state],
            store.actions@ == Seq::<A>::empty(),
            store.reducer == reducer,
            store.scheduler == scheduler,
    {
        let snap = state.snapshot();
        let mut log: Vec<S> = Vec::new();
        log.push(snap);
        let store = Store { state, log, actions: Ghost(Seq::empty()), reducer, scheduler };
        proof {
            assert(store.log@ =~= seq![store.state]);
        }
        store
    }

    /// One dispatch cycle: reduces under exclusive access, commits
    /// exactly one snapshot to the log — even when the new state is
    /// value-equal to the previous one — and hands the produced effect
    /// to the scheduler. Returns once the effect is accepted for
    /// execution, not once it completes.
    pub fn send(&mut self, action: A)
        requires
            old(self).wf(),
        ensures
            final(self).wf(),
            final(self).state == R::next_state(old(self).state, action),
            final(self).log@ == old(self).log@.push(final(self).state),
            final(self).actions@ == old(self).actions@.push(action),
            final(self).reducer == old(self).reducer,
            final(self).scheduler.spawner.blocking_log() == scheduled_blocking(
                old(self).scheduler.spawner.blocking_log(),
                R::next_effect(old(self).state, action),
            ),
            final(self).scheduler.spawner.async_log() == scheduled_async(
                old(self).scheduler.spawner.async_log(),
                R::next_effect(old(self).state, action),
            ),
    {
        let ghost sent = action;
        let eff = self.reducer.reduce(&mut self.state, action);
        let snap = self.state.snapshot();
        self.log.push(snap);
        proof {
            self.actions@ = self.actions@.push(sent);
        }
        self.scheduler.run_effect(eff);
        proof {
            let pre = *old(self);
            assert forall|i: int| 0 <= i < self.actions@.len() implies self.log@[i + 1]
                == R::next_state(self.log@[i], #[trigger] self.actions@[i]) by {
                if i < pre.actions@.len() {
                    assert(self.log@[i] == pre.log@[i]);
                    assert(self.log@[i + 1] == pre.log@[i + 1]);
                    assert(self.actions@[i] == pre.actions@[i]);
                } else {
                    assert(self.log@[i] == pre.log@.last());
                }
            }
        }
    }

    /// Dispatches a batch of actions, one full cycle each, in order:
    /// what a piece of blocking work does when it emits each action of
    /// `batch` back into the store, one at a time. Afterwards the state
    /// is the successive application of the reducer to the batch, every
    /// intermediate state stands in the log in emission order, and every
    /// commit a subscriber could already observe is unchanged.
    pub fn dispatch_all(&mut self, batch: Vec<A>)
        requires
            old(self).wf(),
        ensures
            final(self).wf(),
            final(self).state == apply_actions::<R>(old(self).state, batch@),
            final(self).actions@ == old(self).actions@ + batch@,
            final(self).log@.len() == old(self).log@.len() + batch@.len(),
            forall|k: int|
                0 <= k < old(self).log@.len() ==> final(self).log@[k] == old(self).log@[k],
            final(self).reducer == old(self).reducer,
    {
        let ghost pre = *old(self);
        let ghost b = batch@;
        proof {
            assert(pre.actions@ + b.take(0) =~= pre.actions@);
            assert(b.take(b.len() as int) =~= b);
        }
        for action in iter: batch.into_iter()
            invariant
                self.wf(),
                iter.seq() == b,
                iter.index() <= b.len(),
                self.state == apply_actions::<R>(pre.state, b.take(iter.index() as int)),
                self.actions@ == pre.actions@ + b.take(iter.index() as int),
                self.log@.len() == pre.log@.len() + iter.index(),
                forall|k: int| 0 <= k < pre.log@.len() ==> self.log@[k] == pre.log@[k],
                self.reducer == pre.reducer,
        {
            let ghost i = iter.index() as int;
            self.send(action);
            proof {
                assert(b.take(i + 1).drop_last() =~= b.take(i));
                assert(b.take(i + 1).last() == b[i]);
                assert(self.actions@ =~= pre.actions@ + b.take(i + 1));
            }
        }
    }

    /// A subscription whose first observed value is the state current
    /// now: it never observes a commit older than the subscription time,
    /// and from here on it observes every commit, in commit order.
    pub fn subscribe(&self) -> (sub: Subscription)
        requires
            self.log@.len() >= 1,
        ensures
            sub.cursor == self.log@.len() - 1,
    {
        Subscription { cursor: self.log.len() - 1 }
    }

    /// Yields the next committed snapshot the subscription has not yet
    /// observed, or nothing when it has seen every commit so far. The
    /// sequence of yielded values is the commit log from the
    /// subscription's starting point on, with nothing skipped and
    /// nothing repeated.
    pub fn poll<'a>(&'a self, sub: &mut Subscription) -> (snap: Option<&'a S>)
        ensures
            old(sub).cursor < self.log@.len() ==> (snap matches Some(s) && *s == self.log@[old(
                sub,
            ).cursor as int] && final(sub).cursor == old(sub).cursor + 1),
            old(sub).cursor >= self.log@.len() ==> (snap is None && final(sub).cursor == old(
                sub,
            ).cursor),
    {
        if sub.cursor < self.log.len() {
            let snap = &self.log[sub.cursor];
            sub.cursor = sub.cursor + 1;
            Some(snap)
        } else {
            None
        }
    }
}

proof fn lemma_log_prefix_is_apply<Sp, S, A, R>(store: &Store<Sp, S, A, R>, k: int) where
    Sp: Spawner,
    S: Snapshot,
    R: Reducer<State = S, Action = A, SyncWork = Sp::BlockingWork, AsyncWork = Sp::AsyncWork>,

    requires
        store.wf(),
        0 <= k < store.log@.len(),
    ensures
        store.log@[k] == apply_actions::<R>(store.log@[0], store.actions@.take(k)),
    decreases k,
{
    if k == 0 {
        assert(store.actions@.take(0) =~= Seq::<A>::empty());
    } else {
        lemma_log_prefix_is_apply(store, k - 1);
        let taken = store.actions@.take(k);
        assert(taken.drop_last() =~= store.actions@.take(k - 1));
        assert(taken.last() == store.actions@[k - 1]);
        assert(store.log@[k] == R::next_state(store.log@[k - 1], store.actions@[k - 1]));
    }
}

/// With no concurrent dispatch in flight, the whole history of a store
/// is determined by its initial state and the actions sent, in send
/// order: every commit in the log is the successive application of the
/// reducer to the dispatched prefix, and the authoritative state is the
/// application of the full sequence.
pub proof fn lemma_state_is_apply_all<Sp, S, A, R>(store: &Store<Sp, S, A, R>) where
    Sp: Spawner,
    S: Snapshot,
    R: Reducer<State = S, Action = A, SyncWork = Sp::BlockingWork, AsyncWork = Sp::AsyncWork>,

    requires
        store.wf(),
    ensures
        store.state == apply_actions::<R>(store.log@[0], store.actions@),
        forall|k: int|
            0 <= k < store.log@.len() ==> #[trigger] store.log@[k] == apply_actions::<R>(
                store.log@[0],
                store.actions@.take(k),
            ),
{
    assert forall|k: int| 0 <= k < store.log@.len() implies #[trigger] store.log@[k]
        == apply_actions::<R>(store.log@[0], store.actions@.take(k)) by {
        lemma_log_prefix_is_apply(store, k);
    }
    let n = store.actions@.len() as int;
    assert(store.actions@.take(n) =~= store.actions@);
    assert(store.log@.last() == store.log@[n]);
}

} // verus!
