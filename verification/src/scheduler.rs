//! Routing of effects onto an execution context.

use vstd::prelude::*;

use crate::effect::{Effect, EffectAction};

verus! {

/// A caller-supplied execution context: a capability for running
/// blocking work and cooperative (suspendable) work, both fire-and-forget.
///
/// The two spec logs record every piece of work handed over, oldest
/// first. Nothing is promised about whether or when handed-over work
/// runs: spawning is best-effort and its outcome is never observed.
pub trait Spawner: Sized {
    type BlockingWork;

    type AsyncWork;

    /// Every piece of blocking work handed over so far, oldest first.
    spec fn blocking_log(&self) -> Seq<Self::BlockingWork>;

    /// Every piece of cooperative work handed over so far, oldest first.
    spec fn async_log(&self) -> Seq<Self::AsyncWork>;

    /// Hands `work` to a context tolerant of blocking.
    fn spawn_blocking(&mut self, work: Self::BlockingWork)
        ensures
            final(self).blocking_log() == old(self).blocking_log().push(work),
            final(self).async_log() == old(self).async_log(),
    ;

    /// Schedules `work` for cooperative execution.
    fn spawn(&mut self, work: Self::AsyncWork)
        ensures
            final(self).async_log() == old(self).async_log().push(work),
            final(self).blocking_log() == old(self).blocking_log(),
    ;
}

/// An execution context that runs nothing: every spawn is recorded in a
/// queue, and the caller drains the queues and performs the work itself.
/// This makes the whole dispatch loop deterministic, which is what a
/// test harness or a single-threaded embedding wants.
pub struct QueueSpawner<W, T> {
    /// Blocking work handed over and not yet drained, oldest first.
    pub blocking: Vec<W>,
    /// Cooperative work handed over and not yet drained, oldest first.
    pub cooperative: Vec<T>,
}

impl<W, T> QueueSpawner<W, T> {
    /// A queue spawner with nothing pending.
    pub fn new() -> (s: Self)
        ensures
            s.blocking@ == Seq::<W>::empty(),
            s.cooperative@ == Seq::<T>::empty(),
    {
        QueueSpawner { blocking: Vec::new(), cooperative: Vec::new() }
    }
}

impl<W, T> Spawner for QueueSpawner<W, T> {
    type BlockingWork = W;

    type AsyncWork = T;

    open spec fn blocking_log(&self) -> Seq<W> {
        self.blocking@
    }

    open spec fn async_log(&self) -> Seq<T> {
        self.cooperative@
    }

    fn spawn_blocking(&mut self, work: W) {
        self.blocking.push(work);
    }

    fn spawn(&mut self, work: T) {
        self.cooperative.push(work);
    }
}

/// The blocking-work log after one effect is routed: `Sync` work is
/// appended, anything else leaves the log untouched.
pub open spec fn scheduled_blocking<W, T>(pre: Seq<W>, action: EffectAction<W, T>) -> Seq<W> {
    match action {
        EffectAction::Sync(work) => pre.push(work),
        _ => pre,
    }
}

/// The cooperative-work log after one effect is routed: `Async` work is
/// appended, anything else leaves the log untouched.
pub open spec fn scheduled_async<W, T>(pre: Seq<T>, action: EffectAction<W, T>) -> Seq<T> {
    match action {
        EffectAction::Async(work) => pre.push(work),
        _ => pre,
    }
}

/// An effect that carries no work is never handed to any capability: it
/// causes no feedback dispatch and no execution-context activity.
pub proof fn lemma_nothing_schedules_nothing<W, T>(pre_blocking: Seq<W>, pre_async: Seq<T>)
    ensures
        scheduled_blocking(pre_blocking, EffectAction::<W, T>::Nothing) == pre_blocking,
        scheduled_async(pre_async, EffectAction::<W, T>::Nothing) == pre_async,
{
}

/// Translates each effect into execution on the supplied context,
/// choosing the capability by the effect's variant. The scheduler holds
/// no state of its own; it is a pure routing function around its spawner.
pub struct Scheduler<Sp> {
    pub spawner: Sp,
}

impl<Sp: Spawner> Scheduler<Sp> {
    /// A scheduler over the given execution context.
    pub fn new(spawner: Sp) -> (s: Self)
        ensures
            s.spawner == spawner,
    {
        Scheduler { spawner }
    }

    /// Routes one effect: no work for `Nothing`, the blocking capability
    /// for `Sync` work, the cooperative one for `Async` work. The work is
    /// accepted, not awaited: this returns before anything runs.
    pub fn run_effect(&mut self, effect: Effect<Sp::BlockingWork, Sp::AsyncWork>)
        ensures
            final(self).spawner.blocking_log() == scheduled_blocking(
                old(self).spawner.blocking_log(),
                effect.action,
            ),
            final(self).spawner.async_log() == scheduled_async(
                old(self).spawner.async_log(),
                effect.action,
            ),
    {
        match effect.action {
            EffectAction::Nothing => {},
            EffectAction::Sync(work) => self.spawner.spawn_blocking(work),
            EffectAction::Async(work) => self.spawner.spawn(work),
        }
    }
}

} // verus!
