//! Small reducers that exercise the store.
//!
//! They are complete policies in their own right: a counter whose
//! blocking work emits further actions, and a loader whose blocking work
//! computes a value and feeds it back. Together they drive every effect
//! variant through the dispatch loop deterministically.

use vstd::prelude::*;

use crate::effect::{Effect, EffectAction};
use crate::reducer::Reducer;
use crate::state::Snapshot;

verus! {

/// Cooperative work that suspends and completes without emitting
/// anything.
#[derive(Clone, Copy, Debug, PartialEq, Eq)]
pub struct IdleJob {}

/// Runs one idle job to completion: it emits no action at all.
pub fn run_idle_job<A>(job: &IdleJob) -> (emitted: Vec<A>)
    ensures
        emitted@ == Seq::<A>::empty(),
{
    Vec::new()
}

/// A counter state.
#[derive(Clone, Copy, Debug, PartialEq, Eq)]
pub struct CounterState {
    pub count: u32,
}

impl Snapshot for CounterState {
    fn snapshot(&self) -> (copy: Self) {
        CounterState { count: self.count }
    }
}

/// Intents against a counter: step it, or schedule work that steps it.
#[derive(Clone, Copy, Debug, PartialEq, Eq)]
pub enum CounterAction {
    /// Count one up; no follow-up work.
    Add,
    /// Count one down; no follow-up work.
    Sub,
    /// Leave the count alone and schedule blocking work that emits
    /// `Add` twice.
    Bump,
    /// Leave the count alone and schedule cooperative work that emits
    /// nothing.
    Poke,
}

/// Blocking work that emits `Add` twice, in order.
#[derive(Clone, Copy, Debug, PartialEq, Eq)]
pub struct BumpJob {}

/// Runs one bump job to completion: the two actions it emits, in
/// emission order.
pub fn run_bump_job(job: &BumpJob) -> (emitted: Vec<CounterAction>)
    ensures
        emitted@ == seq![CounterAction::Add, CounterAction::Add],
{
    let mut emitted: Vec<CounterAction> = Vec::new();
    emitted.push(CounterAction::Add);
    emitted.push(CounterAction::Add);
    proof {
        assert(emitted@ =~= seq![CounterAction::Add, CounterAction::Add]);
    }
    emitted
}

/// Steps a counter up and down. `Add` and `Sub` saturate at the ends of
/// `u32`, so every action is total.
pub struct CounterReducer {}

impl Reducer for CounterReducer {
    type State = CounterState;

    type Action = CounterAction;

    type SyncWork = BumpJob;

    type AsyncWork = IdleJob;

    open spec fn next_state(s: CounterState, a: CounterAction) -> CounterState {
        match a {
            CounterAction::Add => CounterState {
                count: if s.count < u32::MAX {
                    (s.count + 1) as u32
                } else {
                    u32::MAX
                },
            },
            CounterAction::Sub => CounterState {
                count: if s.count > 0 {
                    (s.count - 1) as u32
                } else {
                    0
                },
            },
            CounterAction::Bump => s,
            CounterAction::Poke => s,
        }
    }

    open spec fn next_effect(s: CounterState, a: CounterAction) -> EffectAction<BumpJob, IdleJob> {
        match a {
            CounterAction::Add => EffectAction::Nothing,
            CounterAction::Sub => EffectAction::Nothing,
            CounterAction::Bump => EffectAction::Sync(BumpJob {}),
            CounterAction::Poke => EffectAction::Async(IdleJob {}),
        }
    }

    fn reduce(&self, state: &mut CounterState, action: CounterAction) -> (eff: Effect<
        BumpJob,
        IdleJob,
    >) {
        match action {
            CounterAction::Add => {
                if state.count < u32::MAX {
                    state.count = state.count + 1;
                }
                Effect::none()
            },
            CounterAction::Sub => {
                if state.count > 0 {
                    state.count = state.count - 1;
                }
                Effect::none()
            },
            CounterAction::Bump => Effect::run_sync(BumpJob {}),
            CounterAction::Poke => Effect::run_async(IdleJob {}),
        }
    }
}

/// A loader state: whether a load is in flight, and the value the last
/// completed load produced.
#[derive(Clone, Copy, Debug, PartialEq, Eq)]
pub struct LoadState {
    pub loading: bool,
    pub value: u64,
}

impl Snapshot for LoadState {
    fn snapshot(&self) -> (copy: Self) {
        LoadState { loading: self.loading, value: self.value }
    }
}

/// Intents against a loader.
#[derive(Clone, Copy, Debug, PartialEq, Eq)]
pub enum LoadAction {
    /// Start a load for the given request: marks the state as loading
    /// and schedules blocking work that computes the value and emits
    /// `Loaded` with it.
    Load(u64),
    /// A load completed with the given value; no follow-up work.
    Loaded(u64),
}

/// Blocking work: compute the value for `request` and emit `Loaded`
/// with it.
#[derive(Clone, Copy, Debug, PartialEq, Eq)]
pub struct LoadJob {
    pub request: u64,
}

/// The value a load computes for a request.
pub open spec fn load_result(request: u64) -> u64 {
    request / 2
}

/// Runs one load job to completion: the single action it emits.
pub fn run_load_job(job: &LoadJob) -> (emitted: Vec<LoadAction>)
    ensures
        emitted@ == seq![LoadAction::Loaded(load_result(job.request))],
{
    let mut emitted: Vec<LoadAction> = Vec::new();
    emitted.push(LoadAction::Loaded(job.request / 2));
    proof {
        assert(emitted@ =~= seq![LoadAction::Loaded(load_result(job.request))]);
    }
    emitted
}

/// Tracks a load: `Load` opens it, the emitted `Loaded` closes it, so a
/// subscriber always observes the in-flight state before the completed
/// one.
pub struct LoadReducer {}

impl Reducer for LoadReducer {
    type State = LoadState;

    type Action = LoadAction;

    type SyncWork = LoadJob;

    type AsyncWork = IdleJob;

    open spec fn next_state(s: LoadState, a: LoadAction) -> LoadState {
        match a {
            LoadAction::Load(_) => LoadState { loading: true, value: s.value },
            LoadAction::Loaded(v) => LoadState { loading: false, value: v },
        }
    }

    open spec fn next_effect(s: LoadState, a: LoadAction) -> EffectAction<LoadJob, IdleJob> {
        match a {
            LoadAction::Load(request) => EffectAction::Sync(LoadJob { request }),
            LoadAction::Loaded(_) => EffectAction::Nothing,
        }
    }

    fn reduce(&self, state: &mut LoadState, action: LoadAction) -> (eff: Effect<LoadJob, IdleJob>) {
        match action {
            LoadAction::Load(request) => {
                state.loading = true;
                Effect::run_sync(LoadJob { request })
            },
            LoadAction::Loaded(v) => {
                state.loading = false;
                state.value = v;
                Effect::none()
            },
        }
    }
}

} // verus!
