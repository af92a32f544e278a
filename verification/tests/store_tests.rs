use effect_store::samples::{
    run_bump_job, run_idle_job, run_load_job, BumpJob, CounterAction, CounterReducer, CounterState,
    IdleJob, LoadAction, LoadJob, LoadReducer, LoadState,
};
use effect_store::scheduler::{QueueSpawner, Scheduler};
use effect_store::store::{Store, Subscription};

type CounterStore = Store<QueueSpawner<BumpJob, IdleJob>, CounterState, CounterAction, CounterReducer>;
type LoadStore = Store<QueueSpawner<LoadJob, IdleJob>, LoadState, LoadAction, LoadReducer>;

fn counter_store(count: u32) -> CounterStore {
    Store::new(
        CounterState { count },
        CounterReducer {},
        Scheduler::new(QueueSpawner::new()),
    )
}

fn load_store() -> LoadStore {
    Store::new(
        LoadState { loading: false, value: 0 },
        LoadReducer {},
        Scheduler::new(QueueSpawner::new()),
    )
}

fn observed_counts(store: &CounterStore, sub: &mut Subscription) -> Vec<u32> {
    let mut seen = Vec::new();
    while let Some(snap) = store.poll(sub) {
        seen.push(snap.count);
    }
    seen
}

fn observed_loads(store: &LoadStore, sub: &mut Subscription) -> Vec<(bool, u64)> {
    let mut seen = Vec::new();
    while let Some(snap) = store.poll(sub) {
        seen.push((snap.loading, snap.value));
    }
    seen
}

#[test]
fn basic_reducer() {
    let mut store = counter_store(0);
    let mut sub = store.subscribe();

    store.send(CounterAction::Add);
    store.send(CounterAction::Sub);

    assert_eq!(observed_counts(&store, &mut sub), vec![0, 1, 0]);
}

#[test]
fn every_send_notifies_even_when_value_equal() {
    let mut store = counter_store(0);
    let mut sub = store.subscribe();

    store.send(CounterAction::Add);
    store.send(CounterAction::Sub);
    store.send(CounterAction::Sub); // saturates: the state stays value-equal

    // Four notifications: one per commit, none deduplicated.
    assert_eq!(observed_counts(&store, &mut sub), vec![0, 1, 0, 0]);
    assert!(store.poll(&mut sub).is_none());
}

#[test]
fn late_subscriber_starts_at_current_commit() {
    let mut store = counter_store(0);

    store.send(CounterAction::Add);
    store.send(CounterAction::Add);

    // Subscribing after two commits: the first observed value is the
    // state as of the second commit, never anything older.
    let mut sub = store.subscribe();
    store.send(CounterAction::Sub);

    assert_eq!(observed_counts(&store, &mut sub), vec![2, 1]);
}

#[test]
fn none_effect_no_context_activity() {
    let mut store = counter_store(7);

    store.send(CounterAction::Add);
    store.send(CounterAction::Sub);

    assert!(store.scheduler.spawner.blocking.is_empty());
    assert!(store.scheduler.spawner.cooperative.is_empty());
    assert_eq!(store.log.len(), 3); // no feedback dispatch beyond the two sends
}

#[test]
fn sync_effect_emits_two_dispatches_in_order() {
    let mut store = counter_store(0);
    let mut sub = store.subscribe();

    store.send(CounterAction::Bump);

    let job = store.scheduler.spawner.blocking.pop().expect("bump work was spawned");
    assert!(store.scheduler.spawner.blocking.is_empty());
    assert!(store.scheduler.spawner.cooperative.is_empty());

    // Run the blocking work: it emits Add twice, each emission one full
    // dispatch cycle, in emission order.
    let emitted = run_bump_job(&job);
    assert_eq!(emitted, vec![CounterAction::Add, CounterAction::Add]);
    store.dispatch_all(emitted);

    assert_eq!(observed_counts(&store, &mut sub), vec![0, 0, 1, 2]);
}

#[test]
fn async_effect_without_emissions_adds_nothing() {
    let mut store = counter_store(3);
    let mut sub = store.subscribe();

    store.send(CounterAction::Poke);

    let job = store.scheduler.spawner.cooperative.pop().expect("idle work was spawned");
    assert!(store.scheduler.spawner.cooperative.is_empty());
    assert!(store.scheduler.spawner.blocking.is_empty());

    // The cooperative work completes without emitting: zero additional
    // dispatches, no observable state change.
    let emitted: Vec<CounterAction> = run_idle_job(&job);
    assert!(emitted.is_empty());
    store.dispatch_all(emitted);

    assert_eq!(store.state.count, 3);
    assert_eq!(observed_counts(&store, &mut sub), vec![3, 3]);
}

#[test]
fn load_scenario_intermediate_state_visible() {
    let mut store = load_store();
    let mut sub = store.subscribe();

    store.send(LoadAction::Load(10));

    let job = store.scheduler.spawner.blocking.pop().expect("load work was spawned");
    assert_eq!(job, LoadJob { request: 10 });

    let emitted = run_load_job(&job);
    assert_eq!(emitted, vec![LoadAction::Loaded(5)]);
    store.dispatch_all(emitted);

    // The in-flight state is observed before the completed one; the
    // intermediate commit is never skipped.
    assert_eq!(
        observed_loads(&store, &mut sub),
        vec![(false, 0), (true, 0), (false, 5)]
    );
}

#[test]
fn dispatch_all_applies_in_send_order() {
    let mut store = counter_store(0);
    let mut sub = store.subscribe();

    store.dispatch_all(vec![
        CounterAction::Add,
        CounterAction::Add,
        CounterAction::Sub,
    ]);

    assert_eq!(store.state.count, 1);
    assert_eq!(observed_counts(&store, &mut sub), vec![0, 1, 2, 1]);
}

#[test]
fn counter_saturates_at_zero() {
    let mut store = counter_store(0);
    store.send(CounterAction::Sub);
    assert_eq!(store.state.count, 0);
    assert_eq!(store.log.len(), 2);
}

#[test]
fn supplied_reducer_and_initial_state_are_used() {
    let store = counter_store(41);
    assert_eq!(store.state.count, 41);
    assert_eq!(store.log.len(), 1);
    assert_eq!(store.log[0].count, 41);
}
