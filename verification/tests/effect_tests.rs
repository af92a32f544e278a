use effect_store::effect::{Effect, EffectAction};
use effect_store::samples::{BumpJob, IdleJob, LoadJob};

#[test]
fn none_carries_no_work() {
    let e: Effect<BumpJob, IdleJob> = Effect::none();
    assert!(matches!(e.action, EffectAction::Nothing));
}

#[test]
fn run_sync_carries_the_blocking_work() {
    let e: Effect<LoadJob, IdleJob> = Effect::run_sync(LoadJob { request: 9 });
    match e.action {
        EffectAction::Sync(job) => assert_eq!(job, LoadJob { request: 9 }),
        _ => panic!("expected blocking work"),
    }
}

#[test]
fn run_async_carries_the_cooperative_work() {
    let e: Effect<LoadJob, IdleJob> = Effect::run_async(IdleJob {});
    assert!(matches!(e.action, EffectAction::Async(IdleJob {})));
}
