use std::sync::atomic::{AtomicBool, Ordering};
use std::sync::Arc;
use std::time::Duration;
use tokio::runtime::{Builder, Runtime};
use tokio::task::JoinHandle;
use tree_hole::Registry;

fn runtime() -> Runtime {
    Builder::new_current_thread().enable_time().build().unwrap()
}

fn sleeper(rt: &Runtime, secs: u64) -> JoinHandle<()> {
    rt.spawn(async move {
        tokio::time::sleep(Duration::from_secs(secs)).await;
    })
}

fn flagger(rt: &Runtime, flag: &Arc<AtomicBool>) -> JoinHandle<()> {
    let flag = Arc::clone(flag);
    rt.spawn(async move {
        flag.store(true, Ordering::SeqCst);
    })
}

fn let_tasks_run(rt: &Runtime) {
    rt.block_on(async {
        tokio::time::sleep(Duration::from_millis(20)).await;
    });
}

#[test]
fn new_registry_is_empty() {
    let registry = Registry::new();
    assert!(registry.is_empty());
    assert_eq!(registry.len(), 0);
    assert!(!registry.contains(1));
    assert_eq!(registry.fire_at(1), None);
    assert!(registry.message_ids().is_empty());
    assert!(registry.finished().is_empty());
}

#[test]
fn schedule_stores_the_fire_time() {
    let rt = runtime();
    let mut registry = Registry::new();
    registry.schedule(7, 60_000, sleeper(&rt, 60));
    assert!(registry.contains(7));
    assert_eq!(registry.fire_at(7), Some(60_000));
    assert_eq!(registry.len(), 1);
    assert!(!registry.is_empty());
    assert!(!registry.contains(8));
}

#[test]
fn schedule_twice_keeps_one_entry_with_the_later_fire_time() {
    let rt = runtime();
    let mut registry = Registry::new();
    registry.schedule(7, 60, sleeper(&rt, 60));
    registry.schedule(7, 90, sleeper(&rt, 90));
    assert_eq!(registry.len(), 1);
    assert_eq!(registry.fire_at(7), Some(90));
    assert_eq!(registry.message_ids(), vec![7]);
}

#[test]
fn cancel_removes_the_entry() {
    let rt = runtime();
    let mut registry = Registry::new();
    registry.schedule(7, 60, sleeper(&rt, 60));
    registry.schedule(8, 61, sleeper(&rt, 60));
    assert!(registry.cancel(7));
    assert!(!registry.contains(7));
    assert!(registry.contains(8));
    assert_eq!(registry.len(), 1);
}

#[test]
fn cancel_of_an_unknown_message_finds_nothing() {
    let rt = runtime();
    let mut registry = Registry::new();
    registry.schedule(7, 60, sleeper(&rt, 60));
    assert!(!registry.cancel(9));
    assert!(registry.contains(7));
    assert_eq!(registry.len(), 1);
}

#[test]
fn cancel_aborts_the_timer() {
    let rt = runtime();
    let flag = Arc::new(AtomicBool::new(false));
    let mut registry = Registry::new();
    registry.schedule(7, 0, flagger(&rt, &flag));
    assert!(registry.cancel(7));
    let_tasks_run(&rt);
    assert!(!flag.load(Ordering::SeqCst));
}

#[test]
fn complete_removes_the_entry_and_lets_the_timer_run() {
    let rt = runtime();
    let flag = Arc::new(AtomicBool::new(false));
    let mut registry = Registry::new();
    registry.schedule(7, 0, flagger(&rt, &flag));
    assert!(registry.complete(7));
    assert!(!registry.contains(7));
    assert!(!registry.complete(7));
    let_tasks_run(&rt);
    assert!(flag.load(Ordering::SeqCst));
}

#[test]
fn message_ids_names_each_entry_once() {
    let rt = runtime();
    let mut registry = Registry::new();
    for id in [5u64, 3, 9, 3] {
        registry.schedule(id, 10, sleeper(&rt, 60));
    }
    let mut ids = registry.message_ids();
    ids.sort();
    assert_eq!(ids, vec![3, 5, 9]);
}

#[test]
fn finished_names_the_timers_that_have_ended() {
    let rt = runtime();
    let flag = Arc::new(AtomicBool::new(false));
    let mut registry = Registry::new();
    registry.schedule(1, 0, flagger(&rt, &flag));
    registry.schedule(2, 60, sleeper(&rt, 60));
    assert!(registry.finished().is_empty());
    let_tasks_run(&rt);
    assert_eq!(registry.finished(), vec![1]);
    assert_eq!(registry.len(), 2);
}

#[test]
fn prune_finished_drops_only_ended_timers() {
    let rt = runtime();
    let flag = Arc::new(AtomicBool::new(false));
    let mut registry = Registry::new();
    registry.schedule(1, 0, flagger(&rt, &flag));
    registry.schedule(2, 60, sleeper(&rt, 60));
    registry.prune_finished();
    assert_eq!(registry.len(), 2);
    let_tasks_run(&rt);
    registry.prune_finished();
    assert!(!registry.contains(1));
    assert!(registry.contains(2));
    assert_eq!(registry.fire_at(2), Some(60));
}

#[test]
fn prune_finished_drops_a_cancelled_timer_that_was_let_go() {
    let rt = runtime();
    let mut registry = Registry::new();
    let handle = sleeper(&rt, 60);
    handle.abort();
    registry.schedule(4, 60, handle);
    let_tasks_run(&rt);
    registry.prune_finished();
    assert!(registry.is_empty());
}

#[test]
fn discard_removes_the_named_entries() {
    let rt = runtime();
    let mut registry = Registry::new();
    for id in 1u64..=5 {
        registry.schedule(id, 10, sleeper(&rt, 60));
    }
    registry.discard(&vec![2, 4, 4, 8]);
    let mut ids = registry.message_ids();
    ids.sort();
    assert_eq!(ids, vec![1, 3, 5]);
    registry.discard(&Vec::new());
    assert_eq!(registry.len(), 3);
}
