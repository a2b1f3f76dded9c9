use tokio::runtime::{Builder, Runtime};
use tokio::task::JoinHandle;
use tree_hole::{delay_from, sweep_channel, ChannelSweep, DeleteCall, MessageSnapshot, Registry, Timer};

fn rt() -> Runtime {
    Builder::new_current_thread().enable_time().build().unwrap()
}

fn idle(rt: &Runtime) -> JoinHandle<()> {
    rt.spawn(async {
        tokio::time::sleep(std::time::Duration::from_secs(3600)).await;
    })
}

fn msg(message_id: u64, created_at: i64, pinned: bool) -> MessageSnapshot {
    MessageSnapshot { message_id, channel_id: 5, created_at, pinned }
}

#[test]
fn delay_is_the_time_left() {
    assert_eq!(delay_from(90, 40), 50);
    assert_eq!(delay_from(1, 0), 1);
    assert_eq!(delay_from(-5, -65), 60);
}

#[test]
fn delay_is_zero_once_the_time_has_come() {
    assert_eq!(delay_from(90, 90), 0);
    assert_eq!(delay_from(90, 100), 0);
    assert_eq!(delay_from(i128::MIN, i64::MIN), 0);
}

#[test]
fn delay_stops_at_the_largest_u64() {
    assert_eq!(delay_from(u64::MAX as i128, 0), u64::MAX);
    assert_eq!(delay_from(u64::MAX as i128 + 1, 0), u64::MAX);
    assert_eq!(delay_from(u64::MAX as i128 - 1, 0), u64::MAX - 1);
    assert_eq!(delay_from(i128::MAX, i64::MIN), u64::MAX);
    assert_eq!(delay_from(i64::MAX as i128, i64::MIN), u64::MAX);
}

#[test]
fn an_empty_history_asks_for_nothing() {
    let registry = Registry::new();
    let sweep = sweep_channel(&registry, 5, 60, &Vec::new(), 100);
    assert_eq!(sweep, ChannelSweep { channel_id: 5, timers: vec![], deletes: vec![] });
}

#[test]
fn a_pass_sorts_the_history_into_timers_and_deletions() {
    let runtime = rt();
    let mut registry = Registry::new();
    registry.schedule(3, 95, idle(&runtime));
    let history = vec![
        msg(6, 95, false),
        msg(5, 80, true),
        msg(4, 41, false),
        msg(3, 35, false),
        msg(2, 10, true),
        msg(1, 5, false),
        msg(0, 40, false),
    ];
    let sweep = sweep_channel(&registry, 5, 60, &history, 100);
    assert_eq!(sweep.channel_id, 5);
    assert_eq!(
        sweep.timers,
        vec![
            Timer { message_id: 6, fire_at: 155, delay: 55 },
            Timer { message_id: 4, fire_at: 101, delay: 1 },
        ]
    );
    assert_eq!(sweep.deletes, vec![DeleteCall::Bulk(vec![1, 0])]);
}

#[test]
fn a_message_due_exactly_now_is_expired() {
    let registry = Registry::new();
    let sweep = sweep_channel(&registry, 5, 60, &vec![msg(1, 40, false)], 100);
    assert!(sweep.timers.is_empty());
    assert_eq!(sweep.deletes, vec![DeleteCall::Single(1)]);
}

#[test]
fn a_pending_message_is_left_alone_even_when_its_time_is_up() {
    let runtime = rt();
    let mut registry = Registry::new();
    registry.schedule(1, 70, idle(&runtime));
    let sweep = sweep_channel(&registry, 5, 60, &vec![msg(1, 10, false)], 100);
    assert!(sweep.timers.is_empty());
    assert!(sweep.deletes.is_empty());
}

#[test]
fn a_pinned_message_is_neither_scheduled_nor_deleted() {
    let registry = Registry::new();
    let history = vec![msg(1, 10, true), msg(2, 99, true)];
    let sweep = sweep_channel(&registry, 5, 60, &history, 100);
    assert!(sweep.timers.is_empty());
    assert!(sweep.deletes.is_empty());
}

#[test]
fn a_zero_time_to_live_expires_everything_not_from_the_future() {
    let registry = Registry::new();
    let history = vec![msg(1, 100, false), msg(2, 101, false)];
    let sweep = sweep_channel(&registry, 5, 0, &history, 100);
    assert_eq!(sweep.timers, vec![Timer { message_id: 2, fire_at: 101, delay: 1 }]);
    assert_eq!(sweep.deletes, vec![DeleteCall::Single(1)]);
}

#[test]
fn fire_times_beyond_the_range_of_i64_are_kept_exactly() {
    let registry = Registry::new();
    let history = vec![msg(1, i64::MAX, false)];
    let sweep = sweep_channel(&registry, 5, u64::MAX, &history, i64::MIN);
    assert_eq!(
        sweep.timers,
        vec![Timer { message_id: 1, fire_at: i64::MAX as i128 + u64::MAX as i128, delay: u64::MAX }]
    );
    let history = vec![msg(2, i64::MIN, false)];
    let sweep = sweep_channel(&registry, 5, 0, &history, i64::MIN);
    assert_eq!(sweep.deletes, vec![DeleteCall::Single(2)]);
}

#[test]
fn a_history_that_lists_a_message_twice_decides_it_twice() {
    let registry = Registry::new();
    let history = vec![msg(1, 90, false), msg(1, 90, false), msg(2, 0, false), msg(2, 0, false)];
    let sweep = sweep_channel(&registry, 5, 60, &history, 100);
    assert_eq!(sweep.timers.len(), 2);
    assert_eq!(sweep.deletes, vec![DeleteCall::Bulk(vec![2, 2])]);
}
