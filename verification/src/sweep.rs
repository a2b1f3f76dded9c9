//! Reconciliation: what one pass over a channel's history decides.
//!
//! A pass reads the history and the registry and changes neither. It names
//! the timers to start and the delete calls to make; the caller starts the
//! timers, registers each, and makes the calls.

use crate::batch::{delete_calls, is_delete_plan, DeleteCall};
use crate::registry::Registry;
use crate::snapshot::MessageSnapshot;
use vstd::prelude::*;

verus! {

/// A timer to start: when `delay` has passed, at `fire_at`, `message_id` is
/// to be deleted.
#[derive(Clone, Copy, Debug, PartialEq, Eq, Structural)]
pub struct Timer {
    pub message_id: u64,
    pub fire_at: i128,
    pub delay: u64,
}

/// What a pass over one channel decided.
#[derive(Clone, Debug, PartialEq, Eq)]
pub struct ChannelSweep {
    pub channel_id: u64,
    /// The timers to start, in the order of the history.
    pub timers: Vec<Timer>,
    /// The delete calls to make, in order.
    pub deletes: Vec<DeleteCall>,
}

/// When a message created at `created_at` is due under the time to live
/// `ttl`.
pub open spec fn fire_time(created_at: int, ttl: int) -> int {
    created_at + ttl
}

/// The time left at `now` until `fire_at`, as far as a `u64` can hold it.
pub open spec fn delay_until(fire_at: int, now: int) -> int {
    if fire_at <= now {
        0
    } else if fire_at - now > u64::MAX {
        u64::MAX as int
    } else {
        fire_at - now
    }
}

/// Whether a pass has to decide about `m`: nothing is pending for it, and it
/// is not pinned.
pub open spec fn is_candidate(pending: Set<u64>, m: MessageSnapshot) -> bool {
    !pending.contains(m.message_id) && !m.pinned
}

/// Whether `m` still has time left at `now`.
pub open spec fn has_time_left(m: MessageSnapshot, ttl: u64, now: i64) -> bool {
    fire_time(m.created_at as int, ttl as int) > now
}

/// The timer that a pass starts for `m`.
pub open spec fn timer_for(m: MessageSnapshot, ttl: u64, now: i64) -> Timer {
    let fire_at = fire_time(m.created_at as int, ttl as int);
    Timer {
        message_id: m.message_id,
        fire_at: fire_at as i128,
        delay: delay_until(fire_at, now as int) as u64,
    }
}

/// The timers that a pass at `now` starts: one for each candidate of
/// `history` that has time left, in the order of the history.
pub open spec fn timers_to_start(
    pending: Set<u64>,
    history: Seq<MessageSnapshot>,
    ttl: u64,
    now: i64,
) -> Seq<Timer> {
    history.filter_map(
        |m: MessageSnapshot|
            if is_candidate(pending, m) && has_time_left(m, ttl, now) {
                Some(timer_for(m, ttl, now))
            } else {
                None
            },
    )
}

/// The expired batch of a pass at `now`: the candidates of `history` whose
/// time has run out, in the order of the history.
pub open spec fn expired_batch(
    pending: Set<u64>,
    history: Seq<MessageSnapshot>,
    ttl: u64,
    now: i64,
) -> Seq<u64> {
    history.filter_map(
        |m: MessageSnapshot|
            if is_candidate(pending, m) && !has_time_left(m, ttl, now) {
                Some(m.message_id)
            } else {
                None
            },
    )
}

/// Whether `sweep` is what a pass at `now` over `history` decides for
/// `channel_id`, with deletions pending for `pending`.
pub open spec fn is_sweep_of(
    sweep: ChannelSweep,
    pending: Set<u64>,
    channel_id: u64,
    ttl: u64,
    history: Seq<MessageSnapshot>,
    now: i64,
) -> bool {
    &&& sweep.channel_id == channel_id
    &&& sweep.timers@ == timers_to_start(pending, history, ttl, now)
    &&& is_delete_plan(sweep.deletes@, expired_batch(pending, history, ttl, now))
}

/// The time left at `now` until `fire_at`.
pub fn delay_from(fire_at: i128, now: i64) -> (delay: u64)
    ensures
        delay == delay_until(fire_at as int, now as int),
{
    let now_wide: i128 = now as i128;
    let limit: i128 = now_wide + u64::MAX as i128;
    if fire_at <= now_wide {
        0
    } else if fire_at > limit {
        u64::MAX
    } else {
        (fire_at - now_wide) as u64
    }
}

/// Decides one pass over `history`, the messages of `channel_id`, at `now`.
pub fn sweep_channel(
    registry: &Registry,
    channel_id: u64,
    ttl: u64,
    history: &Vec<MessageSnapshot>,
    now: i64,
) -> (sweep: ChannelSweep)
    ensures
        is_sweep_of(sweep, registry@.dom(), channel_id, ttl, history@, now),
{
    let ghost pending = registry@.dom();
    let mut timers: Vec<Timer> = Vec::new();
    let mut expired: Vec<u64> = Vec::new();
    let mut k: usize = 0;
    while k < history.len()
        invariant
            k <= history.len(),
            pending == registry@.dom(),
            timers@ == timers_to_start(pending, history@.take(k as int), ttl, now),
            expired@ == expired_batch(pending, history@.take(k as int), ttl, now),
        decreases history.len() - k,
    {
        let m = history[k];
        proof {
            history@.lemma_filter_map_take_succ(
                |m: MessageSnapshot|
                    if is_candidate(pending, m) && has_time_left(m, ttl, now) {
                        Some(timer_for(m, ttl, now))
                    } else {
                        None
                    },
                k as int,
            );
            history@.lemma_filter_map_take_succ(
                |m: MessageSnapshot|
                    if is_candidate(pending, m) && !has_time_left(m, ttl, now) {
                        Some(m.message_id)
                    } else {
                        None
                    },
                k as int,
            );
        }
        if !m.pinned && !registry.contains(m.message_id) {
            let fire_at: i128 = m.created_at as i128 + ttl as i128;
            if fire_at > now as i128 {
                let delay = delay_from(fire_at, now);
                timers.push(Timer { message_id: m.message_id, fire_at, delay });
            } else {
                expired.push(m.message_id);
            }
        }
        k += 1;
    }
    assert(history@.take(k as int) =~= history@);
    let deletes = delete_calls(&expired);
    ChannelSweep { channel_id, timers, deletes }
}

} // verus!
