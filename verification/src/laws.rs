//! What holds of every pass, stated over the functions that say what a pass
//! decides.

use crate::batch::{call_count, chunk, MAX_BATCH};
use crate::snapshot::{ids_of, MessageSnapshot};
use crate::sweep::{expired_batch, has_time_left, is_candidate, timer_for, timers_to_start, Timer};
use vstd::prelude::*;

verus! {

/// The identifiers of the messages that `timers` are for, in order.
pub open spec fn timer_ids(timers: Seq<Timer>) -> Seq<u64> {
    timers.map_values(|t: Timer| t.message_id)
}

/// Whether no two messages of `history` share an identifier, as in a history
/// that lists each message of the store once.
pub open spec fn distinct_ids(history: Seq<MessageSnapshot>) -> bool {
    ids_of(history).no_duplicates()
}

/// The registry once each of `timers` has been registered, in order.
pub open spec fn registered(registry: Map<u64, int>, timers: Seq<Timer>) -> Map<u64, int>
    decreases timers.len(),
{
    if timers.len() == 0 {
        registry
    } else {
        let last = timers.last();
        registered(registry, timers.drop_last()).insert(last.message_id, last.fire_at as int)
    }
}

/// The store's history once the messages of `deleted` are gone from it.
pub open spec fn without(history: Seq<MessageSnapshot>, deleted: Seq<u64>) -> Seq<MessageSnapshot> {
    history.filter(|m: MessageSnapshot| !deleted.contains(m.message_id))
}

/// Each timer of a pass stands for a candidate of the history that has time
/// left, and a later timer for a later message: the result is where in the
/// history the `i`-th timer's message stands.
proof fn lemma_timer_origin(
    pending: Set<u64>,
    history: Seq<MessageSnapshot>,
    ttl: u64,
    now: i64,
    i: int,
) -> (j: int)
    requires
        0 <= i < timers_to_start(pending, history, ttl, now).len(),
    ensures
        i <= j < history.len(),
        is_candidate(pending, history[j]),
        has_time_left(history[j], ttl, now),
        timers_to_start(pending, history, ttl, now)[i] == timer_for(history[j], ttl, now),
    decreases history.len(),
{
    let rest = history.drop_last();
    let before = timers_to_start(pending, rest, ttl, now);
    if i < before.len() {
        let j = lemma_timer_origin(pending, rest, ttl, now, i);
        assert(history[j] == rest[j]);
        j
    } else {
        if before.len() > 0 {
            // The timers before this one are no more than the messages before it.
            lemma_timer_origin(pending, rest, ttl, now, before.len() - 1);
        }
        history.len() - 1
    }
}

/// Each message of an expired batch is a candidate of the history whose time
/// has run out: the result is where in the history the `i`-th stands.
proof fn lemma_expired_origin(
    pending: Set<u64>,
    history: Seq<MessageSnapshot>,
    ttl: u64,
    now: i64,
    i: int,
) -> (j: int)
    requires
        0 <= i < expired_batch(pending, history, ttl, now).len(),
    ensures
        0 <= j < history.len(),
        is_candidate(pending, history[j]),
        !has_time_left(history[j], ttl, now),
        expired_batch(pending, history, ttl, now)[i] == history[j].message_id,
    decreases history.len(),
{
    let rest = history.drop_last();
    let before = expired_batch(pending, rest, ttl, now);
    if i < before.len() {
        let j = lemma_expired_origin(pending, rest, ttl, now, i);
        assert(history[j] == rest[j]);
        j
    } else {
        history.len() - 1
    }
}

/// Every candidate of the history is decided: with time left its timer is
/// among those of the pass, without it is in the expired batch.
proof fn lemma_candidate_decided(
    pending: Set<u64>,
    history: Seq<MessageSnapshot>,
    ttl: u64,
    now: i64,
    j: int,
)
    requires
        0 <= j < history.len(),
        is_candidate(pending, history[j]),
    ensures
        has_time_left(history[j], ttl, now) ==> timer_ids(
            timers_to_start(pending, history, ttl, now),
        ).contains(history[j].message_id),
        !has_time_left(history[j], ttl, now) ==> expired_batch(pending, history, ttl, now).contains(
            history[j].message_id,
        ),
    decreases history.len(),
{
    let rest = history.drop_last();
    let timers = timers_to_start(pending, history, ttl, now);
    let expired = expired_batch(pending, history, ttl, now);
    let id = history[j].message_id;
    if j == history.len() - 1 {
        if has_time_left(history[j], ttl, now) {
            assert(timer_ids(timers)[timers.len() - 1] == id);
        } else {
            assert(expired[expired.len() - 1] == id);
        }
    } else {
        assert(rest[j] == history[j]);
        lemma_candidate_decided(pending, rest, ttl, now, j);
        if has_time_left(history[j], ttl, now) {
            let before = timer_ids(timers_to_start(pending, rest, ttl, now));
            let i = choose|i: int| 0 <= i < before.len() && before[i] == id;
            assert(timer_ids(timers)[i] == id);
        } else {
            let before = expired_batch(pending, rest, ttl, now);
            let i = choose|i: int| 0 <= i < before.len() && before[i] == id;
            assert(expired[i] == id);
        }
    }
}

/// The messages with an entry once `timers` are registered are those that
/// had one and those that the timers are for.
proof fn lemma_registered_dom(registry: Map<u64, int>, timers: Seq<Timer>, id: u64)
    ensures
        registered(registry, timers).contains_key(id) <==> registry.contains_key(id) || timer_ids(
            timers,
        ).contains(id),
    decreases timers.len(),
{
    let ids = timer_ids(timers);
    if timers.len() > 0 {
        let rest = timers.drop_last();
        lemma_registered_dom(registry, rest, id);
        assert(ids[timers.len() - 1] == timers.last().message_id);
        if timer_ids(rest).contains(id) {
            let i = choose|i: int| 0 <= i < rest.len() && timer_ids(rest)[i] == id;
            assert(ids[i] == id);
        }
        if ids.contains(id) && timers.last().message_id != id {
            let i = choose|i: int| 0 <= i < timers.len() && ids[i] == id;
            assert(timer_ids(rest)[i] == id);
        }
    }
}

/// The timers of a pass over a history that lists each message once are for
/// messages of which none has a deletion pending and no two are the same.
proof fn lemma_timers_new_and_distinct(
    pending: Set<u64>,
    history: Seq<MessageSnapshot>,
    ttl: u64,
    now: i64,
)
    requires
        distinct_ids(history),
    ensures
        timer_ids(timers_to_start(pending, history, ttl, now)).no_duplicates(),
        forall|id: u64|
            timer_ids(timers_to_start(pending, history, ttl, now)).contains(id) ==> !pending.contains(
                id,
            ),
{
    let timers = timers_to_start(pending, history, ttl, now);
    let ids = timer_ids(timers);
    assert forall|id: u64| ids.contains(id) implies !pending.contains(id) by {
        let i = choose|i: int| 0 <= i < ids.len() && ids[i] == id;
        lemma_timer_origin(pending, history, ttl, now, i);
    }
    assert forall|a: int, b: int| 0 <= a < ids.len() && 0 <= b < ids.len() && a != b implies ids[a]
        != ids[b] by {
        if ids[a] == ids[b] {
            lemma_same_message_same_timer(pending, history, ttl, now, a, b);
        }
    }
}

/// Two timers of a pass for one message are one timer, where the history
/// lists each message once.
proof fn lemma_same_message_same_timer(
    pending: Set<u64>,
    history: Seq<MessageSnapshot>,
    ttl: u64,
    now: i64,
    a: int,
    b: int,
)
    requires
        distinct_ids(history),
        0 <= a < timers_to_start(pending, history, ttl, now).len(),
        0 <= b < timers_to_start(pending, history, ttl, now).len(),
        timers_to_start(pending, history, ttl, now)[a].message_id == timers_to_start(
            pending,
            history,
            ttl,
            now,
        )[b].message_id,
    ensures
        a == b,
    decreases history.len(),
{
    let timers = timers_to_start(pending, history, ttl, now);
    let rest = history.drop_last();
    let before = timers_to_start(pending, rest, ttl, now);
    let last = history.len() - 1;
    assert(distinct_ids(rest)) by {
        assert forall|i: int, j: int| 0 <= i < rest.len() && 0 <= j < rest.len() && i != j implies ids_of(
            rest,
        )[i] != ids_of(rest)[j] by {
            assert(ids_of(rest)[i] == ids_of(history)[i] && ids_of(rest)[j] == ids_of(history)[j]);
        }
    }
    if a < before.len() && b < before.len() {
        assert(timers[a] == before[a] && timers[b] == before[b]);
        lemma_same_message_same_timer(pending, rest, ttl, now, a, b);
    } else if a < before.len() || b < before.len() {
        // One of the two is the timer of the last message, the other that of
        // an earlier one: their messages differ.
        let early = if a < before.len() { a } else { b };
        let late = if a < before.len() { b } else { a };
        assert(timers[early] == before[early]);
        assert(timers[late] == timer_for(history[last], ttl, now));
        let o = lemma_timer_origin(pending, rest, ttl, now, early);
        assert(ids_of(history)[o] == rest[o].message_id);
        assert(ids_of(history)[last] == history[last].message_id);
    }
}

/// Registering timers for distinct messages without an entry adds one entry
/// for each.
proof fn lemma_registered_len(registry: Map<u64, int>, timers: Seq<Timer>)
    requires
        registry.dom().finite(),
        timer_ids(timers).no_duplicates(),
        forall|id: u64| timer_ids(timers).contains(id) ==> !registry.contains_key(id),
    ensures
        registered(registry, timers).dom().finite(),
        registered(registry, timers).len() == registry.len() + timers.len(),
    decreases timers.len(),
{
    if timers.len() > 0 {
        let ids = timer_ids(timers);
        let rest = timers.drop_last();
        let id = timers.last().message_id;
        assert(timer_ids(rest) =~= ids.drop_last());
        assert forall|other: u64| timer_ids(rest).contains(other) implies !registry.contains_key(
            other,
        ) by {
            let i = choose|i: int| 0 <= i < rest.len() && timer_ids(rest)[i] == other;
            assert(ids[i] == other);
        }
        lemma_registered_len(registry, rest);
        lemma_registered_dom(registry, rest, id);
        assert(ids[timers.len() - 1] == id);
        assert(!timer_ids(rest).contains(id)) by {
            if timer_ids(rest).contains(id) {
                let i = choose|i: int| 0 <= i < rest.len() && timer_ids(rest)[i] == id;
                assert(ids[i] == id);
            }
        }
    }
}

/// A pass over a history without candidates decides nothing.
proof fn lemma_no_candidates(pending: Set<u64>, history: Seq<MessageSnapshot>, ttl: u64, now: i64)
    requires
        forall|k: int| 0 <= k < history.len() ==> !is_candidate(pending, #[trigger] history[k]),
    ensures
        timers_to_start(pending, history, ttl, now).len() == 0,
        expired_batch(pending, history, ttl, now).len() == 0,
    decreases history.len(),
{
    if history.len() > 0 {
        let rest = history.drop_last();
        assert forall|k: int| 0 <= k < rest.len() implies !is_candidate(pending, #[trigger] rest[k]) by {
            assert(rest[k] == history[k]);
        }
        lemma_no_candidates(pending, rest, ttl, now);
        assert(!is_candidate(pending, history[history.len() - 1]));
    }
}

/// Uniqueness: a pass over a history that lists each message once starts no
/// timer for a message that has a deletion pending, and no two timers for
/// one message. So once its timers are registered, the registry holds one
/// entry for each timer that is running: those it held, and one more for
/// each timer started.
pub proof fn sweep_keeps_one_timer_per_message(
    registry: Map<u64, int>,
    history: Seq<MessageSnapshot>,
    ttl: u64,
    now: i64,
)
    requires
        registry.dom().finite(),
        distinct_ids(history),
    ensures
        ({
            let timers = timers_to_start(registry.dom(), history, ttl, now);
            &&& timer_ids(timers).no_duplicates()
            &&& forall|id: u64| timer_ids(timers).contains(id) ==> !registry.contains_key(id)
            &&& registered(registry, timers).dom().finite()
            &&& registered(registry, timers).len() == registry.len() + timers.len()
        }),
{
    let timers = timers_to_start(registry.dom(), history, ttl, now);
    lemma_timers_new_and_distinct(registry.dom(), history, ttl, now);
    lemma_registered_len(registry, timers);
}

/// Every timer that a pass starts is for a message of the history, is due
/// one time to live after the message was created, and is due later than
/// `now`: a message whose time has come gets no timer. The result is where
/// in the history the `i`-th timer's message stands.
pub proof fn sweep_timers_are_due_later(
    pending: Set<u64>,
    history: Seq<MessageSnapshot>,
    ttl: u64,
    now: i64,
    i: int,
) -> (j: int)
    requires
        0 <= i < timers_to_start(pending, history, ttl, now).len(),
    ensures
        0 <= j < history.len(),
        timers_to_start(pending, history, ttl, now)[i].message_id == history[j].message_id,
        timers_to_start(pending, history, ttl, now)[i].fire_at == history[j].created_at + ttl,
        timers_to_start(pending, history, ttl, now)[i].fire_at > now,
        timers_to_start(pending, history, ttl, now)[i].delay >= 1,
{
    lemma_timer_origin(pending, history, ttl, now, i)
}

/// Pin exclusion: a pass starts no timer for a pinned message and puts none
/// in its expired batch. So where no pinned message of a history that lists
/// each message once has a deletion pending before a pass, as after a
/// cancellation, none has one once the timers of the pass are registered.
pub proof fn sweep_leaves_pinned_alone(
    registry: Map<u64, int>,
    history: Seq<MessageSnapshot>,
    ttl: u64,
    now: i64,
)
    requires
        distinct_ids(history),
        forall|k: int|
            0 <= k < history.len() && (#[trigger] history[k]).pinned ==> !registry.contains_key(
                history[k].message_id,
            ),
    ensures
        ({
            let timers = timers_to_start(registry.dom(), history, ttl, now);
            let expired = expired_batch(registry.dom(), history, ttl, now);
            forall|k: int|
                0 <= k < history.len() && (#[trigger] history[k]).pinned ==> {
                    &&& !timer_ids(timers).contains(history[k].message_id)
                    &&& !expired.contains(history[k].message_id)
                    &&& !registered(registry, timers).contains_key(history[k].message_id)
                }
        }),
{
    let pending = registry.dom();
    let timers = timers_to_start(pending, history, ttl, now);
    let expired = expired_batch(pending, history, ttl, now);
    assert forall|k: int| 0 <= k < history.len() && (#[trigger] history[k]).pinned implies {
        &&& !timer_ids(timers).contains(history[k].message_id)
        &&& !expired.contains(history[k].message_id)
        &&& !registered(registry, timers).contains_key(history[k].message_id)
    } by {
        let id = history[k].message_id;
        assert(ids_of(history)[k] == id);
        lemma_registered_dom(registry, timers, id);
        if timer_ids(timers).contains(id) {
            let i = choose|i: int| 0 <= i < timers.len() && timer_ids(timers)[i] == id;
            let j = lemma_timer_origin(pending, history, ttl, now, i);
            assert(ids_of(history)[j] == id);
        }
        if expired.contains(id) {
            let i = choose|i: int| 0 <= i < expired.len() && expired[i] == id;
            let j = lemma_expired_origin(pending, history, ttl, now, i);
            assert(ids_of(history)[j] == id);
        }
    }
}

/// Idempotence: let a pass at `now` be carried out in full, its timers
/// registered and the messages of its expired batch deleted from the store.
/// Then a second pass, at whatever time `later`, with nothing else having
/// happened, starts no timer and makes no delete call.
pub proof fn second_sweep_does_nothing(
    registry: Map<u64, int>,
    history: Seq<MessageSnapshot>,
    ttl: u64,
    now: i64,
    later: i64,
)
    ensures
        ({
            let timers = timers_to_start(registry.dom(), history, ttl, now);
            let expired = expired_batch(registry.dom(), history, ttl, now);
            let registry_after = registered(registry, timers);
            let history_after = without(history, expired);
            &&& timers_to_start(registry_after.dom(), history_after, ttl, later).len() == 0
            &&& expired_batch(registry_after.dom(), history_after, ttl, later).len() == 0
            &&& call_count(expired_batch(registry_after.dom(), history_after, ttl, later).len()) == 0
        }),
{
    let pending = registry.dom();
    let timers = timers_to_start(pending, history, ttl, now);
    let expired = expired_batch(pending, history, ttl, now);
    let registry_after = registered(registry, timers);
    let history_after = without(history, expired);
    let kept = |m: MessageSnapshot| !expired.contains(m.message_id);
    assert forall|k: int| 0 <= k < history_after.len() implies !is_candidate(
        registry_after.dom(),
        #[trigger] history_after[k],
    ) by {
        let m = history_after[k];
        history.lemma_filter_pred(kept, k);
        assert(history_after.contains(m));
        history.lemma_filter_contains_rev(kept, m);
        let j = choose|j: int| 0 <= j < history.len() && history[j] == m;
        lemma_registered_dom(registry, timers, m.message_id);
        if is_candidate(pending, m) {
            lemma_candidate_decided(pending, history, ttl, now, j);
        }
    }
    lemma_no_candidates(registry_after.dom(), history_after, ttl, later);
}

/// Recovery: a message whose time had run out at one pass and that is
/// still in the store at a later one, its deletion having failed, is in the
/// expired batch again. Here the first pass was over the same history, which
/// lists each message once, and its timers have been registered since.
pub proof fn missed_deletion_is_found_again(
    registry: Map<u64, int>,
    history: Seq<MessageSnapshot>,
    ttl: u64,
    now: i64,
    later: i64,
    j: int,
)
    requires
        distinct_ids(history),
        now <= later,
        0 <= j < history.len(),
        is_candidate(registry.dom(), history[j]),
        !has_time_left(history[j], ttl, now),
    ensures
        ({
            let timers = timers_to_start(registry.dom(), history, ttl, now);
            let registry_after = registered(registry, timers);
            &&& expired_batch(registry.dom(), history, ttl, now).contains(history[j].message_id)
            &&& expired_batch(registry_after.dom(), history, ttl, later).contains(
                history[j].message_id,
            )
        }),
{
    let pending = registry.dom();
    let timers = timers_to_start(pending, history, ttl, now);
    let registry_after = registered(registry, timers);
    let id = history[j].message_id;
    lemma_candidate_decided(pending, history, ttl, now, j);
    lemma_registered_dom(registry, timers, id);
    assert(ids_of(history)[j] == id);
    if timer_ids(timers).contains(id) {
        let i = choose|i: int| 0 <= i < timers.len() && timer_ids(timers)[i] == id;
        let o = lemma_timer_origin(pending, history, ttl, now, i);
        assert(ids_of(history)[o] == id);
    }
    lemma_candidate_decided(registry_after.dom(), history, ttl, later, j);
}

/// Chunking: the chunks of a batch of `n` messages are `n / 100`, rounded
/// up, in number; each holds a hundred messages but the last, which holds
/// what is left, one at least; and together they are the batch, in order.
pub proof fn chunks_partition_the_batch(ids: Seq<u64>)
    ensures
        ({
            let calls = call_count(ids.len()) as int;
            &&& calls * MAX_BATCH >= ids.len()
            &&& calls * MAX_BATCH < ids.len() + MAX_BATCH
            &&& forall|i: int| 0 <= i < calls - 1 ==> (#[trigger] chunk(ids, i)).len() == MAX_BATCH
            &&& ids.len() > 0 ==> 1 <= chunk(ids, calls - 1).len() <= MAX_BATCH
            &&& ids.len() > 0 ==> chunk(ids, calls - 1).len() == ids.len() - (calls - 1) * MAX_BATCH
            &&& forall|i: int, k: int|
                0 <= i < calls && 0 <= k < chunk(ids, i).len() ==> chunk(ids, i)[k] == ids[
                #[trigger] (MAX_BATCH * i + k)]
        }),
{
}

} // verus!
