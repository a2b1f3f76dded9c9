//! The registry of pending deletions: which messages have a timer running,
//! and when each is due.

use std::collections::HashMap;
use tokio::task::JoinHandle;
use vstd::prelude::*;
use vstd::std_specs::iter::IteratorSpec;

verus! {

broadcast use vstd::std_specs::hash::group_hash_axioms;

/// One scheduled deletion: when it fires, and the handle of its timer.
struct TrackedDeletion {
    fire_at: i128,
    handle: JoinHandle<()>,
}

/// The pending deletions, by message identifier.
///
/// Its view is the map from each tracked message to its fire time. A map
/// holds a key once, so no message has two entries.
pub struct Registry {
    entries: HashMap<u64, TrackedDeletion>,
}

impl View for Registry {
    type V = Map<u64, int>;

    closed spec fn view(&self) -> Map<u64, int> {
        self.entries@.map_values(|t: TrackedDeletion| t.fire_at as int)
    }
}

impl Registry {
    /// A registry that tracks nothing.
    pub fn new() -> (registry: Registry)
        ensures
            registry@ == Map::<u64, int>::empty(),
    {
        let registry = Registry { entries: HashMap::new() };
        assert(registry@ =~= Map::<u64, int>::empty());
        registry
    }

    /// A registry holds finitely many entries.
    pub proof fn lemma_finite(&self)
        ensures
            self@.dom().finite(),
    {
        assert(self@.dom() =~= self.entries@.dom());
    }

    /// Whether `message_id` has a pending deletion.
    pub fn contains(&self, message_id: u64) -> (present: bool)
        ensures
            present == self@.contains_key(message_id),
    {
        self.entries.contains_key(&message_id)
    }

    /// Stores the timer `handle` for `message_id`, due at `fire_at`. An entry
    /// that the message already had is replaced, and its handle let go
    /// without being aborted.
    pub fn schedule(&mut self, message_id: u64, fire_at: i128, handle: JoinHandle<()>)
        ensures
            final(self)@ == old(self)@.insert(message_id, fire_at as int),
    {
        self.entries.insert(message_id, TrackedDeletion { fire_at, handle });
        assert(self@ =~= old(self)@.insert(message_id, fire_at as int));
    }

    /// Removes the entry of `message_id`, if there is one, and aborts its
    /// timer. Says whether there was one.
    pub fn cancel(&mut self, message_id: u64) -> (found: bool)
        ensures
            found == old(self)@.contains_key(message_id),
            final(self)@ == old(self)@.remove(message_id),
    {
        let removed = self.entries.remove(&message_id);
        assert(self@ =~= old(self)@.remove(message_id));
        match removed {
            Some(entry) => {
                entry.handle.abort();
                true
            },
            None => false,
        }
    }

    /// Removes the entry of `message_id`, if there is one, and leaves its
    /// timer alone: this is what a timer does for itself once it has fired.
    /// Says whether there was an entry.
    pub fn complete(&mut self, message_id: u64) -> (found: bool)
        ensures
            found == old(self)@.contains_key(message_id),
            final(self)@ == old(self)@.remove(message_id),
    {
        let removed = self.entries.remove(&message_id);
        assert(self@ =~= old(self)@.remove(message_id));
        removed.is_some()
    }

    /// When the deletion of `message_id` is due, if it is pending.
    pub fn fire_at(&self, message_id: u64) -> (due: Option<i128>)
        ensures
            due.is_some() == self@.contains_key(message_id),
            due matches Some(at) ==> at == self@[message_id],
    {
        match self.entries.get(&message_id) {
            Some(entry) => Some(entry.fire_at),
            None => None,
        }
    }

    /// The number of pending deletions.
    pub fn len(&self) -> (count: usize)
        ensures
            count == self@.len(),
    {
        assert(self@.dom() =~= self.entries@.dom());
        self.entries.len()
    }

    /// Whether nothing is pending.
    pub fn is_empty(&self) -> (empty: bool)
        ensures
            empty == (self@.len() == 0),
    {
        self.len() == 0
    }

    /// The tracked messages, each once. The order is that in which the
    /// underlying table hands them out, which nothing fixes.
    pub fn message_ids(&self) -> (ids: Vec<u64>)
        ensures
            ids@.no_duplicates(),
            ids@.to_set() == self@.dom(),
    {
        let mut ids: Vec<u64> = Vec::new();
        for id in it: self.entries.keys()
            invariant
                ids@ == it.seq().unref().take(it.index()),
        {
            ids.push(*id);
            assert(ids@ =~= it.seq().unref().take(it.index() + 1));
        }
        assert(ids@ =~= self.entries.keys().remaining().unref());
        assert(self@.dom() =~= self.entries@.dom());
        ids
    }

    /// The tracked messages whose timer reports that it has run to its end.
    /// Which those are depends on the runtime at the moment of the call; all
    /// that is fixed is that each is tracked and none is named twice.
    pub fn finished(&self) -> (ids: Vec<u64>)
        ensures
            ids@.no_duplicates(),
            forall|i: int| 0 <= i < ids.len() ==> self@.contains_key(#[trigger] ids[i]),
    {
        let all = self.message_ids();
        let mut ids: Vec<u64> = Vec::new();
        let mut k: usize = 0;
        while k < all.len()
            invariant
                k <= all.len(),
                all@.no_duplicates(),
                all@.to_set() == self@.dom(),
                ids@.no_duplicates(),
                forall|i: int|
                    0 <= i < ids.len() ==> exists|j: int| 0 <= j < k && all[j] == #[trigger] ids[i],
            decreases all.len() - k,
        {
            let id = all[k];
            if self.timer_ended(id) {
                ids.push(id);
            }
            k += 1;
        }
        assert forall|i: int| 0 <= i < ids.len() implies self@.contains_key(#[trigger] ids[i]) by {
            let j = choose|j: int| 0 <= j < all.len() && all[j] == ids[i];
            assert(all@.to_set().contains(all@[j]));
        }
        ids
    }

    /// Whether `message_id` is tracked and its timer reports that it has
    /// ended.
    fn timer_ended(&self, message_id: u64) -> (ended: bool)
        ensures
            ended ==> self@.contains_key(message_id),
    {
        match self.entries.get(&message_id) {
            Some(entry) => entry.handle.is_finished(),
            None => false,
        }
    }

    /// Removes the entries of all of `ids`, aborting nothing.
    pub fn discard(&mut self, ids: &Vec<u64>)
        ensures
            final(self)@ == old(self)@.remove_keys(ids@.to_set()),
    {
        let mut k: usize = 0;
        while k < ids.len()
            invariant
                k <= ids.len(),
                self@ == old(self)@.remove_keys(ids@.take(k as int).to_set()),
            decreases ids.len() - k,
        {
            self.complete(ids[k]);
            proof {
                let before = ids@.take(k as int);
                assert(ids@.take(k + 1) =~= before.push(ids[k as int]));
                before.lemma_push_to_set_commute(ids[k as int]);
                assert(self@ =~= old(self)@.remove_keys(ids@.take(k + 1).to_set()));
            }
            k += 1;
        }
        assert(ids@.take(k as int) =~= ids@);
    }

    /// Drops the entries whose timer has run to its end. Which entries those
    /// are is for the runtime to say; whatever it says, no entry is added or
    /// changed.
    pub fn prune_finished(&mut self)
        ensures
            final(self)@.submap_of(old(self)@),
    {
        let done = self.finished();
        self.discard(&done);
    }
}

} // verus!
