//! The directory of ephemeral channels: which channels delete their messages,
//! and after how long.

use std::collections::HashMap;
use vstd::prelude::*;
use vstd::std_specs::iter::IteratorSpec;

verus! {

broadcast use vstd::std_specs::hash::group_hash_axioms;

/// The time to live of each configured channel. A channel without an entry
/// keeps its messages.
///
/// The scheduler only reads a directory. Whoever owns the configuration
/// builds one and hands it in with each event, so a decision always sees the
/// values of its own moment.
pub struct TtlDirectory {
    ttls: HashMap<u64, u64>,
}

impl View for TtlDirectory {
    type V = Map<u64, u64>;

    closed spec fn view(&self) -> Map<u64, u64> {
        self.ttls@
    }
}

impl TtlDirectory {
    /// A directory with no channel in it.
    pub fn new() -> (directory: TtlDirectory)
        ensures
            directory@ == Map::<u64, u64>::empty(),
    {
        TtlDirectory { ttls: HashMap::new() }
    }

    /// Gives `channel_id` the time to live `ttl`, in place of any it had.
    pub fn set_ttl(&mut self, channel_id: u64, ttl: u64)
        ensures
            final(self)@ == old(self)@.insert(channel_id, ttl),
    {
        self.ttls.insert(channel_id, ttl);
    }

    /// Takes `channel_id` out of the directory.
    pub fn remove(&mut self, channel_id: u64)
        ensures
            final(self)@ == old(self)@.remove(channel_id),
    {
        self.ttls.remove(&channel_id);
    }

    /// The time to live of `channel_id`, if the channel is configured.
    pub fn get_ttl(&self, channel_id: u64) -> (ttl: Option<u64>)
        ensures
            ttl.is_some() == self@.contains_key(channel_id),
            ttl matches Some(t) ==> t == self@[channel_id],
    {
        match self.ttls.get(&channel_id) {
            Some(ttl) => Some(*ttl),
            None => None,
        }
    }

    /// Whether `channel_id` is configured.
    pub fn contains(&self, channel_id: u64) -> (configured: bool)
        ensures
            configured == self@.contains_key(channel_id),
    {
        self.ttls.contains_key(&channel_id)
    }

    /// The configured channels, each once. The order is that in which the
    /// underlying table hands them out, which nothing fixes.
    pub fn channels(&self) -> (ids: Vec<u64>)
        ensures
            ids@.no_duplicates(),
            ids@.to_set() == self@.dom(),
    {
        let mut ids: Vec<u64> = Vec::new();
        for id in it: self.ttls.keys()
            invariant
                ids@ == it.seq().unref().take(it.index()),
        {
            ids.push(*id);
            assert(ids@ =~= it.seq().unref().take(it.index() + 1));
        }
        assert(ids@ =~= self.ttls.keys().remaining().unref());
        ids
    }
}

} // verus!
