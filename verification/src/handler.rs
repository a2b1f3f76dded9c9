//! The scheduler's core: the registry of pending deletions and the entry
//! points for the events that reach it.
//!
//! The core decides and keeps the books; it never talks to the message store
//! and never waits. Each entry point takes what the caller has read or been
//! told and answers with what the caller is to do next: timers to start,
//! channels to read, delete calls to make. Access from several tasks is the
//! caller's to order, with a lock round the handler.

use crate::clock::now_millis;
use crate::directory::TtlDirectory;
use crate::registry::Registry;
use crate::snapshot::{ids_of, message_ids, ChannelHistory, MessageSnapshot};
use crate::sweep::{is_sweep_of, sweep_channel, ChannelSweep, Timer};
use tokio::task::JoinHandle;
use vstd::prelude::*;

verus! {

/// What a change of a channel's pins asks of the caller.
#[derive(Clone, Copy, Debug, PartialEq, Eq, Structural)]
pub enum PinsAction {
    /// The channel is not configured: do nothing.
    Ignore,
    /// Nothing new is pinned: sweep all configured channels.
    Sweep,
    /// Read the channel's pinned messages and hand them to
    /// `TreeHoleHandler::cancel_pinned`; where they cannot be read, skip
    /// that. Then sweep all configured channels, either way.
    CancelThenSweep,
}

/// The timer for a message that has just been created, if its channel is
/// configured: it fires one time to live after `now`.
pub open spec fn live_timer(
    directory: Map<u64, u64>,
    msg: MessageSnapshot,
    now: i64,
) -> Option<Timer> {
    if directory.contains_key(msg.channel_id) {
        let ttl = directory[msg.channel_id];
        Some(Timer { message_id: msg.message_id, fire_at: (now + ttl) as i128, delay: ttl })
    } else {
        None
    }
}

/// What a change of the pins of `channel_id` asks for.
pub open spec fn pins_action(
    directory: Map<u64, u64>,
    channel_id: u64,
    last_pin_timestamp: Option<i64>,
) -> PinsAction {
    if !directory.contains_key(channel_id) {
        PinsAction::Ignore
    } else if last_pin_timestamp is None {
        PinsAction::Sweep
    } else {
        PinsAction::CancelThenSweep
    }
}

/// Whether `result` is what a sweep at `now` makes of the history `read`: a
/// pass over its messages where the channel is configured and was read, and
/// nothing otherwise.
pub open spec fn is_sweep_result(
    result: Option<ChannelSweep>,
    pending: Set<u64>,
    directory: Map<u64, u64>,
    read: ChannelHistory,
    now: i64,
) -> bool {
    if directory.contains_key(read.channel_id) && read.messages is Some {
        &&& result matches Some(sweep)
        &&& is_sweep_of(
            sweep,
            pending,
            read.channel_id,
            directory[read.channel_id],
            read.messages->0@,
            now,
        )
    } else {
        result is None
    }
}

/// Whether `sweeps` holds, for each of `histories` in turn, what a sweep at
/// `now` makes of it.
pub open spec fn are_sweeps_of(
    sweeps: Seq<Option<ChannelSweep>>,
    pending: Set<u64>,
    directory: Map<u64, u64>,
    histories: Seq<ChannelHistory>,
    now: i64,
) -> bool {
    &&& sweeps.len() == histories.len()
    &&& forall|i: int|
        0 <= i < sweeps.len() ==> is_sweep_result(
            #[trigger] sweeps[i],
            pending,
            directory,
            histories[i],
            now,
        )
}

/// The scheduler of one process. Its view is that of its registry: the map
/// from each message with a pending deletion to its fire time.
pub struct TreeHoleHandler {
    msgs: Registry,
}

impl View for TreeHoleHandler {
    type V = Map<u64, int>;

    closed spec fn view(&self) -> Map<u64, int> {
        self.msgs@
    }
}

impl Default for TreeHoleHandler {
    fn default() -> (handler: TreeHoleHandler)
        ensures
            handler@ == Map::<u64, int>::empty(),
    {
        TreeHoleHandler::new()
    }
}

impl TreeHoleHandler {
    /// A scheduler with nothing pending.
    pub fn new() -> (handler: TreeHoleHandler)
        ensures
            handler@ == Map::<u64, int>::empty(),
    {
        TreeHoleHandler { msgs: Registry::new() }
    }

    /// A scheduler has finitely many deletions pending.
    pub proof fn lemma_finite(&self)
        ensures
            self@.dom().finite(),
    {
        self.msgs.lemma_finite();
    }

    /// Whether a deletion is pending for `message_id`.
    pub fn contains(&self, message_id: u64) -> (pending: bool)
        ensures
            pending == self@.contains_key(message_id),
    {
        self.msgs.contains(message_id)
    }

    /// When the deletion of `message_id` is due, if one is pending.
    pub fn fire_at(&self, message_id: u64) -> (due: Option<i128>)
        ensures
            due.is_some() == self@.contains_key(message_id),
            due matches Some(at) ==> at == self@[message_id],
    {
        self.msgs.fire_at(message_id)
    }

    /// The number of pending deletions.
    pub fn len(&self) -> (count: usize)
        ensures
            count == self@.len(),
    {
        self.msgs.len()
    }

    /// A message was created, and the clock reads `now`. Answers with the
    /// timer to start, or with nothing where the message's channel is not
    /// configured. The caller starts the timer and hands it to
    /// `schedule_live`.
    pub fn message_at(
        &self,
        directory: &TtlDirectory,
        msg: &MessageSnapshot,
        now: i64,
    ) -> (timer: Option<Timer>)
        ensures
            timer == live_timer(directory@, *msg, now),
    {
        match directory.get_ttl(msg.channel_id) {
            Some(ttl) => {
                let fire_at: i128 = now as i128 + ttl as i128;
                Some(Timer { message_id: msg.message_id, fire_at, delay: ttl })
            },
            None => None,
        }
    }

    /// A message was created: `message_at`, at the time that the wall clock
    /// shows, in milliseconds.
    pub fn message(&self, directory: &TtlDirectory, msg: &MessageSnapshot) -> (timer: Option<Timer>)
        ensures
            exists|now: i64| timer == #[trigger] live_timer(directory@, *msg, now),
    {
        let now = now_millis();
        self.message_at(directory, msg, now)
    }

    /// Registers a started timer: `handle` runs `timer`. An entry that the
    /// message already had is replaced.
    pub fn schedule(&mut self, timer: Timer, handle: JoinHandle<()>)
        ensures
            final(self)@ == old(self)@.insert(timer.message_id, timer.fire_at as int),
    {
        self.msgs.schedule(timer.message_id, timer.fire_at, handle);
    }

    /// Registers the timer of a newly created message, then drops the
    /// entries whose timer has run to its end. Which those are is for the
    /// runtime to say; whatever it says, nothing but the new entry is added
    /// and no other entry changed.
    pub fn schedule_live(&mut self, timer: Timer, handle: JoinHandle<()>)
        ensures
            final(self)@.submap_of(old(self)@.insert(timer.message_id, timer.fire_at as int)),
    {
        self.msgs.schedule(timer.message_id, timer.fire_at, handle);
        self.msgs.prune_finished();
    }

    /// Drops the entries whose timer has run to its end.
    pub fn prune_finished(&mut self)
        ensures
            final(self)@.submap_of(old(self)@),
    {
        self.msgs.prune_finished();
    }

    /// The timer of `message_id` has fired and made its delete call: its
    /// entry goes. Says whether there was one.
    pub fn timer_fired(&mut self, message_id: u64) -> (found: bool)
        ensures
            found == old(self)@.contains_key(message_id),
            final(self)@ == old(self)@.remove(message_id),
    {
        self.msgs.complete(message_id)
    }

    /// The pins of `channel_id` changed. Says what the caller is to do.
    pub fn channel_pins_update(
        &self,
        directory: &TtlDirectory,
        channel_id: u64,
        last_pin_timestamp: Option<i64>,
    ) -> (action: PinsAction)
        ensures
            action == pins_action(directory@, channel_id, last_pin_timestamp),
    {
        if !directory.contains(channel_id) {
            PinsAction::Ignore
        } else if last_pin_timestamp.is_none() {
            PinsAction::Sweep
        } else {
            PinsAction::CancelThenSweep
        }
    }

    /// Cancels the pending deletion of each of `pinned`, the messages that
    /// the store shows as pinned: the entry goes and its timer is aborted.
    pub fn cancel_pinned(&mut self, pinned: &Vec<MessageSnapshot>)
        ensures
            final(self)@ == old(self)@.remove_keys(message_ids(pinned@)),
            forall|i: int|
                0 <= i < pinned.len() ==> !final(self)@.contains_key(
                    (#[trigger] pinned[i]).message_id,
                ),
    {
        let ghost ids = ids_of(pinned@);
        let mut k: usize = 0;
        while k < pinned.len()
            invariant
                k <= pinned.len(),
                ids == ids_of(pinned@),
                self@ == old(self)@.remove_keys(ids.take(k as int).to_set()),
            decreases pinned.len() - k,
        {
            self.msgs.cancel(pinned[k].message_id);
            proof {
                let before = ids.take(k as int);
                assert(ids.take(k + 1) =~= before.push(pinned[k as int].message_id));
                before.lemma_push_to_set_commute(pinned[k as int].message_id);
                assert(self@ =~= old(self)@.remove_keys(ids.take(k + 1).to_set()));
            }
            k += 1;
        }
        assert(ids.take(k as int) =~= ids);
        assert forall|i: int| 0 <= i < pinned.len() implies !self@.contains_key(
            (#[trigger] pinned[i]).message_id,
        ) by {
            assert(ids[i] == pinned[i].message_id);
            assert(ids.to_set().contains(ids[i]));
        }
    }

    /// The channels that a full sweep covers: all that are configured, each
    /// once. The caller reads the history of each and hands what it read to
    /// `delete_messages`.
    pub fn sweep_channels(&self, directory: &TtlDirectory) -> (channels: Vec<u64>)
        ensures
            channels@.no_duplicates(),
            channels@.to_set() == directory@.dom(),
    {
        directory.channels()
    }

    /// The connection is up and the cache filled: a full sweep is due. Names
    /// the channels to sweep, as `sweep_channels` does.
    pub fn cache_ready(&self, directory: &TtlDirectory) -> (channels: Vec<u64>)
        ensures
            channels@.no_duplicates(),
            channels@.to_set() == directory@.dom(),
    {
        self.sweep_channels(directory)
    }

    /// The connection was resumed: a full sweep is due. Names the channels
    /// to sweep, as `sweep_channels` does.
    pub fn resume(&self, directory: &TtlDirectory) -> (channels: Vec<u64>)
        ensures
            channels@.no_duplicates(),
            channels@.to_set() == directory@.dom(),
    {
        self.sweep_channels(directory)
    }

    /// Decides one pass over `history`, the messages of `channel_id`, at
    /// `now`. A message that is pinned or has a deletion pending is left
    /// alone; one with time left gets a timer; the rest are cut into delete
    /// calls. The caller starts the timers, hands each to `schedule`, and
    /// makes the calls, going on after one that fails.
    pub fn delete_in_channel_at(
        &self,
        channel_id: u64,
        ttl: u64,
        history: &Vec<MessageSnapshot>,
        now: i64,
    ) -> (sweep: ChannelSweep)
        ensures
            is_sweep_of(sweep, self@.dom(), channel_id, ttl, history@, now),
    {
        sweep_channel(&self.msgs, channel_id, ttl, history, now)
    }

    /// `delete_in_channel_at`, at the time that the wall clock shows, in
    /// milliseconds.
    pub fn delete_in_channel(
        &self,
        channel_id: u64,
        ttl: u64,
        history: &Vec<MessageSnapshot>,
    ) -> (sweep: ChannelSweep)
        ensures
            exists|now: i64| #[trigger]
                is_sweep_of(sweep, self@.dom(), channel_id, ttl, history@, now),
    {
        let now = now_millis();
        self.delete_in_channel_at(channel_id, ttl, history, now)
    }

    /// Sweeps the channels whose histories were read, at `now`: for each of
    /// `histories` in turn, a pass where the channel is configured and was
    /// read, nothing otherwise. One channel that could not be read does not
    /// hold up the others.
    pub fn delete_messages_at(
        &self,
        directory: &TtlDirectory,
        histories: &Vec<ChannelHistory>,
        now: i64,
    ) -> (sweeps: Vec<Option<ChannelSweep>>)
        ensures
            are_sweeps_of(sweeps@, self@.dom(), directory@, histories@, now),
    {
        let mut sweeps: Vec<Option<ChannelSweep>> = Vec::new();
        let mut k: usize = 0;
        while k < histories.len()
            invariant
                k <= histories.len(),
                sweeps.len() == k,
                forall|i: int|
                    0 <= i < k ==> is_sweep_result(
                        #[trigger] sweeps[i],
                        self@.dom(),
                        directory@,
                        histories[i],
                        now,
                    ),
            decreases histories.len() - k,
        {
            let read = &histories[k];
            let result = match (&read.messages, directory.get_ttl(read.channel_id)) {
                (Some(messages), Some(ttl)) => Some(
                    self.delete_in_channel_at(read.channel_id, ttl, messages, now),
                ),
                _ => None,
            };
            sweeps.push(result);
            k += 1;
        }
        sweeps
    }

    /// `delete_messages_at`, at the time that the wall clock shows, in
    /// milliseconds.
    pub fn delete_messages(
        &self,
        directory: &TtlDirectory,
        histories: &Vec<ChannelHistory>,
    ) -> (sweeps: Vec<Option<ChannelSweep>>)
        ensures
            exists|now: i64| #[trigger]
                are_sweeps_of(sweeps@, self@.dom(), directory@, histories@, now),
    {
        let now = now_millis();
        self.delete_messages_at(directory, histories, now)
    }
}

} // verus!
