//! What the message store reports of one message.

use vstd::prelude::*;

verus! {

/// One message as the store shows it at the moment of reading. Times are
/// counted from a fixed epoch in the unit that the time to live is given in.
#[derive(Clone, Copy, Debug, PartialEq, Eq, Structural)]
pub struct MessageSnapshot {
    pub message_id: u64,
    pub channel_id: u64,
    pub created_at: i64,
    pub pinned: bool,
}

/// The identifiers of `messages`, in order.
pub open spec fn ids_of(messages: Seq<MessageSnapshot>) -> Seq<u64> {
    messages.map_values(|m: MessageSnapshot| m.message_id)
}

/// The identifiers of `messages`, as a set.
pub open spec fn message_ids(messages: Seq<MessageSnapshot>) -> Set<u64> {
    ids_of(messages).to_set()
}

/// What was read of one channel's history: the messages, most recent first,
/// or nothing where the store could not be read.
#[derive(Clone, Debug, PartialEq, Eq)]
pub struct ChannelHistory {
    pub channel_id: u64,
    pub messages: Option<Vec<MessageSnapshot>>,
}

} // verus!
