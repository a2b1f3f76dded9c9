//! Scheduling of ephemeral messages: every message of a configured channel is
//! deleted once its time to live has passed, unless it was pinned first.
//!
//! The crate is the scheduler's core and does no input or output. The host
//! tells it what happened (a message was created, pins changed, the
//! connection came up) and what it has read from the message store; the core
//! answers with the timers to start and the delete calls to make, and keeps
//! the registry of the deletions that are pending.

pub mod batch;
pub mod clock;
pub mod directory;
pub mod handler;
pub mod laws;
pub mod registry;
pub mod snapshot;
pub mod sweep;
pub mod task;

pub use batch::{delete_calls, DeleteCall, MAX_BATCH};
pub use directory::TtlDirectory;
pub use handler::{PinsAction, TreeHoleHandler};
pub use registry::Registry;
pub use snapshot::{ChannelHistory, MessageSnapshot};
pub use sweep::{delay_from, sweep_channel, ChannelSweep, Timer};
