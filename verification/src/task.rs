//! The timer handles that the registry owns.
//!
//! A pending deletion is a task of the tokio runtime that sleeps until the
//! message's fire time and then deletes it. The library never looks inside a
//! handle: it keeps it, asks whether its task has ended, and aborts it.

use tokio::task::{JoinError, JoinHandle};
use vstd::prelude::*;

verus! {

/// `tokio::task::JoinHandle`, the owner's grip on a spawned task. Opaque:
/// nothing is claimed of what a handle holds.
#[verifier::external_type_specification]
#[verifier::external_body]
#[verifier::reject_recursive_types(T)]
pub struct ExJoinHandle<T>(JoinHandle<T>);

/// `tokio::task::JoinError`, which awaiting a handle may give. The library
/// awaits none; the type is declared because the handle's type names it.
#[verifier::external_type_specification]
#[verifier::external_body]
pub struct ExJoinError(JoinError);

/// `tokio::task::JoinHandle::abort`: asks the runtime to stop the task. It
/// returns nothing and never panics; whether the task stops before it has run
/// to its end is the runtime's business, so nothing is claimed.
pub assume_specification<T>[ JoinHandle::<T>::abort ](handle: &JoinHandle<T>)
;

/// `tokio::task::JoinHandle::is_finished`: reads the task's state. The answer
/// depends on how far the runtime has come, so nothing is claimed of it.
pub assume_specification<T>[ JoinHandle::<T>::is_finished ](handle: &JoinHandle<T>) -> (finished:
    bool)
;

} // verus!
