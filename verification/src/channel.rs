//! The bounded channels that carry events, requests and outbound bytes.

use tokio::sync::mpsc::error::TrySendError;
use tokio::sync::mpsc::{Receiver, Sender};
use vstd::prelude::*;

verus! {

#[verifier::external_type_specification]
#[verifier::external_body]
#[verifier::reject_recursive_types(T)]
pub struct ExSender<T>(Sender<T>);

#[verifier::external_type_specification]
#[verifier::external_body]
#[verifier::reject_recursive_types(T)]
pub struct ExReceiver<T>(Receiver<T>);

/// The largest capacity a bounded channel can be made with.
pub const MAX_CAPACITY: usize = usize::MAX / 8;

/// How an attempt to enqueue a value without waiting ended.
#[derive(Clone, Copy, Debug, PartialEq, Eq, Structural)]
pub enum SendOutcome {
    /// The value is in the channel.
    Queued,
    /// The channel was at capacity; the value was dropped.
    Full,
    /// The receiving side is gone; the value was dropped.
    Closed,
}

/// A new bounded channel, made by `tokio::sync::mpsc::channel`. That function
/// panics for a capacity of zero or above its maximum, which the precondition
/// leaves out. Nothing is claimed of the two handles.
pub assume_specification<T>[ tokio::sync::mpsc::channel::<T> ](buffer: usize) -> (r: (
    Sender<T>,
    Receiver<T>,
))
    requires
        0 < buffer <= MAX_CAPACITY,
;

/// One call of `Sender::try_send`, with its three results told apart. Which
/// of them comes back depends on the channel at that moment, so nothing is
/// claimed of it.
#[verifier::external_body]
pub(crate) fn try_send<T>(tx: &Sender<T>, value: T) -> (outcome: SendOutcome) {
    match tx.try_send(value) {
        Ok(()) => SendOutcome::Queued,
        Err(TrySendError::Full(_)) => SendOutcome::Full,
        Err(TrySendError::Closed(_)) => SendOutcome::Closed,
    }
}

/// Another handle to the channel of `tx`, made by `Sender::clone`. The handle
/// is opaque, so nothing is claimed of it.
#[verifier::external_body]
pub(crate) fn clone_sender<T>(tx: &Sender<T>) -> (r: Sender<T>) {
    tx.clone()
}

} // verus!
