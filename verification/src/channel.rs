//! The fan-out channel of a supervisor, as `tokio::sync::broadcast` provides it.
//!
//! Every receiver sees each message sent after it was created. Who is
//! listening at a given moment depends on tasks outside this crate, so the
//! items below claim nothing about what a channel holds or delivers. The one
//! thing they keep track of is the capacity a channel was asked for.

use vstd::prelude::*;
use tokio::sync::broadcast::{Receiver, Sender};
use crate::task_handle::TaskMessage;

verus! {

/// `tokio::sync::broadcast::Sender`, carried through as an opaque value.
#[verifier::external_type_specification]
#[verifier::external_body]
#[verifier::reject_recursive_types(T)]
pub struct ExSender<T>(Sender<T>);

/// `tokio::sync::broadcast::Receiver`, carried through as an opaque value.
#[verifier::external_type_specification]
#[verifier::external_body]
#[verifier::reject_recursive_types(T)]
pub struct ExReceiver<T>(Receiver<T>);

/// The capacity the channel of a sender was made with.
pub uninterp spec fn asked_capacity(tx: Sender<TaskMessage>) -> nat;

/// Largest capacity that `tokio::sync::broadcast::channel` accepts.
pub open spec fn max_capacity() -> int {
    usize::MAX as int / 2
}

/// Calls `tokio::sync::broadcast::channel` and keeps the sending half; the
/// receiver that comes with it is dropped at once. The call panics on a
/// capacity of zero or above half of `usize::MAX`, which `requires` leaves
/// out. The channel keeps at least `capacity` messages for a slow receiver;
/// the contract records the number that was asked for and nothing else.
#[verifier::external_body]
pub(crate) fn open_channel(capacity: usize) -> (tx: Sender<TaskMessage>)
    requires
        0 < capacity <= max_capacity(),
    ensures
        asked_capacity(tx) == capacity,
{
    tokio::sync::broadcast::channel(capacity).0
}

/// Calls `Sender::send`. The result tells whether any receiver existed at that
/// moment; `send` fails in no other way. Receivers come and go outside this
/// crate, so nothing is claimed of the result.
#[verifier::external_body]
pub(crate) fn send_message(tx: &Sender<TaskMessage>, message: TaskMessage) -> (heard: bool) {
    tx.send(message).is_ok()
}

/// Calls `Sender::subscribe`, which makes a receiver for the messages sent
/// from now on. It panics only when a quarter of `usize::MAX` receivers are
/// alive at once, more than an address space holds. Nothing is claimed of
/// the receiver returned.
#[verifier::external_body]
pub(crate) fn new_receiver(tx: &Sender<TaskMessage>) -> (rx: Receiver<TaskMessage>) {
    tx.subscribe()
}

/// Calls `Sender::clone`, which hands out a second sender for the same
/// channel. Nothing is claimed of the sender returned.
#[verifier::external_body]
pub(crate) fn share_sender(tx: &Sender<TaskMessage>) -> (shared: Sender<TaskMessage>) {
    tx.clone()
}

} // verus!
