//! The channels between the execution thread and the debugger's thread, and
//! the wait group that holds the execution back until the debugger starts it.
//!
//! Every function in this file calls into `crossbeam_channel` or
//! `crossbeam_utils`. What the other thread does decides what they return, so
//! nothing is claimed of their results.

use vstd::prelude::*;

verus! {

#[verifier::external_type_specification]
#[verifier::external_body]
#[verifier::reject_recursive_types(T)]
pub struct ExSender<T>(crossbeam_channel::Sender<T>);

#[verifier::external_type_specification]
#[verifier::external_body]
#[verifier::reject_recursive_types(T)]
pub struct ExReceiver<T>(crossbeam_channel::Receiver<T>);

#[verifier::external_type_specification]
#[verifier::external_body]
pub struct ExWaitGroup(crossbeam_utils::sync::WaitGroup);

/// What a receiver gave without waiting.
pub enum Received<T> {
    Message(T),
    /// No message is waiting.
    Empty,
    /// No message is waiting and no sender is left.
    Disconnected,
}

/// What became of a message that was sent without waiting.
#[derive(Clone, Copy, Debug, PartialEq, Eq, Structural)]
pub enum Delivery {
    Sent,
    /// The channel was full; the message is lost.
    Full,
    /// No receiver is left; the message is lost.
    Disconnected,
}

/// Calls `crossbeam_channel::bounded`, which makes a channel that holds up to
/// `capacity` messages. It panics where the capacity is too large for its
/// counters, which the bound here leaves out.
#[verifier::external_body]
pub(crate) fn bounded<T>(capacity: usize) -> (ends: (
    crossbeam_channel::Sender<T>,
    crossbeam_channel::Receiver<T>,
))
    requires
        capacity < 0x4000_0000,
{
    crossbeam_channel::bounded(capacity)
}

/// Calls `Sender::send`, which waits while the channel is full. Tells whether
/// the message was sent; it was not if no receiver is left.
#[verifier::external_body]
pub(crate) fn send<T>(sender: &crossbeam_channel::Sender<T>, message: T) -> (sent: bool) {
    sender.send(message).is_ok()
}

/// Calls `Sender::try_send`, which does not wait.
#[verifier::external_body]
pub(crate) fn try_send<T>(sender: &crossbeam_channel::Sender<T>, message: T) -> (delivery:
    Delivery) {
    match sender.try_send(message) {
        Ok(()) => Delivery::Sent,
        Err(crossbeam_channel::TrySendError::Full(_)) => Delivery::Full,
        Err(crossbeam_channel::TrySendError::Disconnected(_)) => Delivery::Disconnected,
    }
}

/// Calls `Receiver::try_recv`, which does not wait.
#[verifier::external_body]
pub(crate) fn try_receive<T>(receiver: &crossbeam_channel::Receiver<T>) -> (received: Received<
    T,
>) {
    match receiver.try_recv() {
        Ok(message) => Received::Message(message),
        Err(crossbeam_channel::TryRecvError::Empty) => Received::Empty,
        Err(crossbeam_channel::TryRecvError::Disconnected) => Received::Disconnected,
    }
}

/// Calls `WaitGroup::new`.
#[verifier::external_body]
pub(crate) fn new_wait_group() -> (group: crossbeam_utils::sync::WaitGroup) {
    crossbeam_utils::sync::WaitGroup::new()
}

/// Calls `WaitGroup::clone`, which makes one more reference to the group.
#[verifier::external_body]
pub(crate) fn another(group: &crossbeam_utils::sync::WaitGroup) -> (other:
    crossbeam_utils::sync::WaitGroup) {
    group.clone()
}

/// Calls `WaitGroup::wait`, which gives up this reference to the group and
/// returns when every other reference was dropped.
#[verifier::external_body]
pub(crate) fn wait(group: crossbeam_utils::sync::WaitGroup) {
    group.wait()
}

} // verus!
