use vstd::prelude::*;
use crossbeam_channel::Sender;

verus! {

/// `crossbeam_channel::Sender`: the sending side of a queue, opaque to the verifier.
#[verifier::external_type_specification]
#[verifier::external_body]
#[verifier::reject_recursive_types(T)]
pub struct ExSender<T>(Sender<T>);

/// How an attempt to put a message on a bounded queue without waiting ended.
pub enum Delivery<T> {
    /// The queue took the message.
    Sent,
    /// The queue is full; the message comes back.
    Full(T),
    /// The queue has no receiver any more; the message comes back.
    Disconnected(T),
}

/// `Sender::try_send`: sends without blocking. Which outcome comes is up to
/// the queue; an error hands the very message back.
#[verifier::external_body]
pub(crate) fn channel_try_send<T>(sender: &Sender<T>, message: T) -> (outcome: Delivery<T>)
    ensures
        outcome matches Delivery::Full(returned) ==> returned == message,
        outcome matches Delivery::Disconnected(returned) ==> returned == message,
{
    match sender.try_send(message) {
        Ok(()) => Delivery::Sent,
        Err(crossbeam_channel::TrySendError::Full(returned)) => Delivery::Full(returned),
        Err(crossbeam_channel::TrySendError::Disconnected(returned)) => Delivery::Disconnected(
            returned,
        ),
    }
}

/// `Sender::send`: blocks until the message is sent or the queue is
/// disconnected; an error hands the very message back.
#[verifier::external_body]
pub(crate) fn channel_send<T>(sender: &Sender<T>, message: T) -> (outcome: Result<(), T>)
    ensures
        outcome matches Err(returned) ==> returned == message,
{
    sender.send(message).map_err(|error| error.0)
}

/// What follows an attempt to put a message on the queue without waiting.
pub enum Backpressure<T> {
    /// The message is on the queue.
    Delivered,
    /// The queue is full: the message must be sent again, waiting for room.
    Wait(T),
    /// The queue is disconnected: the message cannot be delivered.
    Lost,
}

/// What follows an attempt to send without waiting: a message that the
/// queue took is delivered, a message that a full queue handed back is to be
/// sent again, and a message that a disconnected queue handed back is lost.
pub open spec fn backpressure_of<T>(outcome: Delivery<T>) -> Backpressure<T> {
    match outcome {
        Delivery::Sent => Backpressure::Delivered,
        Delivery::Full(message) => Backpressure::Wait(message),
        Delivery::Disconnected(_) => Backpressure::Lost,
    }
}

/// Decides what follows an attempt to send without waiting. A full queue
/// never drops the message: it is handed on, unchanged, to be sent again.
pub fn backpressure_step<T>(outcome: Delivery<T>) -> (step: Backpressure<T>)
    ensures
        step == backpressure_of(outcome),
{
    match outcome {
        Delivery::Sent => Backpressure::Delivered,
        Delivery::Full(message) => Backpressure::Wait(message),
        Delivery::Disconnected(_) => Backpressure::Lost,
    }
}

/// A full queue drops no message and takes none twice: the one message
/// that it handed back, and no other, is to be sent again, waiting for room;
/// and a message is sent again only where the queue was full.
pub proof fn lemma_full_queue_keeps_the_message<T>(outcome: Delivery<T>, message: T)
    ensures
        backpressure_of(Delivery::Full(message)) == Backpressure::Wait(message),
        backpressure_of(outcome) == Backpressure::Wait(message) <==> outcome == Delivery::Full(
            message,
        ),
{
}

/// Puts a message on the queue: first without waiting, and where the queue
/// is full, waiting until there is room. Returns whether the message was
/// delivered; it is not where the queue is disconnected.
pub fn deliver<T>(sender: &Sender<T>, message: T) -> (delivered: bool) {
    match backpressure_step(channel_try_send(sender, message)) {
        Backpressure::Delivered => true,
        Backpressure::Wait(message) => channel_send(sender, message).is_ok(),
        Backpressure::Lost => false,
    }
}

} // verus!
