//! Bounded channels between the main thread and the real-time thread. What
//! is in a channel is for the other thread to say as much as for this one,
//! so nothing is claimed of what a call finds there.
use vstd::prelude::*;

verus! {

#[verifier::external_type_specification]
#[verifier::external_body]
#[verifier::reject_recursive_types(T)]
pub struct ExSender<T>(crossbeam_channel::Sender<T>);

#[verifier::external_type_specification]
#[verifier::external_body]
#[verifier::reject_recursive_types(T)]
pub struct ExReceiver<T>(crossbeam_channel::Receiver<T>);

/// The largest capacity that a channel is made with here.
pub const CHANNEL_CAPACITY_LIMIT: usize = 65_536;

/// `crossbeam_channel::bounded`: a channel that holds up to `capacity`
/// messages. It panics where the capacity is too large to lay the channel
/// out; capacities up to the limit are not.
#[verifier::external_body]
pub(crate) fn bounded<T>(capacity: usize) -> (ends: (
    crossbeam_channel::Sender<T>,
    crossbeam_channel::Receiver<T>,
))
    requires
        capacity <= CHANNEL_CAPACITY_LIMIT,
{
    crossbeam_channel::bounded(capacity)
}

/// `Sender::try_send`: puts the message into the channel without waiting.
/// Where the channel is full or nobody receives from it any more, the
/// message does not go out and comes back as it was given.
#[verifier::external_body]
pub(crate) fn try_send<T>(sender: &crossbeam_channel::Sender<T>, message: T) -> (outcome: Result<
    (),
    T,
>)
    ensures
        outcome matches Err(returned) ==> returned == message,
{
    match sender.try_send(message) {
        Ok(()) => Ok(()),
        Err(crossbeam_channel::TrySendError::Full(message)) => Err(message),
        Err(crossbeam_channel::TrySendError::Disconnected(message)) => Err(message),
    }
}

/// `Receiver::try_recv`: takes a message out of the channel without
/// waiting, if one is there.
#[verifier::external_body]
pub(crate) fn try_receive<T>(receiver: &crossbeam_channel::Receiver<T>) -> (message: Option<T>) {
    receiver.try_recv().ok()
}

/// Takes the messages that have come out of the channel, in the order in
/// which they came, but no more than `budget` of them: what is left stays
/// for the next time.
pub fn take_within_budget<T>(receiver: &crossbeam_channel::Receiver<T>, budget: usize) -> (messages:
    Vec<T>)
    ensures
        messages@.len() <= budget,
{
    let mut messages: Vec<T> = Vec::new();
    while messages.len() < budget
        invariant
            messages@.len() <= budget,
        decreases budget - messages@.len(),
    {
        match try_receive(receiver) {
            Some(message) => {
                messages.push(message);
            },
            None => {
                break ;
            },
        }
    }
    messages
}

} // verus!
