//! The unbounded channels that join the tasks.
use vstd::prelude::*;

verus! {

/// `futures::channel::mpsc::UnboundedSender`: the sending end of an
/// unbounded channel, carried through as it is.
#[verifier::external_type_specification]
#[verifier::external_body]
#[verifier::reject_recursive_types(T)]
pub struct ExUnboundedSender<T>(futures::channel::mpsc::UnboundedSender<T>);

/// `futures::channel::mpsc::UnboundedReceiver`: the receiving end of an
/// unbounded channel, carried through as it is.
#[verifier::external_type_specification]
#[verifier::external_body]
#[verifier::reject_recursive_types(T)]
pub struct ExUnboundedReceiver<T>(futures::channel::mpsc::UnboundedReceiver<T>);

/// `futures::channel::oneshot::Sender`: the sending end of a channel that
/// carries one value, carried through as it is.
#[verifier::external_type_specification]
#[verifier::external_body]
#[verifier::reject_recursive_types(T)]
pub struct ExOneshotSender<T>(futures::channel::oneshot::Sender<T>);

/// The reply slot of one read request: it takes the messages that were
/// waiting, once.
pub type BufferResponse = futures::channel::oneshot::Sender<Vec<Vec<u8>>>;

/// What one look at a channel's receiving end found, without waiting.
#[derive(Debug, PartialEq, Eq)]
pub enum Polled<T> {
    /// A message was waiting and has been taken.
    Ready(T),
    /// Nothing is waiting, but a sender is still there.
    Empty,
    /// Nothing is waiting and nothing will come.
    Closed,
}

/// `futures::channel::mpsc::unbounded`: a fresh channel. Nothing is claimed
/// of the two ends.
pub assume_specification<T>[ futures::channel::mpsc::unbounded::<T> ]() -> (ends: (
    futures::channel::mpsc::UnboundedSender<T>,
    futures::channel::mpsc::UnboundedReceiver<T>,
));

/// `UnboundedReceiver::try_recv`: takes the next message if one is queued.
/// Which of the three outcomes comes depends on what the senders have done,
/// so nothing is claimed of it.
#[verifier::external_body]
pub(crate) fn try_receive<T>(receiver: &mut futures::channel::mpsc::UnboundedReceiver<T>) -> (polled: Polled<T>) {
    match receiver.try_recv() {
        Ok(message) => Polled::Ready(message),
        Err(futures::channel::mpsc::TryRecvError::Empty) => Polled::Empty,
        Err(futures::channel::mpsc::TryRecvError::Closed) => Polled::Closed,
    }
}

/// `UnboundedSender::unbounded_send`: queues the message, or fails when the
/// receiving end is gone. Claimed: a message that could not be queued is
/// handed back as it was. Whether it is queued depends on the other end,
/// so nothing is claimed of that. The call gives up only on a queue that
/// holds more messages than its counter can count, which memory does not
/// allow.
#[verifier::external_body]
pub(crate) fn send_unbounded<T>(sender: &futures::channel::mpsc::UnboundedSender<T>, message: T) -> (sent: Result<(), T>)
    ensures
        sent matches Err(returned) ==> returned == message,
{
    match sender.unbounded_send(message) {
        Ok(()) => Ok(()),
        Err(refused) => Err(refused.into_inner()),
    }
}

/// `oneshot::Sender::send`: completes the reply slot, or fails when nobody
/// waits for the reply any more. Claimed: a value that could not be
/// delivered is handed back as it was.
pub assume_specification<T>[ futures::channel::oneshot::Sender::<T>::send ](
    slot: futures::channel::oneshot::Sender<T>,
    t: T,
) -> (sent: Result<(), T>)
    ensures
        sent matches Err(returned) ==> returned == t,
;

} // verus!
