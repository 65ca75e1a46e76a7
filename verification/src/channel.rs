//! The channel operations that the supervisor builds on. Every item here is
//! trusted: its contract is taken from the channel crate's documentation and is
//! not proved.

use crossbeam_channel::{Receiver, RecvError, Select, SendError, Sender, TryRecvError};
use vstd::prelude::*;

verus! {

/// Trusted: `crossbeam_channel::Sender`, the sending end of a channel. Nothing
/// is known of what it holds.
#[verifier::external_type_specification]
#[verifier::external_body]
#[verifier::reject_recursive_types(T)]
pub struct ExSender<T>(Sender<T>);

/// Trusted: `crossbeam_channel::Receiver`, the receiving end of a channel.
/// Nothing is known of what it holds.
#[verifier::external_type_specification]
#[verifier::external_body]
#[verifier::reject_recursive_types(T)]
pub struct ExReceiver<T>(Receiver<T>);

/// Trusted: `crossbeam_channel::RecvError`, the one failure of a blocking
/// receive: the channel is empty and every sender is gone.
#[verifier::external_type_specification]
#[verifier::external_body]
pub struct ExRecvError(RecvError);

/// Trusted: `crossbeam_channel::SendError`, the one failure of a blocking
/// send: every receiver is gone.
#[verifier::external_type_specification]
#[verifier::external_body]
#[verifier::reject_recursive_types(T)]
pub struct ExSendError<T>(SendError<T>);

/// Trusted: `crossbeam_channel::TryRecvError`, the failures of a receive that
/// does not wait: nothing is ready, or every sender is gone.
#[verifier::external_type_specification]
#[verifier::external_body]
pub struct ExTryRecvError(TryRecvError);

/// Trusted: `crossbeam_channel::bounded`. With capacity zero it makes a
/// rendezvous channel and allocates no buffer, so it cannot fail; larger
/// capacities are left out because a large one can fail to allocate.
#[verifier::external_body]
pub(crate) fn bounded_channel<T>(capacity: usize) -> (ends: (Sender<T>, Receiver<T>))
    requires
        capacity == 0,
{
    crossbeam_channel::bounded(capacity)
}

/// Trusted: `Sender::clone`. It makes another sending end of the same
/// channel; the channel is disconnected only when all of them are gone.
#[verifier::external_body]
pub(crate) fn clone_sender<T>(sender: &Sender<T>) -> (other: Sender<T>) {
    sender.clone()
}

/// Trusted: `Sender::send`. It blocks until a receiver takes the message or
/// every receiver is gone. Which of the two happens depends on the other
/// threads, so nothing is known of the outcome beforehand.
#[verifier::external_body]
pub(crate) fn send_message<T>(sender: &Sender<T>, message: T) -> (sent: Result<(), SendError<T>>) {
    sender.send(message)
}

/// Trusted: `Receiver::recv`. It blocks until a message arrives or every
/// sender is gone. Nothing is known of the outcome beforehand.
#[verifier::external_body]
pub(crate) fn receive_message<T>(receiver: &Receiver<T>) -> (received: Result<T, RecvError>) {
    receiver.recv()
}

/// Trusted: `Receiver::try_recv`. It never blocks: it takes a message only if
/// a sender is waiting with one. Nothing is known of the outcome beforehand.
#[verifier::external_body]
pub(crate) fn poll_message<T>(receiver: &Receiver<T>) -> (polled: Result<T, TryRecvError>) {
    receiver.try_recv()
}

/// Trusted: `Select::new`, `Select::recv` and `Select::ready`. It blocks
/// until one of the two receivers may have something to hand out. The wake-up
/// can be spurious, so nothing is promised; with two operations registered
/// `ready` does not panic.
#[verifier::external_body]
pub(crate) fn wait_for_either<A, B>(first: &Receiver<A>, second: &Receiver<B>) {
    let mut select = Select::new();
    select.recv(first);
    select.recv(second);
    select.ready();
}

} // verus!
