//! The calls into crossbeam's channels, each with what this library takes on
//! trust about it.
//!
//! A channel is shared with other threads, so what a call returns depends on
//! what they have done. Nothing is claimed here of what is in a channel; only
//! what holds of every outcome of a call is stated.

use vstd::prelude::*;
use crossbeam::channel::{Receiver, Sender};

verus! {

/// `crossbeam::channel::Sender`: a sending end of a channel. Opaque.
#[verifier::external_type_specification]
#[verifier::external_body]
#[verifier::reject_recursive_types(T)]
pub struct ExSender<T>(Sender<T>);

/// `crossbeam::channel::Receiver`: a receiving end of a channel. Opaque.
#[verifier::external_type_specification]
#[verifier::external_body]
#[verifier::reject_recursive_types(T)]
pub struct ExReceiver<T>(Receiver<T>);

/// `Sender::clone`: another sending end of the same channel.
pub assume_specification<T>[ <Sender<T> as Clone>::clone ](sender: &Sender<T>) -> (other: Sender<T>)
;

/// `Receiver::clone`: another receiving end of the same channel.
pub assume_specification<T>[ <Receiver<T> as Clone>::clone ](receiver: &Receiver<T>) -> (other:
    Receiver<T>)
;

/// `crossbeam::channel::unbounded`: the two ends of a new channel without a
/// capacity limit.
#[verifier::external_body]
pub(crate) fn channel_pair<T>() -> (ends: (Sender<T>, Receiver<T>)) {
    crossbeam::channel::unbounded()
}

/// `Sender::send`. Trusted: a refused message comes back unchanged. On an
/// unbounded channel the call does not wait; it is refused only when every
/// receiver is gone.
#[verifier::external_body]
pub(crate) fn channel_send<T>(sender: &Sender<T>, item: T) -> (sent: Result<(), T>)
    ensures
        sent matches Err(back) ==> back == item,
{
    match sender.send(item) {
        Ok(()) => Ok(()),
        Err(crossbeam::channel::SendError(back)) => Err(back),
    }
}

/// `Receiver::recv`: waits for the next message; `None` once the channel is
/// empty and every sender is gone.
#[verifier::external_body]
pub(crate) fn channel_recv<T>(receiver: &Receiver<T>) -> (got: Option<T>) {
    match receiver.recv() {
        Ok(item) => Some(item),
        Err(crossbeam::channel::RecvError) => None,
    }
}

/// `Receiver::try_recv`: the next message if one is queued, without waiting;
/// `None` where the channel is empty, closed or not.
#[verifier::external_body]
pub(crate) fn channel_try_recv<T>(receiver: &Receiver<T>) -> (got: Option<T>) {
    match receiver.try_recv() {
        Ok(item) => Some(item),
        Err(_) => None,
    }
}

/// `Receiver::len`: how many messages are queued at the moment of the call.
#[verifier::external_body]
pub(crate) fn channel_len<T>(receiver: &Receiver<T>) -> (queued: usize) {
    receiver.len()
}

} // verus!
