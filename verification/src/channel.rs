//! The unbounded multi-producer channel that carries values from background
//! tasks to the thread that owns the user interface.
//!
//! What a channel holds at any moment depends on the other threads, so nothing
//! here says what a receive returns: callers are verified for every outcome.

use crossbeam_channel::{Receiver, Sender};
use vstd::prelude::*;

verus! {

#[verifier::external_type_specification]
#[verifier::external_body]
#[verifier::reject_recursive_types(T)]
pub struct ExSender<T>(Sender<T>);

#[verifier::external_type_specification]
#[verifier::external_body]
#[verifier::reject_recursive_types(T)]
pub struct ExReceiver<T>(Receiver<T>);

/// `crossbeam_channel::unbounded` creates a channel of unlimited capacity and
/// returns its two ends.
#[verifier::external_body]
pub(crate) fn open_channel<T>() -> (ends: (Sender<T>, Receiver<T>)) {
    crossbeam_channel::unbounded()
}

/// `Sender::clone` makes another sending end of the same channel: the new end
/// holds what the end it was made from holds, the kind of the channel and the
/// pointer to it, which is all that `Sender::same_channel` compares.
#[verifier::external_body]
pub(crate) fn another_sender<T>(tx: &Sender<T>) -> (other: Sender<T>)
    ensures
        other == *tx,
{
    tx.clone()
}

/// `Sender::send` on an unbounded channel never blocks; it fails only when
/// every receiver is gone, and then hands the message back. The message
/// returned is the one given.
#[verifier::external_body]
pub(crate) fn send<T>(tx: &Sender<T>, msg: T) -> (undelivered: Option<T>)
    ensures
        undelivered matches Some(m) ==> m == msg,
{
    match tx.send(msg) {
        Ok(()) => None,
        Err(e) => Some(e.into_inner()),
    }
}

/// `Receiver::try_recv` takes the oldest waiting message without blocking, or
/// reports that none is waiting (or that the channel is disconnected and empty).
#[verifier::external_body]
pub(crate) fn try_receive<T>(rx: &Receiver<T>) -> (msg: Option<T>) {
    rx.try_recv().ok()
}

/// `Receiver::len` counts the messages waiting in the channel at the moment of
/// the call.
#[verifier::external_body]
pub(crate) fn waiting<T>(rx: &Receiver<T>) -> (n: usize) {
    rx.len()
}

} // verus!
