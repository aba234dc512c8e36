//! Trusted declarations for std's mpsc channels.
//!
//! The protocol exchanges events and recycled buffers over two one-directional
//! channels. What a channel holds depends on the other endpoint, possibly on
//! another thread, so none of these items states anything about the values
//! that come back: every caller in this crate handles every possible outcome
//! and is verified for all of them.
use vstd::prelude::*;

verus! {

/// Declares `std::sync::mpsc::Sender` so that it can stand in fields and
/// signatures; its values stay opaque here.
#[verifier::external_type_specification]
#[verifier::external_body]
#[verifier::reject_recursive_types(T)]
pub struct ExSender<T>(std::sync::mpsc::Sender<T>);

/// Declares `std::sync::mpsc::Receiver` so that it can stand in fields and
/// signatures; its values stay opaque here.
#[verifier::external_type_specification]
#[verifier::external_body]
#[verifier::reject_recursive_types(T)]
pub struct ExReceiver<T>(std::sync::mpsc::Receiver<T>);

/// Relies on `std::sync::mpsc::channel`: makes one sender/receiver pair.
#[verifier::external_body]
pub(crate) fn make_channel<T>() -> (std::sync::mpsc::Sender<T>, std::sync::mpsc::Receiver<T>) {
    std::sync::mpsc::channel()
}

/// Relies on `std::sync::mpsc::Sender::send`: enqueues the value, or returns
/// it inside an error when the receiver is gone. Reported here as a plain
/// success flag; the rejected value is dropped with the channel already dead.
#[verifier::external_body]
pub(crate) fn send_to<T>(tx: &std::sync::mpsc::Sender<T>, value: T) -> bool {
    tx.send(value).is_ok()
}

/// Relies on `std::sync::mpsc::Receiver::recv`: blocks until a value arrives
/// or every sender is gone; `None` reports the disconnected case.
#[verifier::external_body]
pub(crate) fn recv_from<T>(rx: &std::sync::mpsc::Receiver<T>) -> Option<T> {
    rx.recv().ok()
}

/// Relies on `std::sync::mpsc::Receiver::try_recv`: never blocks; `None`
/// reports both an empty queue and a disconnected channel, which the
/// protocol treats alike.
#[verifier::external_body]
pub(crate) fn try_recv_from<T>(rx: &std::sync::mpsc::Receiver<T>) -> Option<T> {
    rx.try_recv().ok()
}

/// Relies on `std::sync::mpsc::Sender::clone`: a second handle to the same
/// channel.
#[verifier::external_body]
pub(crate) fn clone_sender<T>(tx: &std::sync::mpsc::Sender<T>) -> std::sync::mpsc::Sender<T> {
    tx.clone()
}

} // verus!
