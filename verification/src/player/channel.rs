//! The channels between callers and the actor. These are the standard
//! library's multi-producer, single-consumer queues; nothing is proved of
//! them here, and what each call is taken to do is said where it is wrapped.

use vstd::prelude::*;
use std::sync::mpsc::{Receiver, Sender};

verus! {

/// The sending end of a channel, `std::sync::mpsc::Sender`. Opaque: it is
/// carried and handed on, never looked into.
#[verifier::external_type_specification]
#[verifier::external_body]
#[verifier::reject_recursive_types(T)]
pub struct ExSender<T>(Sender<T>);

/// The receiving end of a channel, `std::sync::mpsc::Receiver`. Opaque.
#[verifier::external_type_specification]
#[verifier::external_body]
#[verifier::reject_recursive_types(T)]
pub struct ExReceiver<T>(Receiver<T>);

/// Calls `std::sync::mpsc::channel`. Nothing is claimed of the two ends.
#[verifier::external_body]
pub(crate) fn open_channel<T>() -> (ends: (Sender<T>, Receiver<T>)) {
    std::sync::mpsc::channel()
}

/// Calls `Sender::send`, which never blocks. Returns whether the value was
/// queued; it is not when the receiving end is gone. Nothing is claimed of
/// the result.
#[verifier::external_body]
pub(crate) fn send_over<T>(sender: &Sender<T>, value: T) -> (queued: bool) {
    sender.send(value).is_ok()
}

/// Calls `Receiver::recv`, which blocks until a value arrives or every
/// sending end is gone; `None` in the second case. Nothing is claimed of the
/// result.
#[verifier::external_body]
pub(crate) fn wait_on<T>(receiver: &Receiver<T>) -> (arrived: Option<T>) {
    receiver.recv().ok()
}

} // verus!
