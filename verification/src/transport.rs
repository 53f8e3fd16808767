//! The unbounded channels that carry messages between the control thread and
//! the planet actors, as far as the registry needs them.
//!
//! Everything here is a thin, unverified binding to `crossbeam_channel`: the
//! contracts in this file are believed, not proved.

use vstd::prelude::*;
use crossbeam_channel::{Receiver, RecvTimeoutError, SendError, Sender, TryRecvError};
use std::time::Duration;

verus! {

/// The sending half of a `crossbeam_channel` channel. Opaque: nothing is
/// known of the queue behind it.
#[verifier::external_type_specification]
#[verifier::external_body]
#[verifier::reject_recursive_types(T)]
pub struct ExSender<T>(Sender<T>);

/// The receiving half of a `crossbeam_channel` channel. Opaque.
#[verifier::external_type_specification]
#[verifier::external_body]
#[verifier::reject_recursive_types(T)]
pub struct ExReceiver<T>(Receiver<T>);

/// Why a bounded wait for a message ended without one.
#[derive(Clone, Copy, Debug, PartialEq, Eq, Structural)]
pub enum RecvFailure {
    /// Nothing arrived within the budget.
    Timeout,
    /// The queue is empty and every sender is gone.
    Disconnected,
}

/// Why a non-blocking look at a channel found no message.
#[derive(Clone, Copy, Debug, PartialEq, Eq, Structural)]
pub enum PollFailure {
    /// The queue is empty right now.
    Empty,
    /// The queue is empty and every sender is gone.
    Disconnected,
}

/// `crossbeam_channel::unbounded`: a fresh channel. Nothing is claimed of the
/// two halves.
#[verifier::external_body]
pub(crate) fn open_channel<T>() -> (pair: (Sender<T>, Receiver<T>)) {
    crossbeam_channel::unbounded()
}

/// `Sender::send`: hands `msg` to the channel. The call does not block on an
/// unbounded channel. It fails only when every receiver is gone, and the
/// error then carries the message back unchanged. Whether it fails depends
/// on the other side, so nothing more is promised.
#[verifier::external_body]
pub(crate) fn channel_send<T>(tx: &Sender<T>, msg: T) -> (sent: Result<(), T>)
    ensures
        sent matches Err(back) ==> back == msg,
{
    match tx.send(msg) {
        Ok(()) => Ok(()),
        Err(SendError(back)) => Err(back),
    }
}

/// `Receiver::recv_timeout`: waits up to `millis` milliseconds for the next
/// message. Which outcome comes back depends on the other side.
#[verifier::external_body]
pub(crate) fn channel_recv_timeout<T>(rx: &Receiver<T>, millis: u64) -> (got: Result<T, RecvFailure>) {
    match rx.recv_timeout(Duration::from_millis(millis)) {
        Ok(msg) => Ok(msg),
        Err(RecvTimeoutError::Timeout) => Err(RecvFailure::Timeout),
        Err(RecvTimeoutError::Disconnected) => Err(RecvFailure::Disconnected),
    }
}

/// `Receiver::try_recv`: takes the next message if one is queued, without
/// waiting.
#[verifier::external_body]
pub(crate) fn channel_try_recv<T>(rx: &Receiver<T>) -> (got: Result<T, PollFailure>) {
    match rx.try_recv() {
        Ok(msg) => Ok(msg),
        Err(TryRecvError::Empty) => Err(PollFailure::Empty),
        Err(TryRecvError::Disconnected) => Err(PollFailure::Disconnected),
    }
}

/// `Sender::clone`: another handle on the same channel. The clone is built
/// from the same reference to the channel as `tx`, field for field, so the
/// two are one value; only the channel's count of senders goes up.
#[verifier::external_body]
pub(crate) fn channel_clone_sender<T>(tx: &Sender<T>) -> (copy: Sender<T>)
    ensures
        copy == *tx,
{
    tx.clone()
}

} // verus!
