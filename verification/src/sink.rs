//! The channel ends that the actors hold, and what is assumed of them.
//!
//! A sink is the sending end of an unbounded `tokio` channel. What is said
//! of the channel itself is not proved: it states what the channel's own
//! source shows. The channel's `send` is private to this file, so every
//! message leaves through [`deliver`], which returns a receipt of what it
//! handed to which sink.

use vstd::prelude::*;
use tokio::sync::mpsc::error::SendError;
use tokio::sync::mpsc::{UnboundedReceiver, UnboundedSender};

verus! {

/// `tokio::sync::mpsc::UnboundedSender`, the sending end of a channel. Its
/// inside is not looked at.
#[verifier::external_type_specification]
#[verifier::external_body]
#[verifier::reject_recursive_types(T)]
pub struct ExUnboundedSender<T>(UnboundedSender<T>);

/// `tokio::sync::mpsc::UnboundedReceiver`, the receiving end of a channel. Its
/// inside is not looked at.
#[verifier::external_type_specification]
#[verifier::external_body]
#[verifier::reject_recursive_types(T)]
pub struct ExUnboundedReceiver<T>(UnboundedReceiver<T>);

/// `tokio::sync::mpsc::unbounded_channel` makes a new channel and returns its
/// two ends. Nothing is claimed of them.
pub assume_specification<T>[ tokio::sync::mpsc::unbounded_channel::<T> ]() -> (ends: (
    UnboundedSender<T>,
    UnboundedReceiver<T>,
));

/// `UnboundedSender::send` never waits. Whether it succeeds depends on the
/// receiving end, so only this is claimed: a refusal hands the very message
/// back. (It ends the process if the channel ever counted more messages than
/// fit in a `usize`.) Nothing but [`deliver`] can reach it.
#[verifier::external_body]
fn send<T>(sink: &UnboundedSender<T>, message: T) -> (sent: Result<(), T>)
    ensures
        sent matches Err(refused) ==> refused == message,
{
    match sink.send(message) {
        Ok(()) => Ok(()),
        Err(SendError(refused)) => Err(refused),
    }
}

/// The record of one attempt to hand a message to a sink: which sink, which
/// message, and whether the sink took it. Only [`deliver`] makes a receipt, so
/// a receipt in hand shows that its message was handed to its sink; and only
/// [`deliver`] hands a message to a sink, so every send makes a receipt.
#[must_use]
#[verifier::reject_recursive_types(T)]
pub struct Receipt<T> {
    sink: Ghost<UnboundedSender<T>>,
    message: Ghost<T>,
    delivered: bool,
}

impl<T> Receipt<T> {
    /// The sink that was tried.
    pub closed spec fn sink(&self) -> UnboundedSender<T> {
        self.sink@
    }

    /// The message that was handed to the sink.
    pub closed spec fn message(&self) -> T {
        self.message@
    }

    /// The sink took the message.
    pub closed spec fn taken(&self) -> bool {
        self.delivered
    }

    /// Whether the sink took the message. A sink refuses once its receiving
    /// end is closed or gone.
    pub fn delivered(&self) -> (delivered: bool)
        ensures
            delivered == self.taken(),
    {
        self.delivered
    }
}

/// Hands `message` to `sink`, without waiting, and returns the receipt.
#[must_use]
pub fn deliver<T>(sink: &UnboundedSender<T>, message: T) -> (receipt: Receipt<T>)
    ensures
        receipt.sink() == *sink,
        receipt.message() == message,
{
    let ghost handed = message;
    let delivered = send(sink, message).is_ok();
    Receipt { sink: Ghost(*sink), message: Ghost(handed), delivered }
}

} // verus!
