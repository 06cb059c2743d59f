//! An in-process loopback device: a connected sender and receiver over an
//! unbounded channel, mostly intended for testing without hardware.
//!
//! A dropped peer surfaces as a terminal error on the other half, never as a
//! panic or a hang.

use vstd::prelude::*;

use crate::Message;

verus! {

#[verifier::external_type_specification]
#[verifier::external_body]
#[verifier::reject_recursive_types(T)]
pub struct ExUnboundedSender<T>(tokio::sync::mpsc::UnboundedSender<T>);

#[verifier::external_type_specification]
#[verifier::external_body]
#[verifier::reject_recursive_types(T)]
pub struct ExUnboundedReceiver<T>(tokio::sync::mpsc::UnboundedReceiver<T>);

/// Relies on UnboundedSender::clone: the clone is another sending half of
/// the same channel.
pub assume_specification<T>[ <tokio::sync::mpsc::UnboundedSender<T> as Clone>::clone ](
    tx: &tokio::sync::mpsc::UnboundedSender<T>,
) -> tokio::sync::mpsc::UnboundedSender<T>;

/// Relies on tokio's unbounded_channel: the returned halves form one
/// connected first-in-first-out queue.
#[verifier::external_body]
fn channel_pair() -> (tokio::sync::mpsc::UnboundedSender<Message>, tokio::sync::mpsc::UnboundedReceiver<
    Message,
>) {
    tokio::sync::mpsc::unbounded_channel()
}

/// Relies on UnboundedSender::send: it fails, handing the message back,
/// exactly when the receive half was dropped or closed.
#[verifier::external_body]
fn chan_send(tx: &tokio::sync::mpsc::UnboundedSender<Message>, msg: Message) -> (r: Result<
    (),
    Message,
>)
    ensures
        r matches Err(m) ==> m == msg,
{
    tx.send(msg).map_err(|e| e.0)
}

/// Relies on UnboundedReceiver::blocking_recv: messages arrive in send
/// order, and None comes exactly when every sender was dropped and the queue
/// is drained. It must be called outside an asynchronous context.
#[verifier::external_body]
fn chan_recv(rx: &mut tokio::sync::mpsc::UnboundedReceiver<Message>) -> (r: Option<Message>) {
    rx.blocking_recv()
}

/// The sending half of a loopback pair. A clone feeds the same receiver.
#[derive(Clone)]
pub struct Sender {
    tx: tokio::sync::mpsc::UnboundedSender<Message>,
}

/// The receiving half of a loopback pair.
pub struct Receiver {
    rx: tokio::sync::mpsc::UnboundedReceiver<Message>,
}

/// Create a connected [`Sender`] and [`Receiver`] over an in-process channel.
pub fn connect() -> (Sender, Receiver) {
    let (tx, rx) = channel_pair();
    (Sender { tx }, Receiver { rx })
}

impl Sender {
    /// Queue a message for the receiving half; a dropped receiver surfaces
    /// as a terminal error.
    pub fn send(&mut self, msg: Message) -> (r: Result<(), crate::Error>)
        ensures
            r matches Err(e) ==> (e matches crate::Error::Other(s) && s@ == "Disconnected"@),
    {
        match chan_send(&self.tx, msg) {
            Ok(()) => Ok(()),
            Err(_) => Err(crate::Error::Other("Disconnected".to_owned())),
        }
    }
}

impl Receiver {
    /// Take the next message, blocking until one arrives; dropped senders
    /// surface as a terminal error once the queue is drained.
    pub fn recv(&mut self) -> (r: Result<Message, crate::Error>)
        ensures
            r matches Err(e) ==> (e matches crate::Error::Other(s) && s@ == "Disconnected"@),
    {
        match chan_recv(&mut self.rx) {
            Some(m) => Ok(m),
            None => Err(crate::Error::Other("Disconnected".to_owned())),
        }
    }
}

} // verus!
