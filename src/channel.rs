//! The conduit through which a blob's body reaches its consumer.

use tokio::sync::mpsc::{UnboundedReceiver, UnboundedSender};
use vstd::prelude::*;

verus! {

/// What travels on a body channel: a chunk of bytes, or a terminal marker.
#[derive(Debug, PartialEq, Eq)]
pub enum Data {
    Payload(Vec<u8>),
    Done,
    Cancelled,
}

#[verifier::external_type_specification]
#[verifier::external_body]
#[verifier::reject_recursive_types(T)]
pub struct ExUnboundedSender<T>(tokio::sync::mpsc::UnboundedSender<T>);

#[verifier::external_type_specification]
#[verifier::external_body]
#[verifier::reject_recursive_types(T)]
pub struct ExUnboundedReceiver<T>(tokio::sync::mpsc::UnboundedReceiver<T>);

/// The slot in which a load installs its body channel.
pub type DoneChannel = Option<(UnboundedSender<Data>, UnboundedReceiver<Data>)>;

/// The sending end of a body channel, with the messages handed to it
/// through `send`.
pub struct BodySender {
    pub sender: UnboundedSender<Data>,
    pub sent: Ghost<Seq<Data>>,
}

impl BodySender {
    /// Wraps a sender that nothing has been handed to yet.
    pub fn new(sender: UnboundedSender<Data>) -> (r: BodySender)
        ensures
            r.sent@ == Seq::<Data>::empty(),
    {
        BodySender { sender, sent: Ghost(Seq::empty()) }
    }

    /// Hands `message` to the channel; `true` where the receiver was still
    /// there to take it.
    pub fn send(&mut self, message: Data) -> (r: bool)
        ensures
            final(self).sent@ == old(self).sent@.push(message),
    {
        let ghost m = message;
        let r = send_data(&self.sender, message);
        proof {
            self.sent@ = self.sent@.push(m);
        }
        r
    }
}

/// Relies on `tokio::sync::mpsc::unbounded_channel`: a fresh sender and
/// receiver of one channel.
#[verifier::external_body]
pub(crate) fn open_channel() -> (UnboundedSender<Data>, UnboundedReceiver<Data>) {
    tokio::sync::mpsc::unbounded_channel()
}

/// Relies on `Clone` for `tokio::sync::mpsc::UnboundedSender`: another
/// sender on the same channel.
#[verifier::external_body]
pub(crate) fn clone_sender(sender: &UnboundedSender<Data>) -> UnboundedSender<Data> {
    sender.clone()
}

/// Relies on `tokio::sync::mpsc::UnboundedSender::send`: queues `message`
/// unless the receiver is gone; `true` where it was queued.
#[verifier::external_body]
pub(crate) fn send_data(sender: &UnboundedSender<Data>, message: Data) -> bool {
    sender.send(message).is_ok()
}

} // verus!
