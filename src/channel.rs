//! The channel that carries messages from the execution engine to the
//! front-end.

use std::sync::mpsc::{Receiver, Sender};

use vstd::prelude::*;

use crate::message::UIMessage;

verus! {

#[verifier::external_type_specification]
#[verifier::external_body]
#[verifier::reject_recursive_types(T)]
pub struct ExSender<T>(Sender<T>);

#[verifier::external_type_specification]
#[verifier::external_body]
#[verifier::reject_recursive_types(T)]
pub struct ExReceiver<T>(Receiver<T>);

/// The sending end of the channel of messages.
pub type UIChannelSender = Sender<UIMessage>;

/// The receiving end of the channel of messages.
pub type UIChannelReceiver = Receiver<UIMessage>;

/// Relies on std::sync::mpsc::channel: a new unbounded channel and its two
/// ends.
#[verifier::external_body]
fn open_channel() -> (r: (UIChannelSender, UIChannelReceiver)) {
    std::sync::mpsc::channel()
}

/// Relies on std::sync::mpsc::Sender::send: where the receiving end is gone the
/// message is handed back unsent.
#[verifier::external_body]
fn send_on(sender: &UIChannelSender, message: UIMessage) -> (r: Result<(), UIMessage>)
    ensures
        r matches Err(m) ==> m == message,
{
    sender.send(message).map_err(|e| e.0)
}

/// The error of a send after the receiving end was dropped; it holds the
/// message that was not delivered.
#[derive(Debug)]
pub struct ChannelClosed {
    pub message: UIMessage,
}

/// The sender of the messages for the front-end.
pub struct UIMessageSender {
    sender: UIChannelSender,
}

impl UIMessageSender {
    /// A new channel: the sender of its messages and their receiver.
    pub fn new() -> (r: (UIMessageSender, UIChannelReceiver)) {
        let (sender, receiver) = open_channel();
        (UIMessageSender { sender }, receiver)
    }

    /// Send a message to the receiver. It fails only where the receiver is
    /// gone, and then the error holds the message.
    pub fn send(&self, message: UIMessage) -> (r: Result<(), ChannelClosed>)
        ensures
            r matches Err(e) ==> e.message == message,
    {
        match send_on(&self.sender, message) {
            Ok(()) => Ok(()),
            Err(m) => Err(ChannelClosed { message: m }),
        }
    }
}

} // verus!
