//! Operations that send one message.
use vstd::prelude::*;

use crate::capability::MessageSend;
use crate::poll::{is_step, settle, Message, Poll};

verus! {

/// An operation that sends one frame, which it owns until the socket accepts it.
pub struct SendMessage<'a, T: 'a> {
    socket: &'a T,
    message: Message,
}

impl<'a, T: MessageSend + 'a> SendMessage<'a, T> {
    /// The socket that the operation sends on.
    pub closed spec fn socket(&self) -> &'a T {
        self.socket
    }

    /// The bytes of the frame to be sent.
    pub closed spec fn payload(&self) -> Seq<u8> {
        self.message@
    }

    /// Creates an operation that sends `message` on `socket`.
    pub fn new(socket: &'a T, message: Message) -> (r: SendMessage<'a, T>)
        ensures
            r.socket() == socket,
            r.payload() == message@,
    {
        SendMessage { socket, message }
    }

    /// The bytes that each attempt hands to the socket.
    pub fn message(&self) -> (r: &[u8])
        ensures
            r@ == self.payload(),
    {
        self.message.as_slice()
    }

    /// Makes one attempt to send the frame. The frame is kept, unchanged,
    /// whatever the outcome, so that a suspended operation retries with the
    /// same bytes.
    pub fn poll(&mut self) -> (r: Poll<()>)
        ensures
            *final(self) == *old(self),
            is_step(r),
    {
        let outcome = self.socket.send(self.message(), 0);
        settle(outcome)
    }
}

/// The bytes of each frame, in order.
pub open spec fn frames_view(frames: Seq<Vec<u8>>) -> Seq<Seq<u8>> {
    frames.map_values(|f: Vec<u8>| f@)
}

/// An operation that sends one multipart message, whose frames it owns until
/// the socket accepts all of them.
pub struct SendMultipartMessage<'a, T: 'a> {
    socket: &'a T,
    messages: Vec<Vec<u8>>,
}

impl<'a, T: MessageSend + 'a> SendMultipartMessage<'a, T> {
    /// The socket that the operation sends on.
    pub closed spec fn socket(&self) -> &'a T {
        self.socket
    }

    /// The bytes of the frames to be sent, in order.
    pub closed spec fn payload(&self) -> Seq<Seq<u8>> {
        frames_view(self.messages@)
    }

    /// Creates an operation that sends the frames of `messages`, in order, on
    /// `socket`.
    pub fn new(socket: &'a T, messages: Vec<Message>) -> (r: SendMultipartMessage<'a, T>)
        ensures
            r.socket() == socket,
            r.payload() == frames_view(messages@),
    {
        SendMultipartMessage { socket, messages }
    }

    /// The frames that each attempt hands to the socket.
    pub fn messages(&self) -> (r: &[Vec<u8>])
        ensures
            frames_view(r@) == self.payload(),
    {
        self.messages.as_slice()
    }

    /// Makes one attempt to send all frames at once. The frames are kept,
    /// unchanged, whatever the outcome.
    pub fn poll(&mut self) -> (r: Poll<()>)
        ensures
            *final(self) == *old(self),
            is_step(r),
    {
        let outcome = self.socket.send_multipart(self.messages(), 0);
        settle(outcome)
    }
}

} // verus!
