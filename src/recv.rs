//! Operations that receive one message.
use vstd::prelude::*;

use crate::capability::MessageRecv;
use crate::poll::{is_step, settle, step, Error, Message, Poll};

verus! {

/// The outcome of a single-frame receive attempt, with the frame that the
/// attempt filled.
pub open spec fn filled(outcome: Result<(), Error>, msg: Message) -> Result<Message, Error> {
    match outcome {
        Ok(_) => Ok(msg),
        Err(e) => Err(e),
    }
}

/// An operation that receives one multipart message: all of its frames, in
/// order, or nothing.
pub struct ReceiveMultipartMessage<'a, T: 'a> {
    socket: &'a T,
}

impl<'a, T: MessageRecv + 'a> ReceiveMultipartMessage<'a, T> {
    /// The socket that the operation receives from.
    pub closed spec fn socket(&self) -> &'a T {
        self.socket
    }

    /// Binds a new operation to `socket`.
    pub fn new(socket: &'a T) -> (r: ReceiveMultipartMessage<'a, T>)
        ensures
            r.socket() == socket,
    {
        ReceiveMultipartMessage { socket }
    }

    /// Makes one attempt to receive the message.
    pub fn poll(&mut self) -> (r: Poll<Vec<Message>>)
        ensures
            *final(self) == *old(self),
            is_step(r),
    {
        let outcome = self.socket.recv_multipart(0);
        settle(outcome)
    }
}

/// An operation that receives one frame.
pub struct ReceiveMessage<'a, T: 'a> {
    socket: &'a T,
}

impl<'a, T: MessageRecv + 'a> ReceiveMessage<'a, T> {
    /// The socket that the operation receives from.
    pub closed spec fn socket(&self) -> &'a T {
        self.socket
    }

    /// Binds a new operation to `socket`.
    pub fn new(socket: &'a T) -> (r: ReceiveMessage<'a, T>)
        ensures
            r.socket() == socket,
    {
        ReceiveMessage { socket }
    }

    /// Turns the outcome of a receive attempt and the frame it filled into a
    /// step: the frame when the attempt succeeded, a suspension on
    /// would-block, the error otherwise.
    pub fn complete(outcome: Result<(), Error>, msg: Message) -> (r: Poll<Message>)
        ensures
            r == step(filled(outcome, msg)),
    {
        let attempt = match outcome {
            Ok(_) => Ok(msg),
            Err(e) => Err(e),
        };
        settle(attempt)
    }

    /// Makes one attempt to receive a frame, into a buffer of its own.
    pub fn poll(&mut self) -> (r: Poll<Message>)
        ensures
            *final(self) == *old(self),
            is_step(r),
    {
        let mut msg: Message = Vec::new();
        let outcome = self.socket.recv(&mut msg, 0);
        Self::complete(outcome, msg)
    }
}

} // verus!
