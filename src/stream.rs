//! A stream of received messages.
use vstd::prelude::*;

use crate::capability::MessageRecv;
use crate::poll::{is_step, Async, Error, Message, Poll};
use crate::recv::ReceiveMessage;

verus! {

/// What a pull of the stream reports for the step of its receive operation:
/// the frame as the next item, a suspension, or the error that ends it.
pub open spec fn pulled(p: Poll<Message>) -> Poll<Option<Message>> {
    match p {
        Ok(Async::Ready(m)) => Ok(Async::Ready(Some(m))),
        Ok(Async::NotReady) => Ok(Async::NotReady),
        Err(e) => Err(e),
    }
}

/// An endless stream of the frames received on a socket. Each pull is a fresh
/// receive operation; a hard error ends the stream, and every later pull
/// reports its end.
pub struct ListenStream<'a, T: 'a> {
    socket: &'a T,
    failed: bool,
}

impl<'a, T: MessageRecv + 'a> ListenStream<'a, T> {
    /// The socket that the stream receives from.
    pub closed spec fn socket(&self) -> &'a T {
        self.socket
    }

    /// Whether a pull has failed, which ended the stream.
    pub closed spec fn ended(&self) -> bool {
        self.failed
    }

    /// A stream over `socket`, not yet pulled.
    pub fn new(socket: &'a T) -> (r: ListenStream<'a, T>)
        ensures
            r.socket() == socket,
            !r.ended(),
    {
        ListenStream { socket, failed: false }
    }

    /// Whether the stream has ended.
    pub fn is_terminated(&self) -> (r: bool)
        ensures
            r == self.ended(),
    {
        self.failed
    }

    /// Records the step of one receive operation and reports it as a pull:
    /// a frame becomes the next item, a suspension stays one, and an error is
    /// passed on and ends the stream. An ended stream reports its end and
    /// records nothing.
    pub fn advance(&mut self, p: Poll<Message>) -> (r: Poll<Option<Message>>)
        ensures
            final(self).socket() == old(self).socket(),
            old(self).ended() ==> r == Ok::<Async<Option<Message>>, Error>(Async::Ready(None))
                && final(self).ended(),
            !old(self).ended() ==> r == pulled(p) && final(self).ended() == p is Err,
    {
        if self.failed {
            return Ok(Async::Ready(None));
        }
        match p {
            Ok(Async::Ready(m)) => Ok(Async::Ready(Some(m))),
            Ok(Async::NotReady) => Ok(Async::NotReady),
            Err(e) => {
                self.failed = true;
                Err(e)
            },
        }
    }

    /// Pulls the next frame: one attempt of a fresh receive operation.
    pub fn poll(&mut self) -> (r: Poll<Option<Message>>)
        ensures
            final(self).socket() == old(self).socket(),
            is_step(r),
            old(self).ended() ==> r == Ok::<Async<Option<Message>>, Error>(Async::Ready(None))
                && final(self).ended(),
            !old(self).ended() ==> r != Ok::<Async<Option<Message>>, Error>(Async::Ready(None))
                && final(self).ended() == r is Err,
    {
        if self.failed {
            return Ok(Async::Ready(None));
        }
        let mut op = ReceiveMessage::new(self.socket);
        let p = op.poll();
        self.advance(p)
    }
}

} // verus!
