//! The capabilities that a socket offers to the operations of this crate.
//!
//! Every method is non-blocking: where it cannot make progress at once it
//! returns [`Error::WouldBlock`] rather than waiting.
use vstd::prelude::*;

use crate::poll::{Error, Message};
use crate::stream::ListenStream;

verus! {

/// Receives simple and multipart messages.
pub trait MessageRecv {
    /// Whether more frames of a multipart message are waiting to be received.
    fn get_rcvmore(&self) -> Result<bool, Error>;

    /// Receives the next frame into `msg`.
    fn recv(&self, msg: &mut Message, flags: i32) -> Result<(), Error>;

    /// Receives bytes into a slice. The result is the length of the frame,
    /// which may exceed the slice's length: the frame was then truncated, and
    /// what to do about it is the caller's choice. The operations of this
    /// crate receive into buffers of their own and never truncate.
    fn recv_into(&self, buf: &mut [u8], flags: i32) -> Result<usize, Error>;

    /// Receives the next frame into a fresh message.
    fn recv_msg(&self, flags: i32) -> Result<Message, Error>;

    /// Receives the next frame as a byte vector.
    fn recv_bytes(&self, flags: i32) -> Result<Vec<u8>, Error>;

    /// Receives the next frame as text. A frame that is not valid UTF-8 comes
    /// back unchanged in the inner `Err`.
    fn recv_string(&self, flags: i32) -> Result<Result<String, Vec<u8>>, Error>;

    /// Receives all frames of one multipart message, or none of them.
    fn recv_multipart(&self, flags: i32) -> Result<Vec<Vec<u8>>, Error>;
}

/// Sends simple and multipart messages.
pub trait MessageSend {
    /// Sends one frame.
    fn send(&self, data: &[u8], flags: i32) -> Result<(), Error>;

    /// Sends all frames of a multipart message, or none of them.
    fn send_multipart(&self, frames: &[Vec<u8>], flags: i32) -> Result<(), Error>;
}

/// Listens for incoming messages.
pub trait Listen: MessageRecv + MessageSend + Sized {
    /// A stream of the messages received on this socket.
    fn listen(&self) -> ListenStream<'_, Self> {
        ListenStream::new(self)
    }
}

} // verus!
