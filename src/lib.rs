//! Futures and streams over non-blocking, message-oriented sockets.
//!
//! A socket is anything that implements the capability traits of [`capability`]:
//! non-blocking attempts to send or receive frames that report
//! [`Error::WouldBlock`] instead of blocking. The operations in [`recv`],
//! [`send`] and [`stream`] turn such attempts into steps that a cooperative
//! scheduler drives: a would-block outcome becomes a suspension, a success
//! completes the operation, and any other error ends it unchanged.
pub mod capability;
pub mod laws;
pub mod poll;
pub mod recv;
pub mod send;
pub mod stream;

pub use capability::{Listen, MessageRecv, MessageSend};
pub use poll::{settle, Async, Error, Message, Poll};
pub use recv::{ReceiveMessage, ReceiveMultipartMessage};
pub use send::{SendMessage, SendMultipartMessage};
pub use stream::ListenStream;
