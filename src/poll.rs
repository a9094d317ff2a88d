//! Outcomes of a progress step, and the rule that maps an attempt to one.
use vstd::prelude::*;

verus! {

/// One frame of a message: an owned sequence of bytes.
pub type Message = Vec<u8>;

/// A failure reported by a socket capability.
#[derive(Clone, Copy, Debug, PartialEq, Eq, Structural)]
pub enum Error {
    /// The call could not make progress now; a later attempt may succeed.
    WouldBlock,
    /// Any other failure, carrying the transport's error code.
    Transport(i32),
}

/// Whether a progress step finished with a value or must be retried later.
#[derive(Clone, Debug, PartialEq, Eq)]
pub enum Async<T> {
    /// The operation completed with this value.
    Ready(T),
    /// The operation could not progress; the scheduler should invoke it again.
    NotReady,
}

/// What one progress step reports: a value, a suspension, or a hard error.
pub type Poll<T> = Result<Async<T>, Error>;

/// The step that a single non-blocking attempt yields: a would-block error
/// suspends, any other error is passed on unchanged, a success completes.
pub open spec fn step<T>(outcome: Result<T, Error>) -> Poll<T> {
    match outcome {
        Ok(v) => Ok(Async::Ready(v)),
        Err(Error::WouldBlock) => Ok(Async::NotReady),
        Err(e) => Err(e),
    }
}

/// The steps that a run of attempts yields, one for each attempt.
pub open spec fn run<T>(outcomes: Seq<Result<T, Error>>) -> Seq<Poll<T>> {
    outcomes.map_values(|o: Result<T, Error>| step(o))
}

/// A step that some attempt can yield: everything but a would-block error,
/// which is never handed on to the caller.
pub open spec fn is_step<T>(p: Poll<T>) -> bool {
    p != Err::<Async<T>, Error>(Error::WouldBlock)
}

/// Whether an error is the would-block signal.
pub fn is_would_block(e: &Error) -> (r: bool)
    ensures
        r == (*e == Error::WouldBlock),
{
    match e {
        Error::WouldBlock => true,
        Error::Transport(_) => false,
    }
}

/// Turns the outcome of one non-blocking attempt into a progress step.
pub fn settle<T>(outcome: Result<T, Error>) -> (r: Poll<T>)
    ensures
        r == step(outcome),
        is_step(r),
{
    match outcome {
        Ok(v) => Ok(Async::Ready(v)),
        Err(e) => {
            if is_would_block(&e) {
                Ok(Async::NotReady)
            } else {
                Err(e)
            }
        },
    }
}

} // verus!
