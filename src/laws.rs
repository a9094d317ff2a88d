//! Laws that hold of every operation of this crate, stated over the step
//! that an attempt yields ([`step`], [`run`]) and the frame that a receive
//! attempt fills ([`filled`]).
use vstd::prelude::*;

use crate::poll::{run, step, Async, Error, Message};
use crate::recv::filled;

verus! {

/// A receive operation whose socket reports would-block `n` times and then
/// delivers `msg` suspends exactly `n` times and then completes with `msg`,
/// whatever the buffers of the blocked attempts held.
pub proof fn suspends_once_per_would_block(buffers: Seq<Message>, msg: Message)
    ensures
        run(
            Seq::new(buffers.len(), |i: int| filled(Err(Error::WouldBlock), buffers[i])).push(
                filled(Ok(()), msg),
            ),
        ) == Seq::new(buffers.len(), |i: int| Ok::<Async<Message>, Error>(Async::NotReady)).push(
            Ok(Async::Ready(msg)),
        ),
{
    let attempts = Seq::new(buffers.len(), |i: int| filled(Err(Error::WouldBlock), buffers[i])).push(
        filled(Ok(()), msg),
    );
    let expected = Seq::new(buffers.len(), |i: int| Ok::<Async<Message>, Error>(Async::NotReady)).push(
        Ok(Async::Ready(msg)),
    );
    assert(run(attempts) =~= expected);
}

/// An operation whose attempts report would-block `n` times and then succeed
/// with `v` (a multipart receive, a send) suspends exactly `n` times and then
/// completes with `v`.
pub proof fn suspends_n_times_then_completes<T>(n: nat, v: T)
    ensures
        run(Seq::new(n, |i: int| Err::<T, Error>(Error::WouldBlock)).push(Ok(v))) == Seq::new(
            n,
            |i: int| Ok::<Async<T>, Error>(Async::NotReady),
        ).push(Ok(Async::Ready(v))),
{
    assert(run(Seq::new(n, |i: int| Err::<T, Error>(Error::WouldBlock)).push(Ok(v))) =~= Seq::new(
        n,
        |i: int| Ok::<Async<T>, Error>(Async::NotReady),
    ).push(Ok(Async::Ready(v))));
}

/// A hard error on the first attempt ends the operation at the first step,
/// with that error, before any suspension.
pub proof fn hard_error_fails_first<T>(e: Error, later: Seq<Result<T, Error>>)
    requires
        e != Error::WouldBlock,
    ensures
        run(seq![Err::<T, Error>(e)] + later)[0] == Err::<Async<T>, Error>(e),
{
}

/// A step completes only with the whole value that the attempt produced; a
/// would-block attempt only suspends. A multipart receive therefore yields
/// every frame of the message or none.
pub proof fn completes_only_with_whole_outcome<T>(outcome: Result<T, Error>)
    ensures
        step(outcome) is Ok && step(outcome)->Ok_0 is Ready ==> outcome == Ok::<T, Error>(
            step(outcome)->Ok_0->Ready_0,
        ),
        outcome == Err::<T, Error>(Error::WouldBlock) ==> step(outcome) == Ok::<Async<T>, Error>(
            Async::NotReady,
        ),
{
}

/// Invoking an operation again while its socket still reports would-block
/// suspends it again, as many times as it is invoked.
pub proof fn suspension_repeats<T>(n: nat)
    ensures
        run(Seq::new(n, |i: int| Err::<T, Error>(Error::WouldBlock))) == Seq::new(
            n,
            |i: int| Ok::<Async<T>, Error>(Async::NotReady),
        ),
{
    assert(run(Seq::new(n, |i: int| Err::<T, Error>(Error::WouldBlock))) =~= Seq::new(
        n,
        |i: int| Ok::<Async<T>, Error>(Async::NotReady),
    ));
}

} // verus!
