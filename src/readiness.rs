//! The policy of the readiness-gated socket: wait until the OS reports the
//! socket ready, try the call once, and wait again only when the call would
//! block. Any other outcome goes to the caller as it came.

use vstd::prelude::*;

verus! {

/// What one round of waiting and trying gave.
pub enum Attempt<T, E> {
    /// Waiting for readiness itself failed.
    WaitFailed(E),
    /// The socket was reported ready, yet the call would block: another
    /// waiter took the datagram, or the wakeup was spurious.
    WouldBlock,
    /// The call ran, and succeeded or failed.
    Completed(Result<T, E>),
}

/// What the socket operation does after a round.
pub enum Next<T, E> {
    /// Wait for readiness again and retry; the caller never sees this.
    Retry,
    /// Hand this outcome to the caller.
    Finish(Result<T, E>),
}

/// Decides what follows one round of a readiness-gated socket call.
pub fn after_attempt<T, E>(attempt: Attempt<T, E>) -> (next: Next<T, E>)
    ensures
        match attempt {
            Attempt::WaitFailed(e) => next == Next::<T, E>::Finish(Err(e)),
            Attempt::WouldBlock => next is Retry,
            Attempt::Completed(r) => next == Next::<T, E>::Finish(r),
        },
{
    match attempt {
        Attempt::WaitFailed(e) => Next::Finish(Err(e)),
        Attempt::WouldBlock => Next::Retry,
        Attempt::Completed(r) => Next::Finish(r),
    }
}

} // verus!
