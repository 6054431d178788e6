//! The receive step's verified core.
//!
//! The socket adapter suspends until the queue's descriptor is readable,
//! reads exactly one datagram into its reusable buffer, and then follows the
//! decision computed here: only a read of more than zero bytes is handed to
//! the native packet dispatcher (which re-enters the callback trampoline);
//! a zero-length read produces no callback invocations and is not an error.

use vstd::prelude::*;

verus! {

/// What the receive step does with one completed read.
#[derive(Clone, Copy, PartialEq, Eq, Structural, Debug)]
pub enum ReceiveAction {
    /// Hand this many bytes of the buffer to the native packet dispatcher.
    Dispatch(usize),
    /// Nothing to dispatch; report success with no callback invocations.
    Idle,
}

/// Decide what to do with a read that filled `n` bytes of the buffer.
pub fn receive_decision(n: usize) -> (r: ReceiveAction)
    ensures
        n > 0 ==> r == ReceiveAction::Dispatch(n),
        n == 0 ==> r == ReceiveAction::Idle,
{
    if n > 0 {
        ReceiveAction::Dispatch(n)
    } else {
        ReceiveAction::Idle
    }
}

} // verus!
