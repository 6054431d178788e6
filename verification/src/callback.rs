//! The callback trampoline's verified core.
//!
//! The native library invokes a fixed function pointer once per parsed
//! record, handing it one opaque user-data pointer.  The unverified glue
//! around this module recovers the handler from that pointer, builds a typed
//! record, runs the handler inside a failure boundary, and reports back a
//! status.  What is verified here is the protocol the glue follows: the
//! exclusive borrow-out-then-return discipline on the bridge-owned handler
//! storage, and the exact status reported for every outcome.

use vstd::prelude::*;

verus! {

/// The status the trampoline reports to the native dispatcher for one
/// invocation: zero to go on with the current batch, one to stop it.
/// Only a present user-data pointer, a present record pointer and a handler
/// run that completed yield zero; a protocol violation or an aborted handler
/// yields one.
pub open spec fn spec_callback_status(
    user_data_present: bool,
    record_present: bool,
    handler_completed: bool,
) -> int {
    if user_data_present && record_present && handler_completed {
        0
    } else {
        1
    }
}

/// Compute the status of one trampoline invocation.
pub fn callback_status(user_data_present: bool, record_present: bool, handler_completed: bool) -> (r:
    i32)
    ensures
        r == spec_callback_status(user_data_present, record_present, handler_completed),
        r == 0 <==> user_data_present && record_present && handler_completed,
{
    if user_data_present && record_present && handler_completed {
        0
    } else {
        1
    }
}

/// Bridge-owned storage for the caller-supplied handler.
///
/// Registration moves the handler in; each callback invocation takes
/// exclusive temporary access and puts it back, whatever the invocation's
/// outcome; teardown reclaims it exactly once.  The slot is empty only while
/// an invocation is in flight.
pub struct HandlerSlot<H> {
    /// The stored handler, absent only during an invocation.
    pub handler: Option<H>,
}

impl<H> HandlerSlot<H> {
    /// Whether a handler is stored.
    pub open spec fn occupied(self) -> bool {
        self.handler is Some
    }

    /// Move a handler into bridge-owned storage at registration time.
    pub fn install(handler: H) -> (r: HandlerSlot<H>)
        ensures
            r.handler == Some(handler),
    {
        HandlerSlot { handler: Some(handler) }
    }

    /// Take exclusive temporary access to the handler for one invocation.
    pub fn take_for_invocation(&mut self) -> (h: H)
        requires
            old(self).occupied(),
        ensures
            old(self).handler == Some(h),
            !final(self).occupied(),
    {
        let taken = self.handler.take();
        match taken {
            Some(h) => h,
            None => unreached(),
        }
    }

    /// Return the handler to storage once the invocation is over.  This runs
    /// whether or not the handler completed, so the handler stays available
    /// for the next invocation.
    pub fn put_back(&mut self, handler: H)
        requires
            !old(self).occupied(),
        ensures
            final(self).handler == Some(handler),
            final(self).occupied(),
    {
        self.handler = Some(handler);
    }

    /// Reclaim the handler on final teardown of the owning queue.  Consuming
    /// the slot makes a second reclaim impossible.
    pub fn reclaim(self) -> (h: H)
        requires
            self.occupied(),
        ensures
            self.handler == Some(h),
    {
        match self.handler {
            Some(h) => h,
            None => unreached(),
        }
    }
}

/// Model of one whole trampoline invocation over the handler storage: the
/// handler is borrowed out, run (`handler_completed` tells whether it ran to
/// completion or aborted), put back, and a status is reported.  The contract
/// is the isolation property itself: whatever the outcome, the storage is
/// left exactly as it was found, so an aborted invocation cannot prevent the
/// next one, and the status depends on this invocation's outcome alone.
pub fn invocation_round_trip<H>(
    slot: &mut HandlerSlot<H>,
    record_present: bool,
    handler_completed: bool,
) -> (r: i32)
    requires
        old(slot).occupied(),
    ensures
        *final(slot) == *old(slot),
        final(slot).occupied(),
        r == spec_callback_status(true, record_present, handler_completed),
{
    let handler = slot.take_for_invocation();
    slot.put_back(handler);
    callback_status(true, record_present, handler_completed)
}

/// An aborted handler invocation reports the stop status, and an invocation
/// that completes on a present record reports success; with
/// `invocation_round_trip` leaving the storage untouched, a failure in one
/// invocation never changes what the next one reports.
pub proof fn lemma_handler_failure_isolated()
    ensures
        spec_callback_status(true, true, false) == 1,
        spec_callback_status(true, true, true) == 0,
{
}

} // verus!
