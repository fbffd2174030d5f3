//! One-shot reply capability object.

use vstd::prelude::*;

use crate::capability::cap::CapObject;

verus! {

/// A one-shot reply object.
///
/// The kernel creates a `ReplyObj` for every `Call` IPC.  The reply
/// capability (`Cap<ReplyObj>`) is passed to the server; because it is linear
/// it cannot be duplicated, so the server can reply exactly once.
#[derive(Debug)]
pub struct ReplyObj {
    /// ID of the calling thread waiting for this reply.
    pub caller_id: u64,
    /// Whether the reply has already been sent.
    pub consumed: bool,
}

impl ReplyObj {
    /// Create a reply object for caller `caller_id`.
    pub fn new(caller_id: u64) -> (r: Self)
        ensures
            r == (ReplyObj { caller_id, consumed: false }),
    {
        ReplyObj { caller_id, consumed: false }
    }
}

impl CapObject for ReplyObj {
    /// Revoking an unsent reply would wake the caller with an IPC error; the
    /// object itself is left as it is.
    fn on_revoke(&mut self)
        ensures
            *final(self) == *old(self),
    {
    }
}

} // verus!
