//! Syscall dispatch layer.
//!
//! The only kernel entry points are the IPC calls (`Call`, `Send`, `Recv`,
//! `ReplyRecv`), `Yield`, and the capability-management calls.

use vstd::prelude::*;

verus! {

/// Top-level syscall identifier.  Each syscall has a raw number, given by
/// [`Syscall::to_raw`]: `Call` is 0, `Send` 1, ..., `CNodeRevoke` 8.
#[derive(Debug, Clone, Copy, PartialEq, Eq, Structural)]
pub enum Syscall {
    /// Synchronous call — send and block until reply.
    Call,
    /// Non-blocking send.
    Send,
    /// Blocking receive.
    Recv,
    /// Atomically reply and receive next message.
    ReplyRecv,
    /// Yield the current thread's timeslice.
    Yield,
    /// Retype an untyped capability.
    Retype,
    /// Copy/mint a capability into a CNode slot.
    CNodeCopy,
    /// Delete a capability from a CNode slot.
    CNodeDelete,
    /// Revoke all derived capabilities.
    CNodeRevoke,
}

/// The raw number of a syscall.
pub open spec fn syscall_number(s: Syscall) -> u64 {
    match s {
        Syscall::Call => 0,
        Syscall::Send => 1,
        Syscall::Recv => 2,
        Syscall::ReplyRecv => 3,
        Syscall::Yield => 4,
        Syscall::Retype => 5,
        Syscall::CNodeCopy => 6,
        Syscall::CNodeDelete => 7,
        Syscall::CNodeRevoke => 8,
    }
}

impl Syscall {
    /// Decode a raw syscall number; numbers above 8 name no syscall.
    pub fn from_raw(n: u64) -> (r: Option<Self>)
        ensures
            match r {
                Some(s) => syscall_number(s) == n,
                None => n > 8,
            },
            n == 0 ==> r == Some(Syscall::Call),
            n == 1 ==> r == Some(Syscall::Send),
            n == 2 ==> r == Some(Syscall::Recv),
            n == 3 ==> r == Some(Syscall::ReplyRecv),
            n == 4 ==> r == Some(Syscall::Yield),
            n == 5 ==> r == Some(Syscall::Retype),
            n == 6 ==> r == Some(Syscall::CNodeCopy),
            n == 7 ==> r == Some(Syscall::CNodeDelete),
            n == 8 ==> r == Some(Syscall::CNodeRevoke),
    {
        match n {
            0 => Some(Syscall::Call),
            1 => Some(Syscall::Send),
            2 => Some(Syscall::Recv),
            3 => Some(Syscall::ReplyRecv),
            4 => Some(Syscall::Yield),
            5 => Some(Syscall::Retype),
            6 => Some(Syscall::CNodeCopy),
            7 => Some(Syscall::CNodeDelete),
            8 => Some(Syscall::CNodeRevoke),
            _ => None,
        }
    }

    /// The raw number of this syscall.
    pub fn to_raw(self) -> (n: u64)
        ensures
            n == syscall_number(self),
            self == Syscall::Call ==> n == 0,
            self == Syscall::Send ==> n == 1,
            self == Syscall::Recv ==> n == 2,
            self == Syscall::ReplyRecv ==> n == 3,
            self == Syscall::Yield ==> n == 4,
            self == Syscall::Retype ==> n == 5,
            self == Syscall::CNodeCopy ==> n == 6,
            self == Syscall::CNodeDelete ==> n == 7,
            self == Syscall::CNodeRevoke ==> n == 8,
    {
        match self {
            Syscall::Call => 0,
            Syscall::Send => 1,
            Syscall::Recv => 2,
            Syscall::ReplyRecv => 3,
            Syscall::Yield => 4,
            Syscall::Retype => 5,
            Syscall::CNodeCopy => 6,
            Syscall::CNodeDelete => 7,
            Syscall::CNodeRevoke => 8,
        }
    }
}

/// The syscall numbering follows declaration order: `Call` is 0, `Send` 1,
/// `Recv` 2, `ReplyRecv` 3, `Yield` 4, `Retype` 5, `CNodeCopy` 6,
/// `CNodeDelete` 7 and `CNodeRevoke` 8.
pub proof fn lemma_syscall_numbering()
    ensures
        syscall_number(Syscall::Call) == 0,
        syscall_number(Syscall::Send) == 1,
        syscall_number(Syscall::Recv) == 2,
        syscall_number(Syscall::ReplyRecv) == 3,
        syscall_number(Syscall::Yield) == 4,
        syscall_number(Syscall::Retype) == 5,
        syscall_number(Syscall::CNodeCopy) == 6,
        syscall_number(Syscall::CNodeDelete) == 7,
        syscall_number(Syscall::CNodeRevoke) == 8,
{
}

/// Distinct syscalls have distinct numbers, so decoding a syscall's number
/// gives the syscall back.
pub proof fn lemma_syscall_number_injective(a: Syscall, b: Syscall)
    ensures
        syscall_number(a) == syscall_number(b) ==> a == b,
        syscall_number(a) <= 8,
{
}

} // verus!
