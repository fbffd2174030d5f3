//! Kernel thread / TCB (thread control block) model.
//!
//! Every thread is accessed through `Cap<Thread>`: it cannot be scheduled,
//! paused, or destroyed without the appropriate capability.

use vstd::prelude::*;

use crate::capability::cap::CapObject;

verus! {

/// Thread scheduling state.
#[derive(Debug, Clone, Copy, PartialEq, Eq, Structural)]
pub enum ThreadState {
    /// Runnable or currently running.
    Running,
    /// Blocked on an IPC endpoint.
    Blocked,
    /// Suspended by the scheduler or a parent.
    Suspended,
    /// Thread has exited.
    Dead,
}

/// The state a thread is in after `resume`: only a suspended thread starts
/// running.
pub open spec fn resumed(s: ThreadState) -> ThreadState {
    if s == ThreadState::Suspended {
        ThreadState::Running
    } else {
        s
    }
}

/// The state a thread is in after `suspend`: only a running thread is
/// suspended.
pub open spec fn suspended(s: ThreadState) -> ThreadState {
    if s == ThreadState::Running {
        ThreadState::Suspended
    } else {
        s
    }
}

/// A kernel thread control block.
#[derive(Debug)]
pub struct Thread {
    /// Kernel-assigned thread ID.
    pub id: u64,
    /// Human-readable name (for debugging).
    pub name: &'static str,
    /// Current scheduling state.
    pub state: ThreadState,
    /// Priority (0 = lowest, 255 = highest).
    pub priority: u8,
}

impl Thread {
    /// Create a new thread in the `Suspended` state.
    pub fn new(id: u64, name: &'static str, priority: u8) -> (t: Self)
        ensures
            t == (Thread { id, name, state: ThreadState::Suspended, priority }),
    {
        Thread { id, name, state: ThreadState::Suspended, priority }
    }

    /// Resume a suspended thread; a thread in any other state is left as
    /// it is.
    pub fn resume(&mut self)
        ensures
            *final(self) == (Thread { state: resumed(old(self).state), ..*old(self) }),
            old(self).state == ThreadState::Suspended ==> final(self).state == ThreadState::Running,
            old(self).state != ThreadState::Suspended ==> final(self).state == old(self).state,
    {
        if self.state == ThreadState::Suspended {
            self.state = ThreadState::Running;
        }
    }

    /// Suspend a running thread; a thread in any other state is left as it
    /// is.
    pub fn suspend(&mut self)
        ensures
            *final(self) == (Thread { state: suspended(old(self).state), ..*old(self) }),
            old(self).state == ThreadState::Running ==> final(self).state == ThreadState::Suspended,
            old(self).state != ThreadState::Running ==> final(self).state == old(self).state,
    {
        if self.state == ThreadState::Running {
            self.state = ThreadState::Suspended;
        }
    }
}

impl CapObject for Thread {
    /// Revoking a thread's capability kills the thread.
    fn on_revoke(&mut self)
        ensures
            *final(self) == (Thread { state: ThreadState::Dead, ..*old(self) }),
    {
        self.state = ThreadState::Dead;
    }
}

/// Resuming starts exactly the suspended threads; suspending stops exactly
/// the running ones; every other state is left as it is.
pub proof fn lemma_resume_suspend_cases(s: ThreadState)
    ensures
        s == ThreadState::Suspended ==> resumed(s) == ThreadState::Running,
        s != ThreadState::Suspended ==> resumed(s) == s,
        s == ThreadState::Running ==> suspended(s) == ThreadState::Suspended,
        s != ThreadState::Running ==> suspended(s) == s,
{
}

/// Suspending a running thread and resuming it again gives a running
/// thread; resuming a suspended thread and suspending it again gives a
/// suspended thread.
pub proof fn lemma_suspend_resume_inverse(s: ThreadState)
    ensures
        s == ThreadState::Running ==> resumed(suspended(s)) == s,
        s == ThreadState::Suspended ==> suspended(resumed(s)) == s,
{
}

/// Blocked and dead threads are neither resumed nor suspended, and both
/// operations are idempotent.
pub proof fn lemma_resume_suspend_stable(s: ThreadState)
    ensures
        (s == ThreadState::Blocked || s == ThreadState::Dead) ==> resumed(s) == s && suspended(s)
            == s,
        resumed(resumed(s)) == resumed(s),
        suspended(suspended(s)) == suspended(s),
{
}

} // verus!
