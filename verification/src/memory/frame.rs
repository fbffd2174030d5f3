//! Physical memory frame object.

use vstd::prelude::*;

use crate::capability::cap::CapObject;

verus! {

/// Supported page / frame sizes.
#[derive(Debug, Clone, Copy, PartialEq, Eq, Structural)]
pub enum FrameSize {
    /// 4 KiB small page (all architectures).
    Small,
    /// 2 MiB large page (x86-64 / AArch64).
    Large,
    /// 1 GiB huge page (x86-64).
    Huge,
}

impl FrameSize {
    /// Size in bytes.
    pub fn bytes(self) -> (n: usize)
        ensures
            n == match self {
                FrameSize::Small => 4 * 1024,
                FrameSize::Large => 2 * 1024 * 1024,
                FrameSize::Huge => 1024 * 1024 * 1024,
            },
    {
        match self {
            FrameSize::Small => 4 * 1024,
            FrameSize::Large => 2 * 1024 * 1024,
            FrameSize::Huge => 1024 * 1024 * 1024,
        }
    }
}

/// A physical memory frame (page).
///
/// `Cap<Frame>` represents the authority to map this frame into an address
/// space.
#[derive(Debug)]
pub struct Frame {
    /// Physical base address of this frame.
    pub phys_addr: u64,
    /// Size of this frame.
    pub size: FrameSize,
    /// Whether this frame is currently mapped into any address space.
    pub mapped: bool,
}

impl Frame {
    /// Create an unmapped frame at the given physical address.
    pub fn new(phys_addr: u64, size: FrameSize) -> (f: Self)
        ensures
            f == (Frame { phys_addr, size, mapped: false }),
    {
        Frame { phys_addr, size, mapped: false }
    }

    /// Mark the frame as mapped.
    ///
    /// Callers hold `Rights::WRITE` on the wrapping `Cap<Frame>`.
    pub fn map(&mut self)
        ensures
            *final(self) == (Frame { mapped: true, ..*old(self) }),
    {
        self.mapped = true;
    }

    /// Unmap the frame.
    pub fn unmap(&mut self)
        ensures
            *final(self) == (Frame { mapped: false, ..*old(self) }),
        opens_invariants none
        no_unwind
    {
        self.mapped = false;
    }
}

impl CapObject for Frame {
    /// Revoking a frame's last capability unmaps it.
    fn on_revoke(&mut self)
        ensures
            *final(self) == (Frame { mapped: false, ..*old(self) }),
    {
        self.unmap();
    }
}

} // verus!
