//! Untyped memory — raw physical memory before retyping.
//!
//! All physical memory begins as `UntypedMemory`.  The only way to create a
//! kernel object is to retype a slice of untyped memory; possession of
//! `Cap<UntypedMemory>` is the authority to do so, which guarantees that the
//! same physical memory is not allocated twice.

use vstd::prelude::*;
use vstd::arithmetic::power2::pow2;
use vstd::bits::{lemma_u64_pow2_no_overflow, lemma_u64_shl_is_mul};

use crate::capability::cap::CapObject;

verus! {

/// Raw physical memory awaiting retyping.
#[derive(Debug)]
pub struct UntypedMemory {
    /// Physical base address.
    pub phys_addr: u64,
    /// log₂ of the size in bytes.
    pub size_bits: u8,
    /// Whether this region has already been retyped (consumed).
    pub retyped: bool,
}

impl UntypedMemory {
    /// Create an untyped region that has not been retyped.
    ///
    /// * `phys_addr` — physical base address (`2^size_bits`-aligned).
    /// * `size_bits` — log₂ of the region size.
    pub fn new(phys_addr: u64, size_bits: u8) -> (u: Self)
        ensures
            u == (UntypedMemory { phys_addr, size_bits, retyped: false }),
    {
        UntypedMemory { phys_addr, size_bits, retyped: false }
    }

    /// Return the size of this region in bytes, `2^size_bits`; the size
    /// fits in a `u64`.
    pub fn size_bytes(&self) -> (n: u64)
        requires
            self.size_bits < 64,
        ensures
            n == pow2(self.size_bits as nat),
    {
        proof {
            lemma_u64_pow2_no_overflow(self.size_bits as nat);
            lemma_u64_shl_is_mul(1, self.size_bits as u64);
        }
        1u64 << (self.size_bits as u64)
    }

    /// Mark this region as consumed (retyped).
    ///
    /// Once retyped, the memory is owned by the derived object's capability.
    pub fn consume(&mut self)
        ensures
            *final(self) == (UntypedMemory { retyped: true, ..*old(self) }),
    {
        self.retyped = true;
    }

    /// Returns `true` if the region can still be retyped.
    pub fn is_available(&self) -> (b: bool)
        ensures
            b == !self.retyped,
    {
        !self.retyped
    }
}

impl CapObject for UntypedMemory {
    /// Returning untyped memory to the free pool would happen here; the
    /// object itself is left as it is.
    fn on_revoke(&mut self)
        ensures
            *final(self) == *old(self),
    {
    }
}

} // verus!
