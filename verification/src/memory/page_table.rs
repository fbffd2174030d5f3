//! Page-table kernel object.

use vstd::prelude::*;

use crate::capability::cap::CapObject;

verus! {

/// A single level of the hardware page-table hierarchy.
///
/// `Cap<PageTable>` represents the authority to install/remove mappings
/// within this table level.
#[derive(Debug)]
pub struct PageTable {
    /// Physical address of the page-table page.
    pub phys_addr: u64,
    /// Number of installed entries.
    pub entry_count: usize,
    /// Whether this table is currently installed in a VSpace.
    pub installed: bool,
}

impl PageTable {
    /// Allocate an empty, uninstalled page-table at the given physical
    /// address.
    pub fn new(phys_addr: u64) -> (t: Self)
        ensures
            t == (PageTable { phys_addr, entry_count: 0, installed: false }),
    {
        PageTable { phys_addr, entry_count: 0, installed: false }
    }

    /// Install this page-table into the active VSpace.
    pub fn install(&mut self)
        ensures
            *final(self) == (PageTable { installed: true, ..*old(self) }),
    {
        self.installed = true;
    }

    /// Uninstall this page-table from the active VSpace.
    pub fn uninstall(&mut self)
        ensures
            *final(self) == (PageTable { installed: false, ..*old(self) }),
        opens_invariants none
        no_unwind
    {
        self.installed = false;
    }
}

impl CapObject for PageTable {
    /// Revoking a page table uninstalls it.
    fn on_revoke(&mut self)
        ensures
            *final(self) == (PageTable { installed: false, ..*old(self) }),
    {
        self.uninstall();
    }
}

} // verus!
