//! Capability errors.

use vstd::prelude::*;

verus! {

/// All errors that capability operations can produce.
#[derive(Debug, Clone, Copy, PartialEq, Eq, Structural)]
pub enum CapError {
    /// The requested operation requires rights not present in this capability.
    InsufficientRights,
    /// The CNode slot targeted is already occupied.
    SlotOccupied,
    /// The CNode slot targeted is out of range.
    SlotOutOfRange,
    /// The CNode is empty (slot is `None`) where a capability was expected.
    SlotEmpty,
    /// A badge value of zero was supplied where a non-zero badge is required.
    InvalidBadge,
    /// Attempted to derive more rights than the parent possesses.
    RightsEscalation,
}

impl CapError {
    /// The human-readable description of the error.
    pub fn message(self) -> (m: &'static str)
        ensures
            m@ == match self {
                CapError::InsufficientRights => "capability: insufficient rights"@,
                CapError::SlotOccupied => "capability: cnode slot already occupied"@,
                CapError::SlotOutOfRange => "capability: cnode slot index out of range"@,
                CapError::SlotEmpty => "capability: cnode slot is empty"@,
                CapError::InvalidBadge => "capability: invalid badge value (zero)"@,
                CapError::RightsEscalation => "capability: rights escalation attempt"@,
            },
    {
        match self {
            CapError::InsufficientRights => "capability: insufficient rights",
            CapError::SlotOccupied => "capability: cnode slot already occupied",
            CapError::SlotOutOfRange => "capability: cnode slot index out of range",
            CapError::SlotEmpty => "capability: cnode slot is empty",
            CapError::InvalidBadge => "capability: invalid badge value (zero)",
            CapError::RightsEscalation => "capability: rights escalation attempt",
        }
    }
}

} // verus!
