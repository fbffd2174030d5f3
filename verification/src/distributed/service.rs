//! Service token — capability for a named distributed service.

use vstd::prelude::*;

use crate::capability::cap::CapObject;

verus! {

/// A token representing authority to invoke a named distributed service.
///
/// Possession of `Cap<ServiceToken>` proves the holder was explicitly granted
/// access by the service owner.
#[derive(Debug)]
pub struct ServiceToken {
    /// Service name (e.g. "audio.playback", "net.dhcp").
    pub name: &'static str,
    /// Unique service instance ID assigned at registration.
    pub instance_id: u64,
}

impl ServiceToken {
    /// Create a new service token.
    pub fn new(name: &'static str, instance_id: u64) -> (t: Self)
        ensures
            t == (ServiceToken { name, instance_id }),
    {
        ServiceToken { name, instance_id }
    }
}

impl CapObject for ServiceToken {
    /// The service would be unregistered from the bus here; the token itself
    /// is left as it is.
    fn on_revoke(&mut self)
        ensures
            *final(self) == *old(self),
    {
    }
}

} // verus!
