//! `Cap<T>` — first-class linear capability.
//!
//! Rust's ownership rules already enforce linearity: a value that is neither
//! `Copy` nor `Clone` cannot be duplicated, and cannot be observed after a
//! move.  Possession of a `Cap<T>` therefore *is* the authority it grants.
//!
//! * `Cap<T>` is neither `Copy` nor `Clone`.
//! * Moving a `Cap<T>` transfers all authority.
//! * Dropping a `Cap<T>` revokes it (calls `T::on_revoke`).
//! * Delegation (`derive`) always produces a capability with a subset of the
//!   parent's rights.

use vstd::prelude::*;

use crate::capability::badge::Badge;
use crate::capability::error::CapError;
use crate::capability::rights::{lemma_subset_transitive, Rights, READ_BIT, WRITE_BIT};

verus! {

/// Trait that every kernel object managed through a capability implements.
pub trait CapObject: Sized {
    /// Called when a `Cap` that still holds this object is dropped.
    ///
    /// Implementations perform deterministic cleanup (e.g. free memory,
    /// close endpoints).  The default does nothing.
    fn on_revoke(&mut self)
        opens_invariants none
        no_unwind
    {
    }
}

/// A first-class, linear capability wrapping a kernel object of type `T`.
///
/// `Cap<T>` intentionally implements neither `Copy` nor `Clone`.  To share
/// access, either move the capability or derive a child capability via
/// [`Cap::derive`] (with at most the parent's rights).
#[derive(Debug)]
pub struct Cap<T: CapObject> {
    /// `None` only once the object has been moved out by `derive` or
    /// `into_object`, right before the capability is dropped.
    object: Option<T>,
    rights: Rights,
    badge: Badge,
}

/// The error, if any, that deriving a capability with `new_rights` from a
/// parent holding `parent_rights` fails with.
///
/// Rights escalation is checked first; then the parent must hold
/// [`Rights::GRANT`].
pub open spec fn derive_error(parent_rights: Rights, new_rights: Rights) -> Option<CapError> {
    if !new_rights.is_subset_of(parent_rights) {
        Some(CapError::RightsEscalation)
    } else if !parent_rights.contains(Rights::GRANT()) {
        Some(CapError::InsufficientRights)
    } else {
        None
    }
}

impl<T: CapObject> Cap<T> {
    /// A capability is well formed while it still holds its object.  Every
    /// capability handed out by this crate is well formed.
    pub closed spec fn wf(&self) -> bool {
        self.object is Some
    }

    /// The kernel object that the capability grants access to.
    pub closed spec fn object(&self) -> T {
        self.object->Some_0
    }

    /// The rights held by the capability.
    pub closed spec fn spec_rights(&self) -> Rights {
        self.rights
    }

    /// The badge of the capability.
    pub closed spec fn spec_badge(&self) -> Badge {
        self.badge
    }

    /// Mint a brand-new capability with the given rights and badge.
    ///
    /// This is the *root* constructor — normally only the kernel calls this.
    pub fn mint(object: T, rights: Rights, badge: Badge) -> (c: Self)
        ensures
            c.wf(),
            c.object() == object,
            c.rights() == rights,
            c.badge() == badge,
    {
        Cap { object: Some(object), rights, badge }
    }

    /// Return the rights held by this capability.
    #[verifier::when_used_as_spec(spec_rights)]
    pub fn rights(&self) -> (r: Rights)
        ensures
            r == self.spec_rights(),
    {
        self.rights
    }

    /// Return the badge of this capability.
    #[verifier::when_used_as_spec(spec_badge)]
    pub fn badge(&self) -> (b: Badge)
        ensures
            b == self.spec_badge(),
    {
        self.badge
    }

    /// Check whether this capability holds *at least* `required`.
    pub fn has_rights(&self, required: Rights) -> (b: bool)
        ensures
            b == self.rights().contains(required),
    {
        self.rights.contains(required)
    }

    /// Derive a child capability with `new_rights` and `new_badge`.
    ///
    /// # Errors
    /// * [`CapError::RightsEscalation`] — `new_rights` is not a subset of the
    ///   parent's rights (checked first).
    /// * [`CapError::InsufficientRights`] — the parent does not hold
    ///   [`Rights::GRANT`].
    ///
    /// `self` is always consumed.  On error the object is dropped together
    /// with the parent, so `on_revoke` runs on it.
    pub fn derive(self, new_rights: Rights, new_badge: Badge) -> (r: Result<Cap<T>, CapError>)
        requires
            self.wf(),
        ensures
            match derive_error(self.rights(), new_rights) {
                Some(e) => r == Err::<Cap<T>, CapError>(e),
                None => r is Ok && {
                    let c = r->Ok_0;
                    &&& c.wf()
                    &&& c.object() == self.object()
                    &&& c.rights() == new_rights
                    &&& c.badge() == new_badge
                },
            },
            !new_rights.is_subset_of(self.rights()) ==> r == Err::<Cap<T>, CapError>(
                CapError::RightsEscalation,
            ),
            new_rights.is_subset_of(self.rights()) && !self.rights().contains(Rights::GRANT())
                ==> r == Err::<Cap<T>, CapError>(CapError::InsufficientRights),
            r is Ok ==> new_rights.is_subset_of(self.rights()) && self.rights().contains(
                Rights::GRANT(),
            ),
    {
        if !new_rights.is_subset_of(self.rights) {
            return Err(CapError::RightsEscalation);
        }
        if !self.rights.contains(Rights::GRANT()) {
            return Err(CapError::InsufficientRights);
        }
        let mut parent = self;
        let object = parent.object.take().unwrap();
        Ok(Cap { object: Some(object), rights: new_rights, badge: new_badge })
    }

    /// Mint a reply capability (for one-shot IPC replies).
    ///
    /// The reply cap carries only `READ | WRITE` rights and the supplied badge.
    pub fn mint_reply(object: T, badge: Badge) -> (c: Self)
        ensures
            c.wf(),
            c.object() == object,
            c.rights() == Rights(READ_BIT | WRITE_BIT),
            c.badge() == badge,
    {
        Self::mint(object, Rights::READ() | Rights::WRITE(), badge)
    }

    /// Unwrap the underlying object, consuming the capability.
    ///
    /// `on_revoke` is **not** called — the caller takes full ownership of the
    /// object and is responsible for cleanup.
    pub fn into_object(self) -> (o: T)
        requires
            self.wf(),
        ensures
            o == self.object(),
    {
        let mut cap = self;
        cap.object.take().unwrap()
    }

    /// Immutably borrow the underlying object; requires `required` rights.
    pub fn borrow_object(&self, required: Rights) -> (r: Result<&T, CapError>)
        requires
            self.wf(),
        ensures
            match r {
                Ok(o) => self.rights().contains(required) && *o == self.object(),
                Err(e) => !self.rights().contains(required) && e == CapError::InsufficientRights,
            },
    {
        if self.rights.contains(required) {
            match &self.object {
                Some(o) => Ok(o),
                None => Err(CapError::InsufficientRights),
            }
        } else {
            Err(CapError::InsufficientRights)
        }
    }

    /// Mutably borrow the underlying object; requires `required` rights.
    ///
    /// Writes through the returned reference change the capability's object
    /// and nothing else.
    pub fn borrow_object_mut(&mut self, required: Rights) -> (r: Result<&mut T, CapError>)
        requires
            old(self).wf(),
        ensures
            match r {
                Ok(o) => {
                    &&& old(self).rights().contains(required)
                    &&& *o == old(self).object()
                    &&& final(self).wf()
                    &&& final(self).object() == *final(o)
                    &&& final(self).rights() == old(self).rights()
                    &&& final(self).badge() == old(self).badge()
                },
                Err(e) => {
                    &&& !old(self).rights().contains(required)
                    &&& e == CapError::InsufficientRights
                    &&& *final(self) == *old(self)
                },
            },
    {
        if self.rights.contains(required) {
            match &mut self.object {
                Some(o) => Ok(o),
                None => Err(CapError::InsufficientRights),
            }
        } else {
            Err(CapError::InsufficientRights)
        }
    }
}

impl<T: CapObject> Drop for Cap<T> {
    /// Deterministic revocation: a capability that still holds its object
    /// revokes it.  After `derive` or `into_object` this does nothing.
    fn drop(&mut self)
        opens_invariants none
        no_unwind
    {
        if let Some(obj) = &mut self.object {
            obj.on_revoke();
        }
    }
}

/// Delegation never escalates: along any chain of successful derivations,
/// each capability holds a subset of the rights of every ancestor.
pub proof fn lemma_derive_chain_no_escalation(root: Rights, mid: Rights, leaf: Rights)
    requires
        derive_error(root, mid) is None,
        derive_error(mid, leaf) is None,
    ensures
        leaf.is_subset_of(root),
        mid.is_subset_of(root),
{
    lemma_subset_transitive(leaf, mid, root);
}

/// The outcome of a derivation by cases: requesting rights the parent lacks
/// is an escalation whatever else the parent holds; otherwise a parent
/// without GRANT is refused with `InsufficientRights`; otherwise it
/// succeeds.
pub proof fn lemma_derive_error_cases(parent: Rights, requested: Rights)
    ensures
        !requested.is_subset_of(parent) ==> derive_error(parent, requested) == Some(
            CapError::RightsEscalation,
        ),
        requested.is_subset_of(parent) && !parent.contains(Rights::GRANT()) ==> derive_error(
            parent,
            requested,
        ) == Some(CapError::InsufficientRights),
        requested.is_subset_of(parent) && parent.contains(Rights::GRANT()) ==> derive_error(
            parent,
            requested,
        ) is None,
{
}

/// A derivation succeeds exactly when the requested rights are a subset of
/// the parent's and the parent holds [`Rights::GRANT`].
pub proof fn lemma_derive_succeeds_iff(parent: Rights, requested: Rights)
    ensures
        derive_error(parent, requested) is None <==> (requested.is_subset_of(parent)
            && parent.contains(Rights::GRANT())),
{
}

} // verus!
