//! Unforgeable process / endpoint badge.

use vstd::prelude::*;

use crate::text::{decimal, push_chars, push_numeral};

verus! {

/// The text of a badge with raw value `raw`: `Badge(` + decimal + `)`.
pub open spec fn badge_text(raw: u64) -> Seq<char> {
    seq!['B', 'a', 'd', 'g', 'e', '('] + decimal(raw as nat) + seq![')']
}

/// An unforgeable 64-bit badge assigned to a capability at mint time.
///
/// A badge serves as an immutable identity token — e.g. which client sent a
/// message through a shared endpoint.
#[derive(Debug, Clone, Copy, PartialEq, Eq, Hash, Structural)]
pub struct Badge(u64);

impl Badge {
    /// The raw value of a badge.
    pub closed spec fn spec_raw(self) -> u64 {
        self.0
    }

    /// The "no badge" / kernel-minted sentinel.
    #[allow(non_snake_case)]
    pub fn NONE() -> (b: Badge)
        ensures
            b.raw() == 0,
    {
        Badge(0)
    }

    /// Create a badge from a raw value.
    ///
    /// Callers should ensure values are allocated monotonically to prevent
    /// reuse; see [`crate::capability::BadgeAllocator`].
    pub fn new(raw: u64) -> (b: Badge)
        ensures
            b.raw() == raw,
    {
        Badge(raw)
    }

    /// Return the raw badge value.
    #[verifier::when_used_as_spec(spec_raw)]
    pub fn raw(self) -> (r: u64)
        ensures
            r == self.spec_raw(),
    {
        self.0
    }

    /// This is the sentinel "no badge".
    pub open spec fn is_none_spec(self) -> bool {
        self.raw() == 0
    }

    /// Returns `true` if this is the sentinel "no badge".
    #[verifier::when_used_as_spec(is_none_spec)]
    pub fn is_none(self) -> (r: bool)
        ensures
            r == self.is_none_spec(),
    {
        self.0 == 0
    }

    /// The text of the badge, `Badge(n)` with `n` the raw value in decimal.
    pub fn to_string(&self) -> (t: String)
        ensures
            t@ == badge_text(self.raw()),
    {
        let mut t = String::new();
        push_chars(&mut t, &['B', 'a', 'd', 'g', 'e', '(']);
        push_numeral(&mut t, self.0, 10);
        push_chars(&mut t, &[')']);
        assert(t@ =~= badge_text(self.0));
        t
    }

    /// Two badges are the same badge exactly when their raw values agree.
    pub proof fn lemma_raw_determines(self, other: Badge)
        ensures
            (self.raw() == other.raw()) <==> (self == other),
    {
    }
}

} // verus!
