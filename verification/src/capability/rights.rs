//! Capability rights — a set of bits that controls what a holder may do.

use vstd::prelude::*;

use crate::text::{hex, push_chars, push_numeral};

verus! {

/// Bit of [`Rights::READ`].
pub const READ_BIT: u32 = 0b0000_0001;

/// Bit of [`Rights::WRITE`].
pub const WRITE_BIT: u32 = 0b0000_0010;

/// Bit of [`Rights::GRANT`].
pub const GRANT_BIT: u32 = 0b0000_0100;

/// Bit of [`Rights::GRANT_REPLY`].
pub const GRANT_REPLY_BIT: u32 = 0b0000_1000;

/// Bit of [`Rights::REVOKE`].
pub const REVOKE_BIT: u32 = 0b0001_0000;

/// All defined rights bits together.
pub const ALL_BITS: u32 = 0b0001_1111;

/// The rights associated with a capability.
///
/// Rights are stored inside [`crate::capability::Cap`] and a derived
/// capability's rights are always a *subset* of its parent's rights.
/// The field holds the raw bit set.
#[derive(Debug, Clone, Copy, PartialEq, Eq, Hash, Structural)]
pub struct Rights(pub u32);

/// `acc` followed by `name` if `set`, with ` | ` between the two when
/// `acc` is not empty.
pub open spec fn join_flag(acc: Seq<char>, set: bool, name: Seq<char>) -> Seq<char> {
    if !set {
        acc
    } else if acc.len() == 0 {
        name
    } else {
        acc + seq![' ', '|', ' '] + name
    }
}

/// The names of the rights set in `bits`, in declaration order and
/// separated by ` | `.
pub open spec fn flag_names(bits: u32) -> Seq<char> {
    let a = join_flag(seq![], bits & READ_BIT != 0, seq!['R', 'E', 'A', 'D']);
    let b = join_flag(a, bits & WRITE_BIT != 0, seq!['W', 'R', 'I', 'T', 'E']);
    let c = join_flag(b, bits & GRANT_BIT != 0, seq!['G', 'R', 'A', 'N', 'T']);
    let d = join_flag(
        c,
        bits & GRANT_REPLY_BIT != 0,
        seq!['G', 'R', 'A', 'N', 'T', '_', 'R', 'E', 'P', 'L', 'Y'],
    );
    join_flag(d, bits & REVOKE_BIT != 0, seq!['R', 'E', 'V', 'O', 'K', 'E'])
}

/// The text of a rights set: `0x0` when empty; otherwise the names of the
/// rights it holds, followed by `0x` and the hexadecimal value of any bits
/// that name no right.
pub open spec fn flags_text(bits: u32) -> Seq<char> {
    if bits == 0 {
        seq!['0', 'x', '0']
    } else if bits & !ALL_BITS == 0 {
        flag_names(bits)
    } else {
        join_flag(flag_names(bits), true, seq!['0', 'x'] + hex((bits & !ALL_BITS) as nat))
    }
}

/// Append `name` to `s` if `set`, after ` | ` when something (`acc`) has
/// been written already.
fn push_flag(
    s: &mut String,
    any: bool,
    set: bool,
    name: &[char],
    Ghost(head): Ghost<Seq<char>>,
    Ghost(acc): Ghost<Seq<char>>,
) -> (written: bool)
    requires
        any == (acc.len() > 0),
        name@.len() > 0,
        old(s)@ == head + acc,
    ensures
        final(s)@ == head + join_flag(acc, set, name@),
        written == (join_flag(acc, set, name@).len() > 0),
{
    if set {
        if any {
            push_chars(s, &[' ', '|', ' ']);
        }
        push_chars(s, name);
    }
    assert(s@ =~= head + join_flag(acc, set, name@));
    any || set
}

impl Rights {
    /// Holder may read from / receive on the underlying object.
    #[allow(non_snake_case)]
    #[verifier::allow_in_spec]
    pub fn READ() -> Rights
        returns
            Rights(READ_BIT),
    {
        Rights(READ_BIT)
    }

    /// Holder may write to / send on the underlying object.
    #[allow(non_snake_case)]
    #[verifier::allow_in_spec]
    pub fn WRITE() -> Rights
        returns
            Rights(WRITE_BIT),
    {
        Rights(WRITE_BIT)
    }

    /// Holder may grant (delegate) this capability to others.
    #[allow(non_snake_case)]
    #[verifier::allow_in_spec]
    pub fn GRANT() -> Rights
        returns
            Rights(GRANT_BIT),
    {
        Rights(GRANT_BIT)
    }

    /// Holder may grant a *copy* (mint) to others.
    #[allow(non_snake_case)]
    #[verifier::allow_in_spec]
    pub fn GRANT_REPLY() -> Rights
        returns
            Rights(GRANT_REPLY_BIT),
    {
        Rights(GRANT_REPLY_BIT)
    }

    /// Holder may revoke derived capabilities.
    #[allow(non_snake_case)]
    #[verifier::allow_in_spec]
    pub fn REVOKE() -> Rights
        returns
            Rights(REVOKE_BIT),
    {
        Rights(REVOKE_BIT)
    }

    /// Full rights shorthand: every defined right.
    #[allow(non_snake_case)]
    #[verifier::allow_in_spec]
    pub fn ALL() -> Rights
        returns
            Rights(ALL_BITS),
    {
        Rights(ALL_BITS)
    }

    /// The empty set of rights.
    #[verifier::allow_in_spec]
    pub fn empty() -> Rights
        returns
            Rights(0),
    {
        Rights(0)
    }

    /// The set of all defined rights (same as [`Rights::ALL`]).
    #[verifier::allow_in_spec]
    pub fn all() -> Rights
        returns
            Rights(ALL_BITS),
    {
        Rights(ALL_BITS)
    }

    /// The raw bit value.
    #[verifier::allow_in_spec]
    pub fn bits(self) -> u32
        returns
            self.0,
    {
        self.0
    }

    /// Build a rights set from raw bits, dropping bits that name no right.
    #[verifier::allow_in_spec]
    pub fn from_bits_truncate(bits: u32) -> Rights
        returns
            Rights(bits & ALL_BITS),
    {
        Rights(bits & ALL_BITS)
    }

    /// Returns `true` when no right is set.
    #[verifier::allow_in_spec]
    pub fn is_empty(self) -> bool
        returns
            self.0 == 0,
    {
        self.0 == 0
    }

    /// Returns `true` when every right of `other` is also in `self`.
    #[verifier::allow_in_spec]
    pub fn contains(self, other: Rights) -> bool
        returns
            self.0 & other.0 == other.0,
    {
        self.0 & other.0 == other.0
    }

    /// Returns `true` when `self` and `other` share a right.
    #[verifier::allow_in_spec]
    pub fn intersects(self, other: Rights) -> bool
        returns
            self.0 & other.0 != 0,
    {
        self.0 & other.0 != 0
    }

    /// The rights in `self` or in `other`.
    #[verifier::allow_in_spec]
    pub fn union(self, other: Rights) -> Rights
        returns
            Rights(self.0 | other.0),
    {
        Rights(self.0 | other.0)
    }

    /// The rights in both `self` and `other`.
    #[verifier::allow_in_spec]
    pub fn intersection(self, other: Rights) -> Rights
        returns
            Rights(self.0 & other.0),
    {
        Rights(self.0 & other.0)
    }

    /// The rights in `self` but not in `other`.
    #[verifier::allow_in_spec]
    pub fn difference(self, other: Rights) -> Rights
        returns
            Rights(self.0 & !other.0),
    {
        Rights(self.0 & !other.0)
    }

    /// Add the rights of `other` to `self`.
    pub fn insert(&mut self, other: Rights)
        ensures
            *final(self) == Rights(old(self).0 | other.0),
    {
        self.0 = self.0 | other.0;
    }

    /// Take the rights of `other` out of `self`.
    pub fn remove(&mut self, other: Rights)
        ensures
            *final(self) == Rights(old(self).0 & !other.0),
    {
        self.0 = self.0 & !other.0;
    }

    /// Returns `true` when `self` is a (non-strict) subset of `parent`.
    ///
    /// Used to enforce the *rights-subset* invariant during capability
    /// derivation.
    #[verifier::allow_in_spec]
    pub fn is_subset_of(self, parent: Rights) -> bool
        returns
            self.0 & parent.0 == self.0,
    {
        (self & parent) == self
    }
}

/// Append the names of the rights set in `bits` to `s`; returns whether
/// any name was written.
fn push_flag_names(s: &mut String, bits: u32, Ghost(head): Ghost<Seq<char>>) -> (any: bool)
    requires
        old(s)@ == head,
    ensures
        final(s)@ == head + flag_names(bits),
        any == (flag_names(bits).len() > 0),
{
    let ghost s0: Seq<char> = seq![];
    assert(s@ =~= head + s0);
    let a = push_flag(s, false, bits & READ_BIT != 0, &['R', 'E', 'A', 'D'], Ghost(head), Ghost(s0));
    let ghost s1 = join_flag(s0, bits & READ_BIT != 0, seq!['R', 'E', 'A', 'D']);
    let b = push_flag(s, a, bits & WRITE_BIT != 0, &['W', 'R', 'I', 'T', 'E'], Ghost(head), Ghost(s1));
    let ghost s2 = join_flag(s1, bits & WRITE_BIT != 0, seq!['W', 'R', 'I', 'T', 'E']);
    let c = push_flag(s, b, bits & GRANT_BIT != 0, &['G', 'R', 'A', 'N', 'T'], Ghost(head), Ghost(s2));
    let ghost s3 = join_flag(s2, bits & GRANT_BIT != 0, seq!['G', 'R', 'A', 'N', 'T']);
    let d = push_flag(
        s,
        c,
        bits & GRANT_REPLY_BIT != 0,
        &['G', 'R', 'A', 'N', 'T', '_', 'R', 'E', 'P', 'L', 'Y'],
        Ghost(head),
        Ghost(s3),
    );
    let ghost s4 = join_flag(
        s3,
        bits & GRANT_REPLY_BIT != 0,
        seq!['G', 'R', 'A', 'N', 'T', '_', 'R', 'E', 'P', 'L', 'Y'],
    );
    let e = push_flag(s, d, bits & REVOKE_BIT != 0, &['R', 'E', 'V', 'O', 'K', 'E'], Ghost(head), Ghost(s4));
    let ghost s5 = join_flag(s4, bits & REVOKE_BIT != 0, seq!['R', 'E', 'V', 'O', 'K', 'E']);
    assert(s5 == flag_names(bits));
    e
}

impl Rights {
    /// The debug text of the rights set: `Rights(` + [`flags_text`] + `)`,
    /// e.g. `Rights(READ | WRITE)`.
    pub fn debug_text(self) -> (t: String)
        ensures
            t@ == seq!['R', 'i', 'g', 'h', 't', 's', '('] + flags_text(self.0) + seq![')'],
    {
        let bits = self.0;
        let mut t = String::new();
        push_chars(&mut t, &['R', 'i', 'g', 'h', 't', 's', '(']);
        let ghost head = t@;
        if bits == 0 {
            push_chars(&mut t, &['0', 'x', '0']);
        } else {
            let e = push_flag_names(&mut t, bits, Ghost(head));
            let ghost s5 = flag_names(bits);
            let rest = bits & !ALL_BITS;
            if rest != 0 {
                if e {
                    push_chars(&mut t, &[' ', '|', ' ']);
                }
                push_chars(&mut t, &['0', 'x']);
                push_numeral(&mut t, rest as u64, 16);
                assert(t@ =~= head + join_flag(s5, true, seq!['0', 'x'] + hex(rest as nat)));
            }
            assert(t@ =~= head + flags_text(bits));
        }
        push_chars(&mut t, &[')']);
        assert(t@ =~= seq!['R', 'i', 'g', 'h', 't', 's', '('] + flags_text(bits) + seq![')']);
        t
    }
}

impl core::ops::BitOr for Rights {
    type Output = Rights;

    /// The union of two rights sets.
    fn bitor(self, rhs: Rights) -> (r: Rights)
        ensures
            r == Rights(self.0 | rhs.0),
    {
        Rights(self.0 | rhs.0)
    }
}

impl vstd::std_specs::ops::BitOrSpecImpl for Rights {
    open spec fn obeys_bitor_spec() -> bool {
        true
    }

    open spec fn bitor_req(self, rhs: Rights) -> bool {
        true
    }

    open spec fn bitor_spec(self, rhs: Rights) -> Rights {
        Rights(self.0 | rhs.0)
    }
}

impl core::ops::BitAnd for Rights {
    type Output = Rights;

    /// The intersection of two rights sets.
    fn bitand(self, rhs: Rights) -> (r: Rights)
        ensures
            r == Rights(self.0 & rhs.0),
    {
        Rights(self.0 & rhs.0)
    }
}

impl vstd::std_specs::ops::BitAndSpecImpl for Rights {
    open spec fn obeys_bitand_spec() -> bool {
        true
    }

    open spec fn bitand_req(self, rhs: Rights) -> bool {
        true
    }

    open spec fn bitand_spec(self, rhs: Rights) -> Rights {
        Rights(self.0 & rhs.0)
    }
}

impl Default for Rights {
    /// The default rights set is full rights.
    fn default() -> (r: Rights)
        ensures
            r == Rights::ALL(),
    {
        Rights::ALL()
    }
}

/// Every rights set is a subset of itself.
pub proof fn lemma_subset_reflexive(r: Rights)
    ensures
        r.is_subset_of(r),
{
    let a = r.0;
    assert(a & a == a) by (bit_vector);
}

/// The subset relation is transitive: a right that `a` holds is held by `b`,
/// hence by `c`.
pub proof fn lemma_subset_transitive(a: Rights, b: Rights, c: Rights)
    requires
        a.is_subset_of(b),
        b.is_subset_of(c),
    ensures
        a.is_subset_of(c),
{
    let (x, y, z) = (a.0, b.0, c.0);
    assert(x & y == x && y & z == y ==> x & z == x) by (bit_vector);
}

/// `a` is a subset of `b` exactly when `b` contains `a`.
pub proof fn lemma_subset_iff_contains(a: Rights, b: Rights)
    ensures
        a.is_subset_of(b) <==> b.contains(a),
{
    let (x, y) = (a.0, b.0);
    assert((x & y == x) <==> (y & x == x)) by (bit_vector);
}

/// The empty rights set is a subset of every rights set.
pub proof fn lemma_empty_is_subset(r: Rights)
    ensures
        Rights::empty().is_subset_of(r),
{
    let a = r.0;
    assert(0u32 & a == 0u32) by (bit_vector);
}

/// [`Rights::ALL`] holds every named right and is their union.
pub proof fn lemma_all_holds_every_right()
    ensures
        Rights::ALL().contains(Rights::READ()),
        Rights::ALL().contains(Rights::WRITE()),
        Rights::ALL().contains(Rights::GRANT()),
        Rights::ALL().contains(Rights::GRANT_REPLY()),
        Rights::ALL().contains(Rights::REVOKE()),
        Rights::ALL() == Rights(
            READ_BIT | WRITE_BIT | GRANT_BIT | GRANT_REPLY_BIT | REVOKE_BIT,
        ),
{
    assert(31u32 & 1u32 == 1u32) by (bit_vector);
    assert(31u32 & 2u32 == 2u32) by (bit_vector);
    assert(31u32 & 4u32 == 4u32) by (bit_vector);
    assert(31u32 & 8u32 == 8u32) by (bit_vector);
    assert(31u32 & 16u32 == 16u32) by (bit_vector);
    assert(1u32 | 2u32 | 4u32 | 8u32 | 16u32 == 31u32) by (bit_vector);
}

/// Taking rights out leaves none of them behind, and keeps the result a
/// subset of the original set.
pub proof fn lemma_difference_excludes(a: Rights, b: Rights)
    ensures
        !a.difference(b).intersects(b),
        a.difference(b).is_subset_of(a),
{
    let (x, y) = (a.0, b.0);
    assert((x & !y) & y == 0 && (x & !y) & x == (x & !y)) by (bit_vector);
}

/// The union of two rights sets (the result of `a | b`) contains each of them.
pub proof fn lemma_union_contains_operands(a: Rights, b: Rights)
    ensures
        Rights(a.0 | b.0).contains(a),
        Rights(a.0 | b.0).contains(b),
{
    let (x, y) = (a.0, b.0);
    assert((x | y) & x == x && (x | y) & y == y) by (bit_vector);
}

} // verus!
