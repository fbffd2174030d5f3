//! CNode — capability node (table of capability slots).
//!
//! A `CNode` holds `Cap<T>` values in a fixed number of slots.
//! `BadgeAllocator` hands out monotonically increasing badge IDs so that a
//! badge is not reused while the counter has not wrapped.

use vstd::prelude::*;

use crate::capability::badge::Badge;
use crate::capability::cap::{derive_error, Cap, CapObject};
use crate::capability::error::CapError;
use crate::capability::rights::Rights;

verus! {

/// A single slot in a [`CNode`], holding at most one capability.
pub struct CapSlot<T: CapObject> {
    cap: Option<Cap<T>>,
}

impl<T: CapObject> View for CapSlot<T> {
    type V = Option<Cap<T>>;

    /// The capability held by the slot, if any.
    closed spec fn view(&self) -> Option<Cap<T>> {
        self.cap
    }
}

impl<T: CapObject> CapSlot<T> {
    /// Create an empty slot.
    pub fn empty() -> (s: Self)
        ensures
            s@ is None,
    {
        CapSlot { cap: None }
    }

    /// Returns `true` when the slot holds a capability.
    pub fn is_occupied(&self) -> (b: bool)
        ensures
            b == self@ is Some,
    {
        self.cap.is_some()
    }

    /// Insert `cap` into this slot.
    ///
    /// # Errors
    /// [`CapError::SlotOccupied`] if the slot already holds a capability; the
    /// slot is then unchanged and `cap` is dropped.
    pub fn insert(&mut self, cap: Cap<T>) -> (r: Result<(), CapError>)
        ensures
            match r {
                Ok(()) => old(self)@ is None && final(self)@ == Some(cap),
                Err(e) => old(self)@ is Some && e == CapError::SlotOccupied && final(self)@
                    == old(self)@,
            },
    {
        if self.cap.is_some() {
            return Err(CapError::SlotOccupied);
        }
        self.cap = Some(cap);
        Ok(())
    }

    /// Remove and return the capability from this slot.
    ///
    /// # Errors
    /// [`CapError::SlotEmpty`] if the slot is empty.
    pub fn remove(&mut self) -> (r: Result<Cap<T>, CapError>)
        ensures
            final(self)@ is None,
            match r {
                Ok(c) => old(self)@ == Some(c),
                Err(e) => old(self)@ is None && e == CapError::SlotEmpty,
            },
    {
        match self.cap.take() {
            Some(c) => Ok(c),
            None => Err(CapError::SlotEmpty),
        }
    }

    /// Borrow the capability immutably.
    ///
    /// # Errors
    /// [`CapError::SlotEmpty`] if the slot is empty.
    pub fn borrow(&self) -> (r: Result<&Cap<T>, CapError>)
        ensures
            match r {
                Ok(c) => self@ == Some(*c),
                Err(e) => self@ is None && e == CapError::SlotEmpty,
            },
    {
        match &self.cap {
            Some(c) => Ok(c),
            None => Err(CapError::SlotEmpty),
        }
    }

    /// Borrow the capability mutably.
    ///
    /// # Errors
    /// [`CapError::SlotEmpty`] if the slot is empty.
    pub fn borrow_mut(&mut self) -> (r: Result<&mut Cap<T>, CapError>)
        ensures
            match r {
                Ok(c) => old(self)@ == Some(*c) && final(self)@ == Some(*final(c)),
                Err(e) => old(self)@ is None && e == CapError::SlotEmpty && final(self)@
                    == old(self)@,
            },
    {
        match &mut self.cap {
            Some(c) => Ok(c),
            None => Err(CapError::SlotEmpty),
        }
    }
}

impl<T: CapObject> Drop for CapSlot<T> {
    /// Dropping a slot revokes any capability it holds (through the
    /// capability's own drop).
    fn drop(&mut self)
        opens_invariants none
        no_unwind
    {
    }
}

// ──────────────────────────────────────────────────────────────────────────────
// CNode — fixed-size capability table
// ──────────────────────────────────────────────────────────────────────────────

/// The number of occupied slots in a table of slots.
pub open spec fn count_occupied<T: CapObject>(s: Seq<Option<Cap<T>>>) -> nat
    decreases s.len(),
{
    if s.len() == 0 {
        0
    } else {
        count_occupied(s.drop_last()) + if s.last() is Some {
            1nat
        } else {
            0nat
        }
    }
}

/// What looking up (or removing from) slot `index` of the table `s` yields.
pub open spec fn slot_lookup<T: CapObject>(s: Seq<Option<Cap<T>>>, index: int) -> Result<
    Cap<T>,
    CapError,
> {
    if !(0 <= index < s.len()) {
        Err(CapError::SlotOutOfRange)
    } else {
        match s[index] {
            Some(c) => Ok(c),
            None => Err(CapError::SlotEmpty),
        }
    }
}

/// The error, if any, that inserting into slot `index` of the table `s`
/// fails with.
pub open spec fn insert_error<T: CapObject>(s: Seq<Option<Cap<T>>>, index: int) -> Option<CapError> {
    if !(0 <= index < s.len()) {
        Some(CapError::SlotOutOfRange)
    } else if s[index] is Some {
        Some(CapError::SlotOccupied)
    } else {
        None
    }
}

/// Insertion into slot `i` fails exactly when `i` is out of range
/// (`SlotOutOfRange`) or the slot already holds a capability
/// (`SlotOccupied`); into an empty slot in range it always succeeds.
pub proof fn lemma_insert_error_cases<T: CapObject>(s: Seq<Option<Cap<T>>>, i: int)
    ensures
        !(0 <= i < s.len()) ==> insert_error(s, i) == Some(CapError::SlotOutOfRange),
        0 <= i < s.len() && s[i] is Some ==> insert_error(s, i) == Some(CapError::SlotOccupied),
        0 <= i < s.len() && s[i] is None ==> insert_error(s, i) is None,
{
}

/// Looking up slot `i` yields the capability it holds; it fails exactly
/// when `i` is out of range (`SlotOutOfRange`) or the slot is empty
/// (`SlotEmpty`).
pub proof fn lemma_slot_lookup_cases<T: CapObject>(s: Seq<Option<Cap<T>>>, i: int)
    ensures
        !(0 <= i < s.len()) ==> slot_lookup(s, i) == Err::<Cap<T>, CapError>(
            CapError::SlotOutOfRange,
        ),
        0 <= i < s.len() && s[i] is None ==> slot_lookup(s, i) == Err::<Cap<T>, CapError>(
            CapError::SlotEmpty,
        ),
        0 <= i < s.len() && s[i] is Some ==> slot_lookup(s, i) == Ok::<Cap<T>, CapError>(
            s[i]->Some_0,
        ),
{
}

/// The occupied count is the number of slots that hold a capability.
pub proof fn lemma_count_is_occupied_slots<T: CapObject>(s: Seq<Option<Cap<T>>>)
    ensures
        count_occupied(s) == s.filter(|o: Option<Cap<T>>| o is Some).len(),
    decreases s.len(),
{
    reveal_with_fuel(Seq::filter, 1);
    if s.len() > 0 {
        lemma_count_is_occupied_slots(s.drop_last());
    }
}

/// Replacing one slot changes the occupied count by the difference between
/// the new and the old slot's occupancy.
pub proof fn lemma_count_update<T: CapObject>(s: Seq<Option<Cap<T>>>, i: int, v: Option<Cap<T>>)
    requires
        0 <= i < s.len(),
    ensures
        count_occupied(s.update(i, v)) + (if s[i] is Some {
            1int
        } else {
            0int
        }) == count_occupied(s) + (if v is Some {
            1int
        } else {
            0int
        }),
    decreases s.len(),
{
    let t = s.update(i, v);
    if i == s.len() - 1 {
        assert(t.drop_last() =~= s.drop_last());
    } else {
        lemma_count_update(s.drop_last(), i, v);
        assert(t.drop_last() =~= s.drop_last().update(i, v));
    }
}

/// The occupied count never exceeds the number of slots.
pub proof fn lemma_count_bounded<T: CapObject>(s: Seq<Option<Cap<T>>>)
    ensures
        count_occupied(s) <= s.len(),
    decreases s.len(),
{
    if s.len() > 0 {
        lemma_count_bounded(s.drop_last());
    }
}

/// A capability node: a fixed-size table of `N` capability slots.
///
/// * `T` — the kernel object type stored in every slot of this CNode.
/// * `N` — the number of slots.
pub struct CNode<T: CapObject, const N: usize> {
    slots: Vec<CapSlot<T>>,
}

/// The capabilities held by a sequence of slots.
pub open spec fn slots_view<T: CapObject>(slots: Seq<CapSlot<T>>) -> Seq<Option<Cap<T>>> {
    slots.map_values(|s: CapSlot<T>| s@)
}

/// Every capability in the table is well formed.
pub open spec fn caps_wf<T: CapObject>(s: Seq<Option<Cap<T>>>) -> bool {
    forall|i: int| 0 <= i < s.len() && (#[trigger] s[i]) is Some ==> s[i]->Some_0.wf()
}

/// Replacing one slot replaces the corresponding entry of the view.
pub broadcast proof fn lemma_slots_view_update<T: CapObject>(
    slots: Seq<CapSlot<T>>,
    i: int,
    x: CapSlot<T>,
)
    requires
        0 <= i < slots.len(),
    ensures
        #[trigger] slots_view(slots.update(i, x)) == slots_view(slots).update(i, x@),
{
    assert(slots_view(slots.update(i, x)) =~= slots_view(slots).update(i, x@));
}

/// In a table of well-formed capabilities, replacing one slot keeps the
/// table well formed exactly when the new entry is.
pub broadcast proof fn lemma_caps_wf_update<T: CapObject>(
    s: Seq<Option<Cap<T>>>,
    i: int,
    v: Option<Cap<T>>,
)
    requires
        0 <= i < s.len(),
        caps_wf(s),
    ensures
        #[trigger] caps_wf(s.update(i, v)) <==> (v is Some ==> v->Some_0.wf()),
{
    if caps_wf(s.update(i, v)) {
        assert(s.update(i, v)[i] == v);
    }
}

impl<T: CapObject, const N: usize> View for CNode<T, N> {
    type V = Seq<Option<Cap<T>>>;

    /// The table: for each slot, the capability it holds, if any.
    closed spec fn view(&self) -> Seq<Option<Cap<T>>> {
        slots_view(self.slots@)
    }
}

impl<T: CapObject, const N: usize> CNode<T, N> {
    /// A CNode is well formed when it has exactly `N` slots and every
    /// capability it holds is well formed.
    pub closed spec fn wf(&self) -> bool {
        &&& self.slots@.len() == N
        &&& caps_wf(self@)
    }

    /// The view of a well-formed CNode has `N` slots, each holding a
    /// well-formed capability if any.
    pub proof fn lemma_wf_view(&self)
        requires
            self.wf(),
        ensures
            self@.len() == N,
            forall|i: int| 0 <= i < N && (#[trigger] self@[i]) is Some ==> self@[i]->Some_0.wf(),
    {
    }

    /// The number of occupied slots.
    pub open spec fn spec_occupied_count(&self) -> nat {
        count_occupied(self@)
    }

    /// Create a CNode with all `N` slots empty.
    pub fn new() -> (c: Self)
        ensures
            c.wf(),
            c@ == Seq::new(N as nat, |i: int| None::<Cap<T>>),
            c.spec_occupied_count() == 0,
    {
        let mut slots: Vec<CapSlot<T>> = Vec::new();
        let mut i: usize = 0;
        while i < N
            invariant
                i <= N,
                slots@.len() == i,
                forall|j: int| 0 <= j < i ==> (#[trigger] slots@[j])@ is None,
            decreases N - i,
        {
            slots.push(CapSlot::empty());
            i = i + 1;
        }
        let c = CNode { slots };
        assert(c@ =~= Seq::new(N as nat, |i: int| None::<Cap<T>>));
        proof {
            lemma_count_none::<T>(N as nat);
        }
        c
    }

    /// Number of slots in this CNode.
    pub fn capacity(&self) -> (n: usize)
        ensures
            n == N,
    {
        N
    }

    fn slot_mut(&mut self, index: usize) -> (r: Result<&mut CapSlot<T>, CapError>)
        requires
            old(self).wf(),
        ensures
            match r {
                Ok(s) => {
                    &&& index < N
                    &&& *s == old(self).slots@[index as int]
                    &&& s@ == old(self)@[index as int]
                    &&& final(self).slots@.len() == N
                    &&& final(self)@ == old(self)@.update(index as int, final(s)@)
                },
                Err(e) => index >= N && e == CapError::SlotOutOfRange && *final(self) == *old(
                    self,
                ),
            },
    {
        broadcast use lemma_slots_view_update;
        if index < self.slots.len() {
            Ok(&mut self.slots[index])
        } else {
            Err(CapError::SlotOutOfRange)
        }
    }

    /// Insert `cap` into slot `index`.
    ///
    /// # Errors
    /// * [`CapError::SlotOutOfRange`] — `index >= N`.
    /// * [`CapError::SlotOccupied`]   — slot already holds a capability.
    ///
    /// On error the table is unchanged and `cap` is dropped.
    pub fn insert(&mut self, index: usize, cap: Cap<T>) -> (r: Result<(), CapError>)
        requires
            old(self).wf(),
            cap.wf(),
        ensures
            final(self).wf(),
            match insert_error(old(self)@, index as int) {
                None => r is Ok && final(self)@ == old(self)@.update(index as int, Some(cap)),
                Some(e) => r == Err::<(), CapError>(e) && final(self)@ == old(self)@,
            },
            index >= N ==> r == Err::<(), CapError>(CapError::SlotOutOfRange),
            index < N && old(self)@[index as int] is Some ==> r == Err::<(), CapError>(
                CapError::SlotOccupied,
            ),
            index < N && old(self)@[index as int] is None ==> r is Ok && final(self)@[index as int]
                == Some(cap),
            r is Ok ==> final(self).spec_occupied_count() == old(self).spec_occupied_count() + 1,
    {
        let ghost old_view = self@;
        let slot = self.slot_mut(index)?;
        let r = slot.insert(cap);
        proof {
            if r is Ok {
                lemma_count_update(old_view, index as int, Some(cap));
            }
        }
        assert(self@ =~= if r is Ok { old_view.update(index as int, Some(cap)) } else { old_view });
        r
    }

    /// Remove and return the capability at slot `index`.
    ///
    /// # Errors
    /// * [`CapError::SlotOutOfRange`] — `index >= N`.
    /// * [`CapError::SlotEmpty`]      — slot is empty.
    pub fn remove(&mut self, index: usize) -> (r: Result<Cap<T>, CapError>)
        requires
            old(self).wf(),
        ensures
            final(self).wf(),
            r == slot_lookup(old(self)@, index as int),
            index >= N ==> r == Err::<Cap<T>, CapError>(CapError::SlotOutOfRange),
            index < N && old(self)@[index as int] is None ==> r == Err::<Cap<T>, CapError>(
                CapError::SlotEmpty,
            ),
            index < N && old(self)@[index as int] is Some ==> r == Ok::<Cap<T>, CapError>(
                old(self)@[index as int]->Some_0,
            ),
            r is Ok ==> r->Ok_0.wf(),
            final(self)@ == if index < N {
                old(self)@.update(index as int, None)
            } else {
                old(self)@
            },
            r is Ok ==> final(self).spec_occupied_count() + 1 == old(self).spec_occupied_count(),
    {
        let ghost old_view = self@;
        let slot = self.slot_mut(index)?;
        let r = slot.remove();
        proof {
            lemma_count_update(old_view, index as int, None);
        }
        assert(self@ =~= old_view.update(index as int, None));
        r
    }

    /// Borrow the capability at slot `index` immutably.
    ///
    /// # Errors
    /// * [`CapError::SlotOutOfRange`] — `index >= N`.
    /// * [`CapError::SlotEmpty`]      — slot is empty.
    pub fn borrow(&self, index: usize) -> (r: Result<&Cap<T>, CapError>)
        requires
            self.wf(),
        ensures
            match r {
                Ok(c) => slot_lookup(self@, index as int) == Ok::<Cap<T>, CapError>(*c) && c.wf(),
                Err(e) => slot_lookup(self@, index as int) == Err::<Cap<T>, CapError>(e),
            },
            index >= N ==> r == Err::<&Cap<T>, CapError>(CapError::SlotOutOfRange),
            index < N && self@[index as int] is None ==> r == Err::<&Cap<T>, CapError>(
                CapError::SlotEmpty,
            ),
            index < N && self@[index as int] is Some ==> r is Ok && *r->Ok_0 == self@[index as int]->Some_0,
    {
        if index < self.slots.len() {
            self.slots[index].borrow()
        } else {
            Err(CapError::SlotOutOfRange)
        }
    }

    /// Borrow the capability at slot `index` mutably.
    ///
    /// # Errors
    /// * [`CapError::SlotOutOfRange`] — `index >= N`.
    /// * [`CapError::SlotEmpty`]      — slot is empty.
    pub fn borrow_mut(&mut self, index: usize) -> (r: Result<&mut Cap<T>, CapError>)
        requires
            old(self).wf(),
        ensures
            match r {
                Ok(c) => {
                    &&& slot_lookup(old(self)@, index as int) == Ok::<Cap<T>, CapError>(*c)
                    &&& c.wf()
                    &&& final(self)@ == old(self)@.update(index as int, Some(*final(c)))
                    &&& final(self).wf() == final(c).wf()
                },
                Err(e) => {
                    &&& slot_lookup(old(self)@, index as int) == Err::<Cap<T>, CapError>(e)
                    &&& final(self)@ == old(self)@
                    &&& final(self).wf()
                },
            },
    {
        broadcast use lemma_caps_wf_update;
        let slot = self.slot_mut(index)?;
        let r = slot.borrow_mut();
        r
    }

    /// Return the number of occupied slots.
    pub fn occupied_count(&self) -> (n: usize)
        requires
            self.wf(),
        ensures
            n == self.spec_occupied_count(),
            n <= N,
    {
        let mut count: usize = 0;
        let mut i: usize = 0;
        while i < self.slots.len()
            invariant
                self.wf(),
                i <= self.slots@.len(),
                count == count_occupied(self@.take(i as int)),
                count <= i,
            decreases self.slots@.len() - i,
        {
            assert(self@.take(i + 1).drop_last() =~= self@.take(i as int));
            if self.slots[i].is_occupied() {
                count = count + 1;
            }
            i = i + 1;
        }
        assert(self@.take(i as int) =~= self@);
        count
    }
}

/// A table of `n` empty slots has no occupied slot.
pub proof fn lemma_count_none<T: CapObject>(n: nat)
    ensures
        count_occupied(Seq::new(n, |i: int| None::<Cap<T>>)) == 0,
    decreases n,
{
    if n > 0 {
        lemma_count_none::<T>((n - 1) as nat);
        assert(Seq::new(n, |i: int| None::<Cap<T>>).drop_last() =~= Seq::new(
            (n - 1) as nat,
            |i: int| None::<Cap<T>>,
        ));
    }
}

/// Read after write: looking up (or removing from) a slot right after a
/// successful insertion into it yields the inserted capability, and removing
/// it again restores the table and its occupied count.
pub proof fn lemma_insert_then_remove<T: CapObject>(s: Seq<Option<Cap<T>>>, i: int, cap: Cap<T>)
    requires
        insert_error(s, i) is None,
    ensures
        slot_lookup(s.update(i, Some(cap)), i) == Ok::<Cap<T>, CapError>(cap),
        s.update(i, Some(cap)).update(i, None) == s,
        count_occupied(s.update(i, Some(cap))) == count_occupied(s) + 1,
{
    assert(s.update(i, Some(cap)).update(i, None) =~= s);
    lemma_count_update(s, i, Some(cap));
}

/// Inserting into one slot leaves every other slot as it was.
pub proof fn lemma_insert_frames_other_slots<T: CapObject>(
    s: Seq<Option<Cap<T>>>,
    i: int,
    j: int,
    cap: Cap<T>,
)
    requires
        insert_error(s, i) is None,
        i != j,
    ensures
        slot_lookup(s.update(i, Some(cap)), j) == slot_lookup(s, j),
{
}

impl<T: CapObject, const N: usize> Default for CNode<T, N> {
    /// An empty CNode.
    fn default() -> (c: Self)
        ensures
            c.wf(),
            c@ == Seq::new(N as nat, |i: int| None::<Cap<T>>),
    {
        Self::new()
    }
}

// ──────────────────────────────────────────────────────────────────────────────
// Badge allocator
// ──────────────────────────────────────────────────────────────────────────────

/// The counter value that follows `n`.  After `u64::MAX` it reaches `0`,
/// which marks an exhausted allocator.
pub open spec fn next_counter(n: u64) -> u64 {
    if n == u64::MAX {
        0
    } else {
        (n + 1) as u64
    }
}

/// The raw value of the `k`-th badge (counting from zero) that an allocator
/// whose counter stands at `start` hands out.
pub open spec fn nth_allocated(start: u64, k: nat) -> u64
    decreases k,
{
    if k == 0 {
        start
    } else {
        nth_allocated(next_counter(start), (k - 1) as nat)
    }
}

/// A monotonically-increasing badge allocator.
///
/// Each allocated badge is unique within the lifetime of a running kernel
/// instance: the allocator hands out `1, 2, ..., u64::MAX` and is then
/// exhausted; allocating from an exhausted allocator is not allowed (it
/// would reuse a badge).  Badge `0` is reserved as [`Badge::NONE`] and is
/// never handed out.
pub struct BadgeAllocator {
    next: u64,
}

impl BadgeAllocator {
    /// The raw value of the next badge to be allocated.
    pub closed spec fn spec_next(&self) -> u64 {
        self.next
    }

    /// Create a new allocator.  The first allocated badge will be `1`.
    pub fn new() -> (a: Self)
        ensures
            a.spec_next() == 1,
    {
        BadgeAllocator { next: 1 }
    }

    /// Returns `true` once all 2^64 - 1 badges have been handed out.
    pub fn is_exhausted(&self) -> (e: bool)
        ensures
            e == (self.spec_next() == 0),
    {
        self.next == 0
    }

    /// Allocate the next unique badge; the allocator is not exhausted.
    ///
    /// Handing out badge `u64::MAX` exhausts the allocator.
    pub fn allocate(&mut self) -> (b: Badge)
        requires
            old(self).spec_next() != 0,
        ensures
            !b.is_none(),
            b.raw() == old(self).spec_next(),
            final(self).spec_next() == next_counter(old(self).spec_next()),
            old(self).spec_next() < u64::MAX ==> final(self).spec_next() == old(self).spec_next() + 1,
            old(self).spec_next() == u64::MAX ==> final(self).spec_next() == 0,
    {
        let b = Badge::new(self.next);
        self.next = self.next.wrapping_add(1);
        b
    }

    /// Derive a child capability from `parent` with `new_rights` and a fresh
    /// badge taken from this allocator.
    ///
    /// # Errors
    /// Propagates errors from [`Cap::derive`]; the badge is consumed either
    /// way.  The allocator is not exhausted.
    pub fn derive_with_fresh_badge<T: CapObject>(&mut self, parent: Cap<T>, new_rights: Rights) -> (r: Result<Cap<T>, CapError>)
        requires
            parent.wf(),
            old(self).spec_next() != 0,
        ensures
            final(self).spec_next() == next_counter(old(self).spec_next()),
            match derive_error(parent.rights(), new_rights) {
                Some(e) => r == Err::<Cap<T>, CapError>(e),
                None => r is Ok && {
                    let c = r->Ok_0;
                    &&& c.wf()
                    &&& c.object() == parent.object()
                    &&& c.rights() == new_rights
                    &&& c.badge().raw() == old(self).spec_next()
                },
            },
            !new_rights.is_subset_of(parent.rights()) ==> r == Err::<Cap<T>, CapError>(
                CapError::RightsEscalation,
            ),
            new_rights.is_subset_of(parent.rights()) && !parent.rights().contains(Rights::GRANT())
                ==> r == Err::<Cap<T>, CapError>(CapError::InsufficientRights),
    {
        let badge = self.allocate();
        parent.derive(new_rights, badge)
    }
}

impl Default for BadgeAllocator {
    /// A fresh allocator; the first allocated badge will be `1`.
    fn default() -> (a: Self)
        ensures
            a.spec_next() == 1,
    {
        Self::new()
    }
}

/// The counter counts up by one, and reaches `0` (exhausted) only after
/// `u64::MAX`.
pub proof fn lemma_next_counter(n: u64)
    ensures
        n < u64::MAX ==> next_counter(n) == n + 1,
        n == u64::MAX ==> next_counter(n) == 0,
        next_counter(n) == 0 <==> n == u64::MAX,
{
}

/// Before the counter wraps, the `k`-th allocation from counter `start`
/// hands out `start + k`.
pub proof fn lemma_nth_allocated_value(start: u64, k: nat)
    requires
        start + k <= u64::MAX,
    ensures
        nth_allocated(start, k) == start + k,
    decreases k,
{
    if k > 0 {
        lemma_nth_allocated_value(next_counter(start), (k - 1) as nat);
    }
}

/// Uniqueness: an allocator whose counter stands at `start >= 1` hands out
/// pairwise distinct, non-zero badges over all of its remaining
/// `u64::MAX - start + 1` allocations.  For a fresh allocator (`start == 1`)
/// the `k`-th badge (counting from zero) is `k + 1`.
pub proof fn lemma_allocated_badges_unique(start: u64, j: nat, k: nat)
    requires
        start >= 1,
        j < k,
        start + k <= u64::MAX,
    ensures
        nth_allocated(start, j) != nth_allocated(start, k),
        nth_allocated(start, j) != 0,
        nth_allocated(start, k) != 0,
{
    lemma_nth_allocated_value(start, j);
    lemma_nth_allocated_value(start, k);
}

/// Exhaustion: a fresh allocator hands out badge `u64::MAX` as its last
/// badge, and is exhausted right after it.
pub proof fn lemma_fresh_allocator_exhaustion()
    ensures
        nth_allocated(1, (u64::MAX - 1) as nat) == u64::MAX,
        next_counter(nth_allocated(1, (u64::MAX - 1) as nat)) == 0,
        forall|k: nat| k < u64::MAX - 1 ==> next_counter(#[trigger] nth_allocated(1, k)) != 0,
{
    lemma_nth_allocated_value(1, (u64::MAX - 1) as nat);
    assert forall|k: nat| k < u64::MAX - 1 implies next_counter(#[trigger] nth_allocated(1, k))
        != 0 by {
        lemma_nth_allocated_value(1, k);
    }
}

} // verus!
