//! Distributed soft-bus — routes messages between device nodes.

use vstd::prelude::*;

use crate::distributed::device::{DeviceId, DeviceNode};
use crate::ipc::message::Message;

verus! {

/// Maximum number of device nodes the bus can hold.
pub const MAX_DEVICES: usize = 64;

/// One routing entry: a device's ID and name.
pub type Route = (DeviceId, &'static str);

/// The position of the first routing entry for `id`, if any.
pub open spec fn route_index(s: Seq<Route>, id: DeviceId) -> Option<int>
    decreases s.len(),
{
    if s.len() == 0 {
        None
    } else if s[0].0 == id {
        Some(0)
    } else {
        match route_index(s.skip(1), id) {
            Some(i) => Some(i + 1),
            None => None,
        }
    }
}

/// The name registered for `id` (that of its first routing entry), if any.
pub open spec fn route_name(s: Seq<Route>, id: DeviceId) -> Option<&'static str> {
    match route_index(s, id) {
        Some(i) => Some(s[i].1),
        None => None,
    }
}

/// `id` has a routing entry.
pub open spec fn is_registered(s: Seq<Route>, id: DeviceId) -> bool {
    exists|i: int| 0 <= i < s.len() && (#[trigger] s[i]).0 == id
}

/// The routing table after the first entry for `id` is removed: the last
/// entry takes its place.
pub open spec fn routes_without(s: Seq<Route>, id: DeviceId) -> Seq<Route> {
    match route_index(s, id) {
        Some(i) => s.update(i, s.last()).drop_last(),
        None => s,
    }
}

/// `route_index` finds the first entry for `id`, and finds none exactly when
/// there is none.
pub proof fn lemma_route_index(s: Seq<Route>, id: DeviceId)
    ensures
        route_index(s, id) is None <==> !is_registered(s, id),
        route_index(s, id) matches Some(i) ==> {
            &&& 0 <= i < s.len()
            &&& s[i].0 == id
            &&& forall|j: int| 0 <= j < i ==> (#[trigger] s[j]).0 != id
        },
    decreases s.len(),
{
    if s.len() > 0 {
        let t = s.skip(1);
        lemma_route_index(t, id);
        if s[0].0 != id {
            assert forall|j: int| 0 <= j < t.len() implies (#[trigger] t[j]) == s[j + 1] by {}
            if is_registered(s, id) {
                let k = choose|k: int| 0 <= k < s.len() && (#[trigger] s[k]).0 == id;
                assert(t[k - 1].0 == id);
            }
            if is_registered(t, id) {
                let k = choose|k: int| 0 <= k < t.len() && (#[trigger] t[k]).0 == id;
                assert(s[k + 1].0 == id);
            }
            if route_index(t, id) is Some {
                let i = route_index(t, id)->Some_0;
                assert forall|j: int| 0 <= j < i + 1 implies (#[trigger] s[j]).0 != id by {
                    if j > 0 {
                        assert(s[j] == t[j - 1]);
                    }
                }
            }
        }
    }
}

/// An entry at `i` whose predecessors are all for other devices is the
/// first entry for its device.
pub proof fn lemma_route_index_first(s: Seq<Route>, id: DeviceId, i: int)
    requires
        0 <= i < s.len(),
        s[i].0 == id,
        forall|j: int| 0 <= j < i ==> (#[trigger] s[j]).0 != id,
    ensures
        route_index(s, id) == Some(i),
{
    lemma_route_index(s, id);
    assert(is_registered(s, id));
    let k = route_index(s, id)->Some_0;
    if k < i {
        assert(s[k].0 != id);
    } else if k > i {
        assert(s[i].0 != id);
    }
}

/// The name looked up for a device is the name of its first routing
/// entry.
pub proof fn lemma_route_name_first_entry(s: Seq<Route>, id: DeviceId, i: int)
    requires
        0 <= i < s.len(),
        s[i].0 == id,
        forall|j: int| 0 <= j < i ==> (#[trigger] s[j]).0 != id,
    ensures
        route_name(s, id) == Some(s[i].1),
{
    lemma_route_index_first(s, id, i);
}

/// Deregistering a device whose first entry is at `i` moves the last entry
/// into position `i`, shortens the table by one and leaves every other
/// entry where it was.
pub proof fn lemma_deregister_moves_last(s: Seq<Route>, id: DeviceId, i: int)
    requires
        0 <= i < s.len(),
        s[i].0 == id,
        forall|j: int| 0 <= j < i ==> (#[trigger] s[j]).0 != id,
    ensures
        routes_without(s, id).len() == s.len() - 1,
        i < s.len() - 1 ==> routes_without(s, id)[i] == s[s.len() - 1],
        forall|j: int|
            0 <= j < s.len() - 1 && j != i ==> #[trigger] routes_without(s, id)[j] == s[j],
{
    lemma_route_index_first(s, id, i);
}

/// A logical soft-bus connecting multiple [`DeviceNode`]s.
///
/// The soft-bus does not bypass the capability system: a caller must have a
/// `Cap<DeviceNode>` to register or route through a node.  The bus itself
/// only keeps routing metadata: one entry per registration, in order.
pub struct SoftBus {
    routes: Vec<Route>,
}

impl View for SoftBus {
    type V = Seq<Route>;

    /// The routing table.
    closed spec fn view(&self) -> Seq<Route> {
        self.routes@
    }
}

impl SoftBus {
    /// A bus holds at most [`MAX_DEVICES`] routing entries.
    pub open spec fn wf(&self) -> bool {
        self@.len() <= MAX_DEVICES
    }

    /// Create an empty soft-bus.
    pub fn new() -> (b: Self)
        ensures
            b.wf(),
            b@ == Seq::<Route>::empty(),
    {
        SoftBus { routes: Vec::new() }
    }

    /// Register a device on the bus and bring it online.
    ///
    /// Returns `false`, changing nothing, if the bus already holds
    /// [`MAX_DEVICES`] devices.
    pub fn register(&mut self, node: &mut DeviceNode) -> (r: bool)
        requires
            old(self).wf(),
        ensures
            final(self).wf(),
            r == (old(self)@.len() < MAX_DEVICES),
            r ==> final(self)@ == old(self)@.push((old(node).id, old(node).name)),
            r ==> *final(node) == (DeviceNode { online: true, ..*old(node) }),
            !r ==> final(self)@ == old(self)@ && *final(node) == *old(node),
    {
        if self.routes.len() >= MAX_DEVICES {
            return false;
        }
        self.routes.push((node.id, node.name));
        node.connect();
        true
    }

    /// Deregister a device: its first routing entry is removed, and the last
    /// entry takes its place.
    ///
    /// Returns `true` if the device was found and removed.
    pub fn deregister(&mut self, id: DeviceId) -> (r: bool)
        requires
            old(self).wf(),
        ensures
            final(self).wf(),
            r == is_registered(old(self)@, id),
            final(self)@ == routes_without(old(self)@, id),
            !r ==> final(self)@ == old(self)@,
            r ==> final(self)@.len() == old(self)@.len() - 1,
    {
        let n = self.routes.len();
        let mut i: usize = 0;
        while i < n
            invariant
                n == self.routes@.len(),
                n <= MAX_DEVICES,
                self@ == old(self)@,
                i <= n,
                forall|j: int| 0 <= j < i ==> (#[trigger] self@[j]).0 != id,
            decreases n - i,
        {
            if self.routes[i].0 == id {
                proof {
                    lemma_route_index_first(self@, id, i as int);
                    lemma_route_index(self@, id);
                }
                let last = self.routes[n - 1];
                self.routes.set(i, last);
                self.routes.pop();
                return true;
            }
            i = i + 1;
        }
        proof {
            lemma_route_index(self@, id);
        }
        false
    }

    /// Return the number of registered devices.
    pub fn device_count(&self) -> (n: usize)
        requires
            self.wf(),
        ensures
            n == self@.len(),
            n <= MAX_DEVICES,
    {
        self.routes.len()
    }

    fn find(&self, id: DeviceId) -> (r: Option<usize>)
        ensures
            match r {
                Some(i) => route_index(self@, id) == Some(i as int) && i < self@.len(),
                None => route_index(self@, id) is None,
            },
    {
        let n = self.routes.len();
        let mut i: usize = 0;
        while i < n
            invariant
                n == self.routes@.len(),
                i <= n,
                forall|j: int| 0 <= j < i ==> (#[trigger] self@[j]).0 != id,
            decreases n - i,
        {
            if self.routes[i].0 == id {
                proof {
                    lemma_route_index_first(self@, id, i as int);
                }
                return Some(i);
            }
            i = i + 1;
        }
        proof {
            lemma_route_index(self@, id);
        }
        None
    }

    /// Look up a device name by ID (the name of its first registration).
    pub fn lookup_name(&self, id: DeviceId) -> (r: Option<&'static str>)
        ensures
            r == route_name(self@, id),
            r is None <==> !is_registered(self@, id),
            forall|i: int|
                0 <= i < self@.len() && (#[trigger] self@[i]).0 == id && (forall|j: int|
                    0 <= j < i ==> self@[j].0 != id) ==> r == Some(self@[i].1),
    {
        proof {
            lemma_route_index(self@, id);
            assert forall|i: int|
                0 <= i < self@.len() && (#[trigger] self@[i]).0 == id && (forall|j: int|
                    0 <= j < i ==> self@[j].0 != id) implies route_name(self@, id) == Some(
                self@[i].1,
            ) by {
                lemma_route_name_first_entry(self@, id, i);
            }
        }
        match self.find(id) {
            Some(i) => Some(self.routes[i].1),
            None => None,
        }
    }

    /// Route a message to the device with `dest_id`.
    ///
    /// Returns `Some(msg)` if the destination is registered, `None` otherwise.
    pub fn route(&self, dest_id: DeviceId, msg: Message) -> (r: Option<Message>)
        ensures
            r == if is_registered(self@, dest_id) {
                Some(msg)
            } else {
                None
            },
    {
        proof {
            lemma_route_index(self@, dest_id);
        }
        if self.find(dest_id).is_some() {
            Some(msg)
        } else {
            None
        }
    }
}

/// After a device is registered, messages to it are routed, and looking it
/// up yields its name — or, if its ID was already registered, the name of
/// the earlier registration.
pub proof fn lemma_register_then_lookup(s: Seq<Route>, id: DeviceId, name: &'static str)
    ensures
        is_registered(s.push((id, name)), id),
        route_name(s.push((id, name)), id) == if is_registered(s, id) {
            route_name(s, id)
        } else {
            Some(name)
        },
{
    let t = s.push((id, name));
    assert(t[s.len() as int] == (id, name));
    lemma_route_index(s, id);
    lemma_route_index(t, id);
    if is_registered(s, id) {
        let i = route_index(s, id)->Some_0;
        assert forall|j: int| 0 <= j < i implies (#[trigger] t[j]).0 != id by {
            assert(t[j] == s[j]);
        }
        lemma_route_index_first(t, id, i);
    } else {
        assert forall|j: int| 0 <= j < s.len() implies (#[trigger] t[j]).0 != id by {
            assert(t[j] == s[j]);
        }
        lemma_route_index_first(t, id, s.len() as int);
    }
}

/// Deregistering removes exactly one entry when the device is registered,
/// and none otherwise.
pub proof fn lemma_deregister_count(s: Seq<Route>, id: DeviceId)
    ensures
        routes_without(s, id).len() == if is_registered(s, id) {
            s.len() - 1
        } else {
            s.len() as int
        },
{
    lemma_route_index(s, id);
}

/// Deregistering one device leaves every other device's registration as it
/// was.
pub proof fn lemma_deregister_keeps_others(s: Seq<Route>, id: DeviceId, other: DeviceId)
    requires
        other != id,
    ensures
        is_registered(routes_without(s, id), other) == is_registered(s, other),
{
    lemma_route_index(s, id);
    let t = routes_without(s, id);
    if route_index(s, id) is Some {
        let i = route_index(s, id)->Some_0;
        let last = s.len() - 1;
        if is_registered(s, other) {
            let k = choose|k: int| 0 <= k < s.len() && (#[trigger] s[k]).0 == other;
            if k == last {
                if i != last {
                    assert(t[i] == s[last]);
                }
            } else {
                assert(k != i);
                assert(t[k] == s[k]);
            }
        }
        if is_registered(t, other) {
            let k = choose|k: int| 0 <= k < t.len() && (#[trigger] t[k]).0 == other;
            if k == i {
                assert(t[k] == s[last]);
            } else {
                assert(t[k] == s[k]);
            }
        }
    }
}

/// A device registered once is gone from the bus after it is deregistered.
pub proof fn lemma_deregister_removes_single(s: Seq<Route>, id: DeviceId, i: int)
    requires
        0 <= i < s.len(),
        s[i].0 == id,
        forall|j: int| 0 <= j < s.len() && j != i ==> (#[trigger] s[j]).0 != id,
    ensures
        !is_registered(routes_without(s, id), id),
{
    lemma_route_index(s, id);
    lemma_route_index_first(s, id, i);
    let t = routes_without(s, id);
    if is_registered(t, id) {
        let k = choose|k: int| 0 <= k < t.len() && (#[trigger] t[k]).0 == id;
        if k == i {
            assert(t[k] == s[s.len() - 1]);
        } else {
            assert(t[k] == s[k]);
        }
    }
}

/// Deregistering a device right after registering it, when its ID was not
/// registered before, restores the routing table.
pub proof fn lemma_register_then_deregister(s: Seq<Route>, id: DeviceId, name: &'static str)
    requires
        !is_registered(s, id),
    ensures
        routes_without(s.push((id, name)), id) == s,
{
    lemma_register_then_lookup(s, id, name);
    lemma_route_index(s, id);
    let t = s.push((id, name));
    assert forall|j: int| 0 <= j < s.len() implies (#[trigger] t[j]).0 != id by {
        assert(t[j] == s[j]);
    }
    lemma_route_index_first(t, id, s.len() as int);
    assert(t.update(s.len() as int, t.last()).drop_last() =~= s);
}

impl Default for SoftBus {
    /// An empty soft-bus.
    fn default() -> (b: Self)
        ensures
            b.wf(),
            b@ == Seq::<Route>::empty(),
    {
        Self::new()
    }
}

} // verus!
