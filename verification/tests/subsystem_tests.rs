//! Tests of the IPC, memory, distributed and kernel subsystems, and of the
//! laws the library states, on concrete values.

use core::cell::Cell;

use axiomos::capability::{Badge, BadgeAllocator, CNode, Cap, CapError, CapObject, CapSlot, Rights};
use axiomos::distributed::{DeviceId, DeviceKind, DeviceNode, ServiceToken, SoftBus};
use axiomos::distributed::bus::MAX_DEVICES;
use axiomos::ipc::{Endpoint, EndpointState, Message, MessageInfo, ReplyObj, MR_COUNT};
use axiomos::kernel::{bring_up, BootReport, Syscall, Thread, ThreadState};
use axiomos::memory::{Frame, FrameSize, PageTable, UntypedMemory};

#[derive(Debug)]
struct Obj {
    value: u32,
}

impl CapObject for Obj {}

// ── Rights ────────────────────────────────────────────────────────────────────

#[test]
fn rights_bits_of_named_rights() {
    assert_eq!(Rights::READ().bits(), 1);
    assert_eq!(Rights::WRITE().bits(), 2);
    assert_eq!(Rights::GRANT().bits(), 4);
    assert_eq!(Rights::GRANT_REPLY().bits(), 8);
    assert_eq!(Rights::REVOKE().bits(), 16);
    assert_eq!(Rights::ALL().bits(), 31);
    assert_eq!(Rights::all(), Rights::ALL());
    assert_eq!(Rights::default(), Rights::ALL());
}

#[test]
fn rights_union_and_intersection() {
    let rw = Rights::READ() | Rights::WRITE();
    assert_eq!(rw.bits(), 3);
    assert!(rw.contains(Rights::READ()) && rw.contains(Rights::WRITE()));
    assert_eq!(rw & Rights::WRITE(), Rights::WRITE());
    assert!((Rights::READ() & Rights::WRITE()).is_empty());
    assert_eq!(Rights::from_bits_truncate(0xff), Rights::ALL());
}

#[test]
fn rights_set_operations() {
    let mut r = Rights::READ();
    r.insert(Rights::GRANT());
    assert_eq!(r, Rights::READ() | Rights::GRANT());
    assert!(r.intersects(Rights::GRANT()));
    assert!(!r.intersects(Rights::WRITE()));
    r.remove(Rights::READ());
    assert_eq!(r, Rights::GRANT());
    assert_eq!(Rights::ALL().difference(Rights::READ()).bits(), 30);
    assert_eq!(Rights::READ().union(Rights::WRITE()).bits(), 3);
    assert_eq!(Rights::ALL().intersection(Rights::WRITE()), Rights::WRITE());
}

#[test]
fn rights_debug_text_names_flags() {
    assert_eq!((Rights::READ() | Rights::WRITE()).debug_text(), "Rights(READ | WRITE)");
    assert_eq!(
        Rights::ALL().debug_text(),
        "Rights(READ | WRITE | GRANT | GRANT_REPLY | REVOKE)"
    );
    assert_eq!(Rights::GRANT_REPLY().debug_text(), "Rights(GRANT_REPLY)");
    assert_eq!(Rights::empty().debug_text(), "Rights(0x0)");
    assert_eq!(Rights(0x23).debug_text(), "Rights(READ | WRITE | 0x20)");
    assert_eq!(Rights(0xff00).debug_text(), "Rights(0xff00)");
}

#[test]
fn rights_subset_transitive_example() {
    let r = Rights::READ();
    let rg = Rights::READ() | Rights::GRANT();
    assert!(r.is_subset_of(rg) && rg.is_subset_of(Rights::ALL()));
    assert!(r.is_subset_of(Rights::ALL()));
    assert_eq!(r.is_subset_of(rg), rg.contains(r));
    assert_eq!(rg.is_subset_of(r), r.contains(rg));
}

// ── Cap ───────────────────────────────────────────────────────────────────────

#[test]
fn derive_keeps_object_and_sets_badge() {
    let parent = Cap::mint(Obj { value: 9 }, Rights::ALL(), Badge::new(3));
    let child = parent.derive(Rights::READ() | Rights::GRANT(), Badge::new(4)).unwrap();
    assert_eq!(child.badge(), Badge::new(4));
    assert_eq!(child.into_object().value, 9);
}

#[test]
fn derive_chain_never_escalates() {
    let root = Cap::mint(Obj { value: 1 }, Rights::ALL(), Badge::NONE());
    let mid = root.derive(Rights::READ() | Rights::GRANT(), Badge::new(1)).unwrap();
    let leaf = mid.derive(Rights::READ(), Badge::new(2)).unwrap();
    assert!(leaf.rights().is_subset_of(Rights::ALL()));
    // A grandchild cannot regain WRITE.
    let mid2 = Cap::mint(Obj { value: 1 }, Rights::READ() | Rights::GRANT(), Badge::NONE());
    assert_eq!(
        mid2.derive(Rights::WRITE(), Badge::NONE()).unwrap_err(),
        CapError::RightsEscalation
    );
}

#[test]
fn derive_escalation_checked_before_grant() {
    // Neither a subset nor GRANT: the escalation error wins.
    let parent = Cap::mint(Obj { value: 1 }, Rights::READ(), Badge::NONE());
    assert_eq!(
        parent.derive(Rights::ALL(), Badge::NONE()).unwrap_err(),
        CapError::RightsEscalation
    );
}

#[test]
fn mint_reply_has_read_write() {
    let c = Cap::mint_reply(ReplyObj::new(11), Badge::new(8));
    assert_eq!(c.rights(), Rights::READ() | Rights::WRITE());
    assert_eq!(c.badge().raw(), 8);
    let obj = c.into_object();
    assert_eq!(obj.caller_id, 11);
    assert!(!obj.consumed);
}

#[test]
fn borrow_object_mut_writes_through() {
    let mut cap = Cap::mint(Obj { value: 1 }, Rights::WRITE(), Badge::NONE());
    cap.borrow_object_mut(Rights::WRITE()).unwrap().value = 42;
    assert_eq!(cap.borrow_object_mut(Rights::READ()).unwrap_err(), CapError::InsufficientRights);
    assert_eq!(cap.into_object().value, 42);
}

#[test]
fn borrow_object_gives_the_object() {
    let cap = Cap::mint(Obj { value: 5 }, Rights::READ(), Badge::NONE());
    assert_eq!(cap.borrow_object(Rights::READ()).unwrap().value, 5);
    assert_eq!(cap.borrow_object(Rights::empty()).unwrap().value, 5);
}

#[test]
fn failed_derive_revokes_parent_object() {
    #[derive(Debug)]
    struct Watched<'a>(&'a Cell<u32>);
    impl<'a> CapObject for Watched<'a> {
        fn on_revoke(&mut self) {
            self.0.set(self.0.get() + 1);
        }
    }

    let revocations = Cell::new(0);
    let cap = Cap::mint(Watched(&revocations), Rights::READ(), Badge::NONE());
    assert_eq!(cap.derive(Rights::WRITE(), Badge::NONE()).unwrap_err(), CapError::RightsEscalation);
    assert_eq!(revocations.get(), 1);

    // A successful derivation moves the object on: the parent revokes nothing,
    // the child revokes it once when dropped.
    let cap = Cap::mint(Watched(&revocations), Rights::ALL(), Badge::NONE());
    let child = cap.derive(Rights::READ(), Badge::new(1)).unwrap();
    assert_eq!(revocations.get(), 1);
    drop(child);
    assert_eq!(revocations.get(), 2);

    // into_object hands the object over without revoking it.
    let cap = Cap::mint(Watched(&revocations), Rights::ALL(), Badge::NONE());
    let obj = cap.into_object();
    assert_eq!(revocations.get(), 2);
    drop(obj);
    assert_eq!(revocations.get(), 2);
}

#[test]
fn cnode_drop_revokes_held_caps() {
    #[derive(Debug)]
    struct Watched<'a>(&'a Cell<u32>);
    impl<'a> CapObject for Watched<'a> {
        fn on_revoke(&mut self) {
            self.0.set(self.0.get() + 1);
        }
    }

    let revocations = Cell::new(0);
    {
        let mut n: CNode<Watched, 3> = CNode::new();
        n.insert(0, Cap::mint(Watched(&revocations), Rights::ALL(), Badge::NONE())).unwrap();
        n.insert(2, Cap::mint(Watched(&revocations), Rights::ALL(), Badge::NONE())).unwrap();
        // A refused insertion drops (and so revokes) the capability it was given.
        let _ = n.insert(2, Cap::mint(Watched(&revocations), Rights::ALL(), Badge::NONE()));
        assert_eq!(revocations.get(), 1);
    }
    assert_eq!(revocations.get(), 3);
}

// ── CapSlot / CNode ───────────────────────────────────────────────────────────

#[test]
fn cap_slot_insert_remove_borrow() {
    let mut slot: CapSlot<Obj> = CapSlot::empty();
    assert!(!slot.is_occupied());
    assert_eq!(slot.borrow().unwrap_err(), CapError::SlotEmpty);
    assert_eq!(slot.borrow_mut().unwrap_err(), CapError::SlotEmpty);
    assert_eq!(slot.remove().unwrap_err(), CapError::SlotEmpty);
    slot.insert(Cap::mint(Obj { value: 2 }, Rights::READ(), Badge::NONE())).unwrap();
    assert!(slot.is_occupied());
    assert_eq!(
        slot.insert(Cap::mint(Obj { value: 3 }, Rights::READ(), Badge::NONE())).unwrap_err(),
        CapError::SlotOccupied
    );
    assert_eq!(slot.borrow().unwrap().rights(), Rights::READ());
    let c = slot.remove().unwrap();
    assert!(!slot.is_occupied());
    assert_eq!(c.into_object().value, 2);
}

#[test]
fn cnode_capacity_and_default() {
    let n: CNode<Obj, 7> = CNode::default();
    assert_eq!(n.capacity(), 7);
    assert_eq!(n.occupied_count(), 0);
}

#[test]
fn cnode_insert_then_remove_gives_back_cap() {
    let mut n: CNode<Obj, 4> = CNode::new();
    n.insert(1, Cap::mint(Obj { value: 10 }, Rights::READ(), Badge::new(6))).unwrap();
    n.insert(3, Cap::mint(Obj { value: 30 }, Rights::WRITE(), Badge::new(7))).unwrap();
    assert_eq!(n.occupied_count(), 2);
    let c = n.remove(1).unwrap();
    assert_eq!(c.badge(), Badge::new(6));
    assert_eq!(c.into_object().value, 10);
    // The other slot is untouched.
    assert_eq!(n.borrow(3).unwrap().badge(), Badge::new(7));
    assert_eq!(n.borrow(1).unwrap_err(), CapError::SlotEmpty);
    assert_eq!(n.occupied_count(), 1);
}

#[test]
fn cnode_last_slot_in_range() {
    let mut n: CNode<Obj, 4> = CNode::new();
    assert!(n.insert(3, Cap::mint(Obj { value: 1 }, Rights::READ(), Badge::NONE())).is_ok());
    assert_eq!(
        n.insert(4, Cap::mint(Obj { value: 1 }, Rights::READ(), Badge::NONE())).unwrap_err(),
        CapError::SlotOutOfRange
    );
    assert_eq!(n.borrow_mut(4).unwrap_err(), CapError::SlotOutOfRange);
}

#[test]
fn cnode_borrow_mut_writes_through() {
    let mut n: CNode<Obj, 2> = CNode::new();
    n.insert(0, Cap::mint(Obj { value: 1 }, Rights::WRITE(), Badge::NONE())).unwrap();
    n.borrow_mut(0).unwrap().borrow_object_mut(Rights::WRITE()).unwrap().value = 77;
    assert_eq!(n.remove(0).unwrap().into_object().value, 77);
    assert_eq!(n.borrow_mut(0).unwrap_err(), CapError::SlotEmpty);
}

// ── BadgeAllocator / Badge ────────────────────────────────────────────────────

#[test]
fn badge_allocator_counts_up() {
    let mut a = BadgeAllocator::default();
    for k in 1..=100u64 {
        let b = a.allocate();
        assert_eq!(b.raw(), k);
        assert!(!b.is_none());
    }
}

#[test]
fn badge_text() {
    assert_eq!(Badge::new(42).to_string(), "Badge(42)");
    assert_eq!(Badge::NONE().to_string(), "Badge(0)");
    assert_eq!(Badge::new(7).to_string(), "Badge(7)");
    assert_eq!(Badge::new(10).to_string(), "Badge(10)");
    assert_eq!(Badge::new(u64::MAX).to_string(), "Badge(18446744073709551615)");
}

#[test]
fn badge_allocator_not_exhausted_when_fresh() {
    let mut a = BadgeAllocator::new();
    assert!(!a.is_exhausted());
    a.allocate();
    assert!(!a.is_exhausted());
}

#[test]
fn badge_allocator_derive_error_consumes_badge() {
    let mut a = BadgeAllocator::new();
    let parent = Cap::mint(Obj { value: 1 }, Rights::READ(), Badge::NONE());
    assert_eq!(
        a.derive_with_fresh_badge(parent, Rights::READ()).unwrap_err(),
        CapError::InsufficientRights
    );
    assert_eq!(a.allocate().raw(), 2);
}

#[test]
fn badge_allocator_fresh_badges_differ() {
    let mut a = BadgeAllocator::new();
    let c1 = a
        .derive_with_fresh_badge(Cap::mint(Obj { value: 1 }, Rights::ALL(), Badge::NONE()), Rights::READ())
        .unwrap();
    let c2 = a
        .derive_with_fresh_badge(Cap::mint(Obj { value: 2 }, Rights::ALL(), Badge::NONE()), Rights::READ())
        .unwrap();
    assert_eq!(c1.badge().raw(), 1);
    assert_eq!(c2.badge().raw(), 2);
    assert_ne!(c1.badge(), c2.badge());
}

// ── CapError ──────────────────────────────────────────────────────────────────

#[test]
fn cap_error_messages() {
    assert_eq!(CapError::InsufficientRights.message(), "capability: insufficient rights");
    assert_eq!(CapError::SlotOccupied.message(), "capability: cnode slot already occupied");
    assert_eq!(CapError::SlotOutOfRange.message(), "capability: cnode slot index out of range");
    assert_eq!(CapError::SlotEmpty.message(), "capability: cnode slot is empty");
    assert_eq!(CapError::InvalidBadge.message(), "capability: invalid badge value (zero)");
    assert_eq!(CapError::RightsEscalation.message(), "capability: rights escalation attempt");
}

// ── IPC ───────────────────────────────────────────────────────────────────────

#[test]
fn endpoint_send_then_recv() {
    let mut ep = Endpoint::new(5);
    assert_eq!(ep.state, EndpointState::Idle);
    let msg = Message::with_data(7, &[1, 2]);
    ep.send(msg);
    assert_eq!(ep.state, EndpointState::SendBlocked);
    assert_eq!(ep.recv(), Some(msg));
    assert_eq!(ep.state, EndpointState::Idle);
    assert_eq!(ep.pending_message, None);
    assert_eq!(ep.id, 5);
}

#[test]
fn endpoint_recv_without_sender_blocks() {
    let mut ep = Endpoint::new(1);
    assert_eq!(ep.recv(), None);
    assert_eq!(ep.state, EndpointState::RecvBlocked);
}

#[test]
fn endpoint_second_send_overwrites() {
    let mut ep = Endpoint::new(1);
    ep.send(Message::new(1));
    ep.send(Message::new(2));
    assert_eq!(ep.recv().unwrap().info.label, 2);
    assert_eq!(ep.recv(), None);
}

#[test]
fn endpoint_revoke_clears() {
    let mut ep = Endpoint::new(1);
    ep.send(Message::new(1));
    ep.on_revoke();
    assert_eq!(ep.state, EndpointState::Idle);
    assert_eq!(ep.pending_message, None);
}

#[test]
fn message_with_data_round_trip() {
    let m = Message::with_data(9, &[4, 5, 6]);
    assert_eq!(m.info, MessageInfo::new(9, 3));
    assert_eq!(m.data(), &[4, 5, 6]);
    assert_eq!(m.mrs, [4, 5, 6, 0]);
    let full = Message::with_data(1, &[1, 2, 3, 4]);
    assert_eq!(full.data().len(), MR_COUNT);
    let empty = Message::new(3);
    assert_eq!(empty.data(), &[] as &[u64]);
    assert_eq!(empty.info.length, 0);
}

// ── Memory ────────────────────────────────────────────────────────────────────

#[test]
fn frame_sizes_and_mapping() {
    assert_eq!(FrameSize::Small.bytes(), 4096);
    assert_eq!(FrameSize::Large.bytes(), 2 * 1024 * 1024);
    assert_eq!(FrameSize::Huge.bytes(), 1024 * 1024 * 1024);
    let mut f = Frame::new(0x2000, FrameSize::Large);
    assert!(!f.mapped);
    f.map();
    assert!(f.mapped);
    f.on_revoke();
    assert!(!f.mapped);
    assert_eq!(f.phys_addr, 0x2000);
}

#[test]
fn page_table_install_uninstall() {
    let mut t = PageTable::new(0x3000);
    assert_eq!(t.entry_count, 0);
    t.install();
    assert!(t.installed);
    t.uninstall();
    assert!(!t.installed);
    t.install();
    t.on_revoke();
    assert!(!t.installed);
}

#[test]
fn untyped_size_and_consume() {
    let mut u = UntypedMemory::new(0x1000_0000, 20);
    assert_eq!(u.size_bytes(), 1 << 20);
    assert_eq!(UntypedMemory::new(0, 63).size_bytes(), 1u64 << 63);
    assert!(u.is_available());
    u.consume();
    assert!(!u.is_available());
}

// ── Distributed ───────────────────────────────────────────────────────────────

#[test]
fn bus_register_lookup_route() {
    let mut bus = SoftBus::new();
    let mut cam = DeviceNode::new(1, "camera0", DeviceKind::Remote);
    assert!(!cam.online);
    assert!(bus.register(&mut cam));
    assert!(cam.online);
    assert_eq!(bus.device_count(), 1);
    assert_eq!(bus.lookup_name(DeviceId(1)), Some("camera0"));
    assert_eq!(bus.lookup_name(DeviceId(2)), None);
    let msg = Message::new(4);
    assert_eq!(bus.route(DeviceId(1), msg), Some(msg));
    assert_eq!(bus.route(DeviceId(2), msg), None);
}

#[test]
fn bus_duplicate_id_keeps_first_name() {
    let mut bus = SoftBus::default();
    let mut a = DeviceNode::new(1, "first", DeviceKind::Local);
    let mut b = DeviceNode::new(1, "second", DeviceKind::Virtual);
    assert!(bus.register(&mut a));
    assert!(bus.register(&mut b));
    assert_eq!(bus.lookup_name(DeviceId(1)), Some("first"));
    assert!(bus.deregister(DeviceId(1)));
    assert_eq!(bus.lookup_name(DeviceId(1)), Some("second"));
    assert!(bus.deregister(DeviceId(1)));
    assert_eq!(bus.lookup_name(DeviceId(1)), None);
    assert!(!bus.deregister(DeviceId(1)));
}

#[test]
fn bus_deregister_keeps_others() {
    let mut bus = SoftBus::new();
    for id in 0..5u64 {
        let mut d = DeviceNode::new(id, "dev", DeviceKind::Local);
        assert!(bus.register(&mut d));
    }
    assert!(bus.deregister(DeviceId(1)));
    assert_eq!(bus.device_count(), 4);
    assert_eq!(bus.lookup_name(DeviceId(1)), None);
    for id in [0u64, 2, 3, 4] {
        assert_eq!(bus.lookup_name(DeviceId(id)), Some("dev"));
    }
}

#[test]
fn bus_full_rejects_registration() {
    let mut bus = SoftBus::new();
    for id in 0..MAX_DEVICES as u64 {
        let mut d = DeviceNode::new(id, "dev", DeviceKind::Local);
        assert!(bus.register(&mut d));
    }
    let mut extra = DeviceNode::new(999, "extra", DeviceKind::Local);
    assert!(!bus.register(&mut extra));
    assert!(!extra.online);
    assert_eq!(bus.device_count(), MAX_DEVICES);
    assert!(bus.deregister(DeviceId(0)));
    assert_eq!(bus.device_count(), MAX_DEVICES - 1);
    assert_eq!(bus.lookup_name(DeviceId(999)), None);
}

#[test]
fn device_connect_disconnect_revoke() {
    let mut d = DeviceNode::new(3, "sensor/imu", DeviceKind::Local);
    d.connect();
    assert!(d.online);
    d.disconnect();
    assert!(!d.online);
    d.connect();
    d.on_revoke();
    assert!(!d.online);
    assert_eq!(d.id, DeviceId(3));
}

#[test]
fn service_token_new() {
    let t = ServiceToken::new("net.dhcp", 12);
    assert_eq!(t.name, "net.dhcp");
    assert_eq!(t.instance_id, 12);
}

// ── Kernel ────────────────────────────────────────────────────────────────────

#[test]
fn syscall_from_raw_round_trip() {
    for n in 0..=8u64 {
        let s = Syscall::from_raw(n).unwrap();
        assert_eq!(s.to_raw(), n);
    }
    assert_eq!(Syscall::from_raw(0), Some(Syscall::Call));
    assert_eq!(Syscall::from_raw(8), Some(Syscall::CNodeRevoke));
    assert_eq!(Syscall::from_raw(9), None);
    assert_eq!(Syscall::from_raw(u64::MAX), None);
}

#[test]
fn thread_resume_suspend() {
    let mut t = Thread::new(1, "init", 200);
    assert_eq!(t.state, ThreadState::Suspended);
    t.resume();
    assert_eq!(t.state, ThreadState::Running);
    t.resume();
    assert_eq!(t.state, ThreadState::Running);
    t.suspend();
    assert_eq!(t.state, ThreadState::Suspended);
    t.state = ThreadState::Blocked;
    t.resume();
    assert_eq!(t.state, ThreadState::Blocked);
    t.suspend();
    assert_eq!(t.state, ThreadState::Blocked);
    t.on_revoke();
    assert_eq!(t.state, ThreadState::Dead);
    assert_eq!(t.priority, 200);
}

#[test]
fn boot_sequence_report() {
    assert_eq!(bring_up(), BootReport { cnode_occupied: 1, bus_devices: 1 });
}
