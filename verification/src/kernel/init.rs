//! Kernel boot / initialisation sequence.
//!
//! 1. Bootstrap the root CNode.
//! 2. Retype initial untyped memory.
//! 3. Create the initial IPC endpoint.
//! 4. Create the initial frame capability.
//! 5. Bring up the distributed soft-bus.

use vstd::prelude::*;

use crate::capability::badge::Badge;
use crate::capability::cap::Cap;
use crate::capability::cnode::CNode;
use crate::capability::rights::Rights;
use crate::distributed::bus::SoftBus;
use crate::distributed::device::{DeviceKind, DeviceNode};
use crate::ipc::endpoint::Endpoint;
use crate::memory::frame::{Frame, FrameSize};
use crate::memory::untyped::UntypedMemory;

verus! {

/// What the boot sequence leaves behind.
#[derive(Debug, Clone, Copy, PartialEq, Eq, Structural)]
pub struct BootReport {
    /// Occupied slots of the root CNode.
    pub cnode_occupied: usize,
    /// Devices registered on the soft-bus.
    pub bus_devices: usize,
}

/// Perform the kernel boot sequence: the root CNode ends with its endpoint
/// capability in slot 0 and the soft-bus with one device online.
pub fn bring_up() -> (r: BootReport)
    ensures
        r == (BootReport { cnode_occupied: 1, bus_devices: 1 }),
{
    // 1. Root CNode.
    let mut root_cnode: CNode<Endpoint, 16> = CNode::new();

    // 2. Initial untyped memory (1 MiB), retyped into the frame below.
    let mut untyped = UntypedMemory::new(0x1000_0000, 20);
    let available = untyped.is_available();
    assert(available);
    untyped.consume();

    // 3. IPC endpoint, placed in slot 0 of the root CNode.
    let ep_cap: Cap<Endpoint> = Cap::mint(Endpoint::new(1), Rights::ALL(), Badge::NONE());
    let inserted = root_cnode.insert(0, ep_cap);
    assert(inserted is Ok);
    let cnode_occupied = root_cnode.occupied_count();

    // 4. Frame capability.
    let _frame_cap: Cap<Frame> = Cap::mint(
        Frame::new(0x1000_0000, FrameSize::Small),
        Rights::READ() | Rights::WRITE(),
        Badge::NONE(),
    );

    // 5. Distributed soft-bus with one local device.
    let mut bus = SoftBus::new();
    let mut dev = DeviceNode::new(1, "sensor/imu", DeviceKind::Local);
    let registered = bus.register(&mut dev);
    assert(registered);
    let bus_devices = bus.device_count();

    BootReport { cnode_occupied, bus_devices }
}

} // verus!
