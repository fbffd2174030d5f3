//! Distributed — soft-bus and cross-device scheduling.
//!
//! * [`SoftBus`] — a logical bus that routes `Message`s between devices.
//! * [`DeviceNode`] — a physical or virtual device on the bus.
//! * [`ServiceToken`] — a capability token for a named distributed service.
//!
//! Cross-device access is still mediated through capabilities: a device can
//! only communicate on the bus if it possesses the appropriate capability.

pub mod bus;
pub mod device;
pub mod service;

pub use bus::SoftBus;
pub use device::{DeviceId, DeviceKind, DeviceNode};
pub use service::ServiceToken;
