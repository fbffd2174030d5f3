//! IPC — inter-process communication as capabilities.
//!
//! Synchronous IPC where *endpoints* and *reply objects* are kernel objects
//! reached through `Cap<T>` values:
//! * [`Endpoint`] — a rendezvous point, wrapped in `Cap<Endpoint>`;
//! * [`Message`]  — a fixed-size message (info word + message registers);
//! * [`ReplyObj`] — a one-shot reply object.

pub mod endpoint;
pub mod message;
pub mod reply;

pub use endpoint::{Endpoint, EndpointState};
pub use message::{Message, MessageInfo, MR_COUNT};
pub use reply::ReplyObj;
