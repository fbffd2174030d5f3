//! Capability system: each capability is a linear value `Cap<T>` whose
//! ownership is the authority it grants.
//!
//! | seL4 concept          | Here                         |
//! |-----------------------|------------------------------|
//! | Capability            | `Cap<T>` (linear)            |
//! | CNode slot            | `CNode` / `CapSlot`          |
//! | Rights mask           | `Rights`                     |
//! | Capability derivation | `Cap::derive()`              |
//! | Revocation            | `drop`                       |
//! | Badge                 | `Badge` (newtype `u64`)      |

pub mod badge;
pub mod cap;
pub mod cnode;
pub mod error;
pub mod rights;

pub use badge::Badge;
pub use cap::{Cap, CapObject};
pub use cnode::{BadgeAllocator, CNode, CapSlot};
pub use error::CapError;
pub use rights::Rights;
