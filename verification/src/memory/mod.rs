//! Memory — memory objects as capabilities.
//!
//! | seL4 object         | Here                 | Description                            |
//! |---------------------|----------------------|----------------------------------------|
//! | Untyped Memory      | [`UntypedMemory`]    | Raw physical memory before retyping    |
//! | Frame (4 KiB page)  | [`Frame`]            | A single mappable physical page        |
//! | PageTable           | [`PageTable`]        | An intermediate page-table level       |
//!
//! Access to all objects is mediated through `Cap<T>`: possession of a
//! `Cap<Frame>` is the authority to map/unmap that page.

pub mod frame;
pub mod page_table;
pub mod untyped;

pub use frame::{Frame, FrameSize};
pub use page_table::PageTable;
pub use untyped::UntypedMemory;
