//! AxiomOS: a capability-based microkernel model ("ownership is capability").
//!
//! The crate gathers the kernel's subsystems:
//! * [`capability`] — linear capabilities, rights, badges and capability tables;
//! * [`ipc`] — endpoints, messages and one-shot reply objects;
//! * [`memory`] — frames, page tables and untyped memory;
//! * [`distributed`] — the soft-bus, device nodes and service tokens;
//! * [`kernel`] — threads, syscall numbers and the boot sequence;
//! * [`text`] — the numerals used in the text forms of kernel values.

pub mod capability;
pub mod distributed;
pub mod ipc;
pub mod kernel;
pub mod memory;
pub mod text;
