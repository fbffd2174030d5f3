//! Kernel — threads, syscall numbers and the boot sequence.

pub mod init;
pub mod syscall;
pub mod thread;

pub use init::{bring_up, BootReport};
pub use syscall::Syscall;
pub use thread::{Thread, ThreadState};
