//! What the tracer knows of the kernel's system calls.

pub mod groups;
pub mod syscall;
pub mod sysno;
