//! Core of an unprivileged `chroot`/bind-mount emulator: the classification
//! and rewriting of a traced process's system calls, and the bootstrap that
//! rebuilds a process image from a stream of load statements.

pub mod arch;
pub mod script;
pub mod cli;
pub mod errno;
pub mod errors;
pub mod kernel;
pub mod loader;
pub mod name;
pub mod process;
pub mod register;
pub mod stack;
pub mod utils;
