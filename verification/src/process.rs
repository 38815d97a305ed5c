//! A traced process.

use vstd::prelude::*;
use crate::register::Registers;

verus! {

/// A process under the tracer, stopped at the entry of a system call.
#[derive(Clone, Copy, Debug, PartialEq, Eq, Structural)]
pub struct Tracee {
    /// The process identifier.
    pub pid: i32,
    /// The registers of the process.
    pub regs: Registers,
}

impl Tracee {
    /// The process `pid` with the registers `regs`.
    pub fn new(pid: i32, regs: Registers) -> (tracee: Tracee)
        ensures
            tracee == (Tracee { pid, regs }),
    {
        Tracee { pid, regs }
    }
}

} // verus!
