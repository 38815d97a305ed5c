//! The registers of a traced process that take part in a system call.
//!
//! Two versions are kept: the registers as they were when the process
//! entered the call, and the registers as the kernel will see them.

use vstd::prelude::*;
use crate::arch::Arch;

verus! {

/// The position of an argument of a system call.
#[derive(Clone, Copy, Debug, PartialEq, Eq, Structural)]
pub enum SysArgIndex {
    SysArg1,
    SysArg2,
    SysArg3,
    SysArg4,
    SysArg5,
    SysArg6,
}

/// A register, by the part it plays in a system call.
#[derive(Clone, Copy, Debug, PartialEq, Eq, Structural)]
pub enum Register {
    /// The number of the call.
    SysNum,
    /// An argument of the call.
    SysArg(SysArgIndex),
    /// What the call returns.
    SysResult,
}

/// A version of the registers.
#[derive(Clone, Copy, Debug, PartialEq, Eq, Structural)]
pub enum RegVersion {
    /// The registers as the kernel will see them.
    Current,
    /// The registers as they were on entry to the call.
    Original,
}

/// The values of the registers of one version.
#[derive(Clone, Copy, Debug, PartialEq, Eq, Structural)]
pub struct RegisterSet {
    pub sys_num: u64,
    pub sys_arg1: u64,
    pub sys_arg2: u64,
    pub sys_arg3: u64,
    pub sys_arg4: u64,
    pub sys_arg5: u64,
    pub sys_arg6: u64,
    pub sys_result: u64,
}

/// The registers of a traced process, in both versions.
#[derive(Clone, Copy, Debug, PartialEq, Eq, Structural)]
pub struct Registers {
    pub arch: Arch,
    pub original: RegisterSet,
    pub current: RegisterSet,
}

impl RegisterSet {
    /// The value of `register`.
    pub open spec fn spec_get(self, register: Register) -> u64 {
        match register {
            Register::SysNum => self.sys_num,
            Register::SysArg(SysArgIndex::SysArg1) => self.sys_arg1,
            Register::SysArg(SysArgIndex::SysArg2) => self.sys_arg2,
            Register::SysArg(SysArgIndex::SysArg3) => self.sys_arg3,
            Register::SysArg(SysArgIndex::SysArg4) => self.sys_arg4,
            Register::SysArg(SysArgIndex::SysArg5) => self.sys_arg5,
            Register::SysArg(SysArgIndex::SysArg6) => self.sys_arg6,
            Register::SysResult => self.sys_result,
        }
    }

    /// These registers with `value` in `register`.
    pub open spec fn spec_with(self, register: Register, value: u64) -> RegisterSet {
        match register {
            Register::SysNum => RegisterSet { sys_num: value, ..self },
            Register::SysArg(SysArgIndex::SysArg1) => RegisterSet { sys_arg1: value, ..self },
            Register::SysArg(SysArgIndex::SysArg2) => RegisterSet { sys_arg2: value, ..self },
            Register::SysArg(SysArgIndex::SysArg3) => RegisterSet { sys_arg3: value, ..self },
            Register::SysArg(SysArgIndex::SysArg4) => RegisterSet { sys_arg4: value, ..self },
            Register::SysArg(SysArgIndex::SysArg5) => RegisterSet { sys_arg5: value, ..self },
            Register::SysArg(SysArgIndex::SysArg6) => RegisterSet { sys_arg6: value, ..self },
            Register::SysResult => RegisterSet { sys_result: value, ..self },
        }
    }
}

impl Registers {
    /// The registers of a process that has just entered a call: both
    /// versions are `on_entry`.
    pub fn new(arch: Arch, on_entry: RegisterSet) -> (regs: Registers)
        ensures
            regs == (Registers { arch, original: on_entry, current: on_entry }),
    {
        Registers { arch, original: on_entry, current: on_entry }
    }

    /// The registers of `version`.
    pub open spec fn version(self, version: RegVersion) -> RegisterSet {
        match version {
            RegVersion::Current => self.current,
            RegVersion::Original => self.original,
        }
    }

    /// The value of `register` in `version`.
    pub fn get(&self, version: RegVersion, register: Register) -> (value: u64)
        ensures
            value == self.version(version).spec_get(register),
    {
        let set = match version {
            RegVersion::Current => &self.current,
            RegVersion::Original => &self.original,
        };
        match register {
            Register::SysNum => set.sys_num,
            Register::SysArg(SysArgIndex::SysArg1) => set.sys_arg1,
            Register::SysArg(SysArgIndex::SysArg2) => set.sys_arg2,
            Register::SysArg(SysArgIndex::SysArg3) => set.sys_arg3,
            Register::SysArg(SysArgIndex::SysArg4) => set.sys_arg4,
            Register::SysArg(SysArgIndex::SysArg5) => set.sys_arg5,
            Register::SysArg(SysArgIndex::SysArg6) => set.sys_arg6,
            Register::SysResult => set.sys_result,
        }
    }

    /// The number of the call in `version`.
    pub fn get_sys_num(&self, version: RegVersion) -> (sysnum: u64)
        ensures
            sysnum == self.version(version).sys_num,
    {
        self.get(version, Register::SysNum)
    }

    /// Puts `value` into `register` of the current version. The original
    /// version keeps what it holds.
    pub fn set(&mut self, register: Register, value: u64)
        ensures
            *final(self) == (Registers {
                current: old(self).current.spec_with(register, value),
                ..*old(self)
            }),
    {
        match register {
            Register::SysNum => self.current.sys_num = value,
            Register::SysArg(SysArgIndex::SysArg1) => self.current.sys_arg1 = value,
            Register::SysArg(SysArgIndex::SysArg2) => self.current.sys_arg2 = value,
            Register::SysArg(SysArgIndex::SysArg3) => self.current.sys_arg3 = value,
            Register::SysArg(SysArgIndex::SysArg4) => self.current.sys_arg4 = value,
            Register::SysArg(SysArgIndex::SysArg5) => self.current.sys_arg5 = value,
            Register::SysArg(SysArgIndex::SysArg6) => self.current.sys_arg6 = value,
            Register::SysResult => self.current.sys_result = value,
        }
    }
}

} // verus!
