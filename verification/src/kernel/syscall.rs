//! The overrides that the tracer applies to a system call before the kernel
//! sees it: a faked superuser identity, and symbolic links in place of hard
//! links.

use vstd::prelude::*;
use crate::arch::Arch;
use crate::kernel::sysno::{
    aarch64_syscall_name, arm_syscall_name, lemma_link_names, syscall_from_sysnum, syscall_name,
    syscall_numbered, x86_64_syscall_name, x86_syscall_name, Syscall,
};
use crate::process::Tracee;
use crate::register::{RegVersion, Register, RegisterSet, Registers, SysArgIndex};
use crate::utils::Config;

verus! {

/// Reads `syscalls::x86::Sysno::symlinkat`. Trusted: the table of that crate
/// gives `symlinkat` the number 304, and that number the name
/// `symlinkat`.
#[verifier::external_body]
fn x86_symlinkat() -> (n: u64)
    ensures
        n == 304,
        x86_syscall_name(n as usize) == Some("symlinkat"@),
{
    syscalls::x86::Sysno::symlinkat as u64
}

/// Reads `syscalls::x86_64::Sysno::symlinkat`. Trusted: the table of that
/// crate gives `symlinkat` the number 266, and that number the name
/// `symlinkat`.
#[verifier::external_body]
fn x86_64_symlinkat() -> (n: u64)
    ensures
        n == 266,
        x86_64_syscall_name(n as usize) == Some("symlinkat"@),
{
    syscalls::x86_64::Sysno::symlinkat as u64
}

/// Reads `syscalls::arm::Sysno::symlinkat`. Trusted: the table of that crate
/// gives `symlinkat` the number 331, and that number the name
/// `symlinkat`.
#[verifier::external_body]
fn arm_symlinkat() -> (n: u64)
    ensures
        n == 331,
        arm_syscall_name(n as usize) == Some("symlinkat"@),
{
    syscalls::arm::Sysno::symlinkat as u64
}

/// Reads `syscalls::aarch64::Sysno::symlinkat`. Trusted: the table of that
/// crate gives `symlinkat` the number 36, and that number the name
/// `symlinkat`.
#[verifier::external_body]
fn aarch64_symlinkat() -> (n: u64)
    ensures
        n == 36,
        aarch64_syscall_name(n as usize) == Some("symlinkat"@),
{
    syscalls::aarch64::Sysno::symlinkat as u64
}

/// The number of `symlinkat` on `arch`.
pub open spec fn symlinkat_number(arch: Arch) -> u64 {
    match arch {
        Arch::X86 => 304,
        Arch::X86_64 => 266,
        Arch::Arm => 331,
        Arch::Aarch64 => 36,
    }
}

/// The number of `symlinkat` on `arch`.
pub fn symlinkat_sysnum(arch: Arch) -> (n: u64)
    ensures
        n == symlinkat_number(arch),
        syscall_name(arch, n as usize) == Some("symlinkat"@),
{
    match arch {
        Arch::X86 => x86_symlinkat(),
        Arch::X86_64 => x86_64_symlinkat(),
        Arch::Arm => arm_symlinkat(),
        Arch::Aarch64 => aarch64_symlinkat(),
    }
}

/// The system call that the process entered, if the tracer knows it.
pub open spec fn entered(regs: Registers) -> Option<Syscall> {
    if regs.original.sys_num <= usize::MAX {
        syscall_numbered(regs.arch, regs.original.sys_num as usize)
    } else {
        None
    }
}

/// Whether `syscall` asks who the process is.
pub open spec fn asks_identity(syscall: Syscall) -> bool {
    syscall == Syscall::Getuid || syscall == Syscall::Geteuid || syscall == Syscall::Getgid
        || syscall == Syscall::Getegid || syscall == Syscall::Getresuid || syscall
        == Syscall::Getresgid
}

/// Whether `syscall` changes the owner of a file.
pub open spec fn changes_owner(syscall: Syscall) -> bool {
    syscall == Syscall::Chown || syscall == Syscall::Fchown || syscall == Syscall::Lchown
}

/// The registers with the result 0 in place.
pub open spec fn with_result_zero(regs: Registers) -> Registers {
    Registers { current: RegisterSet { sys_result: 0, ..regs.current }, ..regs }
}

/// The registers of a call `symlinkat(target, newdirfd, linkpath)` in place
/// of the entered call; nothing else changes.
pub open spec fn as_symlinkat(regs: Registers, target: u64, newdirfd: u64, linkpath: u64)
    -> Registers {
    Registers {
        current: RegisterSet {
            sys_num: symlinkat_number(regs.arch),
            sys_arg1: target,
            sys_arg2: newdirfd,
            sys_arg3: linkpath,
            ..regs.current
        },
        ..regs
    }
}

/// The registers after the overrides for `syscall`.
///
/// `linkat(olddirfd, oldpath, newdirfd, newpath, flags)` becomes
/// `symlinkat(oldpath, newdirfd, newpath)`; `link(oldpath, newpath)` becomes
/// `symlinkat(oldpath, AT_FDCWD, newpath)`.
pub open spec fn overridden(regs: Registers, syscall: Option<Syscall>, config: Config)
    -> Registers {
    match syscall {
        Some(s) => if asks_identity(s) || changes_owner(s) {
            if config.root_id {
                with_result_zero(regs)
            } else {
                regs
            }
        } else if s == Syscall::Linkat {
            if config.link2symlink {
                as_symlinkat(
                    regs,
                    regs.original.sys_arg2,
                    regs.original.sys_arg3,
                    regs.original.sys_arg4,
                )
            } else {
                regs
            }
        } else if s == Syscall::Link {
            if config.link2symlink {
                as_symlinkat(
                    regs,
                    regs.original.sys_arg1,
                    (regs.arch.spec_word_max() - 99) as u64,
                    regs.original.sys_arg2,
                )
            } else {
                regs
            }
        } else {
            regs
        },
        None => regs,
    }
}

/// Whether the call that was entered is one that makes a hard link, and hard
/// links are to become symbolic links.
pub open spec fn rewrites_link(regs: Registers, config: Config) -> bool {
    config.link2symlink && (entered(regs) == Some(Syscall::Linkat) || entered(regs) == Some(
        Syscall::Link,
    ))
}

/// Applies the overrides for `syscall` to the registers.
pub fn override_syscall(regs: &mut Registers, syscall: Option<Syscall>, config: &Config)
    ensures
        *final(regs) == overridden(*old(regs), syscall, *config),
        config.link2symlink && (syscall == Some(Syscall::Linkat) || syscall == Some(
            Syscall::Link,
        )) ==> syscall_name(old(regs).arch, final(regs).current.sys_num as usize) == Some(
            "symlinkat"@,
        ),
{
    match syscall {
        Some(Syscall::Getuid)
        | Some(Syscall::Geteuid)
        | Some(Syscall::Getgid)
        | Some(Syscall::Getegid)
        | Some(Syscall::Getresuid)
        | Some(Syscall::Getresgid)
        | Some(Syscall::Chown)
        | Some(Syscall::Fchown)
        | Some(Syscall::Lchown) => {
            if config.root_id {
                regs.set(Register::SysResult, 0);
            }
        },
        Some(Syscall::Linkat) => {
            if config.link2symlink {
                let oldpath = regs.get(RegVersion::Original, Register::SysArg(SysArgIndex::SysArg2));
                let newdirfd = regs.get(
                    RegVersion::Original,
                    Register::SysArg(SysArgIndex::SysArg3),
                );
                let newpath = regs.get(RegVersion::Original, Register::SysArg(SysArgIndex::SysArg4));
                regs.set(Register::SysNum, symlinkat_sysnum(regs.arch));
                regs.set(Register::SysArg(SysArgIndex::SysArg1), oldpath);
                regs.set(Register::SysArg(SysArgIndex::SysArg2), newdirfd);
                regs.set(Register::SysArg(SysArgIndex::SysArg3), newpath);
            }
        },
        Some(Syscall::Link) => {
            if config.link2symlink {
                let oldpath = regs.get(RegVersion::Original, Register::SysArg(SysArgIndex::SysArg1));
                let newpath = regs.get(RegVersion::Original, Register::SysArg(SysArgIndex::SysArg2));
                regs.set(Register::SysNum, symlinkat_sysnum(regs.arch));
                regs.set(Register::SysArg(SysArgIndex::SysArg1), oldpath);
                regs.set(Register::SysArg(SysArgIndex::SysArg2), regs.arch.word_max() - 99);
                regs.set(Register::SysArg(SysArgIndex::SysArg3), newpath);
            }
        },
        _ => {},
    }
}

/// Applies the overrides to the call that `tracee` has entered, before the
/// kernel gets to see it.
///
/// With `root_id`, a call that asks for the identity of the process and a
/// call that changes the owner of a file get the result 0. With
/// `link2symlink`, `link` and `linkat` become `symlinkat`, whose number is a
/// different one than the number on entry. Every other call,
/// and every call with both switches off, passes unchanged. The registers as
/// they were on entry are never changed.
pub fn handle_syscall(tracee: &mut Tracee, config: &Config)
    ensures
        final(tracee).pid == old(tracee).pid,
        final(tracee).regs == overridden(old(tracee).regs, entered(old(tracee).regs), *config),
        rewrites_link(old(tracee).regs, *config) ==> final(tracee).regs.current.sys_num != old(
            tracee,
        ).regs.original.sys_num && syscall_name(
            old(tracee).regs.arch,
            final(tracee).regs.current.sys_num as usize,
        ) == Some("symlinkat"@),
{
    let sysnum = tracee.regs.get_sys_num(RegVersion::Original);
    let syscall = if sysnum > usize::MAX as u64 {
        None
    } else {
        syscall_from_sysnum(tracee.regs.arch, sysnum as usize)
    };
    override_syscall(&mut tracee.regs, syscall, config);
    proof {
        if rewrites_link(old(tracee).regs, *config) {
            lemma_link_names(syscall_name(old(tracee).regs.arch, sysnum as usize)->0);
        }
    }
}

/// Applies the overrides to the call that `tracee` has entered, as
/// [`handle_syscall`] does. `msg` says where in the tracer the call was
/// seen; it changes nothing.
pub fn print_syscall<M: std::fmt::Display>(tracee: &mut Tracee, msg: M, config: &Config)
    ensures
        final(tracee).pid == old(tracee).pid,
        final(tracee).regs == overridden(old(tracee).regs, entered(old(tracee).regs), *config),
        rewrites_link(old(tracee).regs, *config) ==> final(tracee).regs.current.sys_num != old(
            tracee,
        ).regs.original.sys_num && syscall_name(
            old(tracee).regs.arch,
            final(tracee).regs.current.sys_num as usize,
        ) == Some("symlinkat"@),
{
    handle_syscall(tracee, config);
}

/// With `link2symlink`, `linkat(_, P, D, Q, _)` becomes `symlinkat(P, D, Q)`:
/// the number is that of `symlinkat`, the three arguments are the path of
/// the existing file, the directory of the new name and the new name, and
/// nothing else changes.
pub proof fn lemma_linkat_becomes_symlinkat(regs: Registers, config: Config)
    requires
        config.link2symlink,
    ensures
        ({
            let after = overridden(regs, Some(Syscall::Linkat), config);
            &&& after.current.sys_num == symlinkat_number(regs.arch)
            &&& after.current.sys_arg1 == regs.original.sys_arg2
            &&& after.current.sys_arg2 == regs.original.sys_arg3
            &&& after.current.sys_arg3 == regs.original.sys_arg4
            &&& after.current.sys_arg4 == regs.current.sys_arg4
            &&& after.current.sys_arg5 == regs.current.sys_arg5
            &&& after.current.sys_arg6 == regs.current.sys_arg6
            &&& after.current.sys_result == regs.current.sys_result
            &&& after.original == regs.original
            &&& after.arch == regs.arch
        }),
{
}

/// With `root_id`, a call that asks for the identity of the process gets the
/// result 0 whatever the registers hold, and keeps its number and its
/// arguments. Without `root_id` it passes unchanged.
pub proof fn lemma_identity_spoofed(regs: Registers, syscall: Syscall, config: Config)
    requires
        asks_identity(syscall),
    ensures
        config.root_id ==> overridden(regs, Some(syscall), config).current == (RegisterSet {
            sys_result: 0,
            ..regs.current
        }),
        !config.root_id ==> overridden(regs, Some(syscall), config) == regs,
        overridden(regs, Some(syscall), config).original == regs.original,
{
}

/// With both switches off, no call is changed.
pub proof fn lemma_no_override_without_switch(
    regs: Registers,
    syscall: Option<Syscall>,
    config: Config,
)
    requires
        !config.root_id,
        !config.link2symlink,
    ensures
        overridden(regs, syscall, config) == regs,
{
}

} // verus!
