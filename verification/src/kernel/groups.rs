//! The groups of system calls: which arguments of a call are paths.

use vstd::prelude::*;
use crate::arch::Arch;
use crate::kernel::sysno::{
    name_of_syscall, name_view, syscall_name, syscall_named, Syscall,
};

verus! {

/// System calls by the shape of their arguments. The group tells which
/// arguments hold a path and whether the path follows a symbolic link; it
/// holds no path itself.
#[derive(Clone, Copy, Debug, PartialEq, Eq, Structural)]
pub enum SyscallGroup {
    Ignored,
    Execve,
    Ptrace,
    Wait,
    Brk,
    GetCwd,
    Chdir,
    BindConnect,
    Accept,
    GetSockOrPeerName,
    SocketCall,
    /// Calls whose first argument is a path that follows links.
    StandardSyscall,
    Open,
    StatAt,
    ChmodAccessMkNodAt,
    InotifyAddWatch,
    DirLinkAttr,
    PivotRoot,
    LinkAt,
    Mount,
    OpenAt,
    Link,
    ReadLink,
    ReadLinkAt,
    Rename,
    RenameAt,
    SymLink,
    SymLinkAt,
    Uname,
    UnlinkMkdirAt,
}

/// The group of `syscall` on `arch`. A call that `arch` does not have is
/// ignored there.
pub open spec fn group_of(arch: Arch, syscall: Syscall) -> SyscallGroup {
    match syscall {
        Syscall::Execve => SyscallGroup::Execve,
        Syscall::Ptrace => SyscallGroup::Ptrace,
        Syscall::Wait4 => SyscallGroup::Wait,
        Syscall::Waitpid => if arch == Arch::X86 {
            SyscallGroup::Wait
        } else {
            SyscallGroup::Ignored
        },
        Syscall::Brk => SyscallGroup::Brk,
        Syscall::Getcwd => SyscallGroup::GetCwd,
        Syscall::Fchdir => SyscallGroup::Chdir,
        Syscall::Chdir => SyscallGroup::Chdir,
        Syscall::Bind => SyscallGroup::BindConnect,
        Syscall::Connect => SyscallGroup::BindConnect,
        Syscall::Accept => if arch == Arch::X86_64 || arch == Arch::Arm || arch == Arch::Aarch64 {
            SyscallGroup::Accept
        } else {
            SyscallGroup::Ignored
        },
        Syscall::Accept4 => SyscallGroup::Accept,
        Syscall::Getsockname => SyscallGroup::GetSockOrPeerName,
        Syscall::Getpeername => SyscallGroup::GetSockOrPeerName,
        Syscall::Socketcall => if arch == Arch::X86 {
            SyscallGroup::SocketCall
        } else {
            SyscallGroup::Ignored
        },
        Syscall::Acct => SyscallGroup::StandardSyscall,
        Syscall::Chroot => SyscallGroup::StandardSyscall,
        Syscall::Getxattr => SyscallGroup::StandardSyscall,
        Syscall::Listxattr => SyscallGroup::StandardSyscall,
        Syscall::Removexattr => SyscallGroup::StandardSyscall,
        Syscall::Setxattr => SyscallGroup::StandardSyscall,
        Syscall::Swapoff => SyscallGroup::StandardSyscall,
        Syscall::Swapon => SyscallGroup::StandardSyscall,
        Syscall::Truncate => SyscallGroup::StandardSyscall,
        Syscall::Umount2 => SyscallGroup::StandardSyscall,
        Syscall::Oldstat => if arch == Arch::X86 {
            SyscallGroup::StandardSyscall
        } else {
            SyscallGroup::Ignored
        },
        Syscall::Umount => if arch == Arch::X86 {
            SyscallGroup::StandardSyscall
        } else {
            SyscallGroup::Ignored
        },
        Syscall::Chown32 => if arch == Arch::X86 || arch == Arch::Arm {
            SyscallGroup::StandardSyscall
        } else {
            SyscallGroup::Ignored
        },
        Syscall::Stat64 => if arch == Arch::X86 || arch == Arch::Arm {
            SyscallGroup::StandardSyscall
        } else {
            SyscallGroup::Ignored
        },
        Syscall::Statfs64 => if arch == Arch::X86 || arch == Arch::Arm {
            SyscallGroup::StandardSyscall
        } else {
            SyscallGroup::Ignored
        },
        Syscall::Truncate64 => if arch == Arch::X86 || arch == Arch::Arm {
            SyscallGroup::StandardSyscall
        } else {
            SyscallGroup::Ignored
        },
        Syscall::Utime => if arch == Arch::X86 || arch == Arch::X86_64 {
            SyscallGroup::StandardSyscall
        } else {
            SyscallGroup::Ignored
        },
        Syscall::Access => if arch == Arch::X86 || arch == Arch::X86_64 || arch == Arch::Arm {
            SyscallGroup::StandardSyscall
        } else {
            SyscallGroup::Ignored
        },
        Syscall::Chmod => if arch == Arch::X86 || arch == Arch::X86_64 || arch == Arch::Arm {
            SyscallGroup::StandardSyscall
        } else {
            SyscallGroup::Ignored
        },
        Syscall::Chown => if arch == Arch::X86 || arch == Arch::X86_64 || arch == Arch::Arm {
            SyscallGroup::StandardSyscall
        } else {
            SyscallGroup::Ignored
        },
        Syscall::Mknod => if arch == Arch::X86 || arch == Arch::X86_64 || arch == Arch::Arm {
            SyscallGroup::StandardSyscall
        } else {
            SyscallGroup::Ignored
        },
        Syscall::Creat => if arch == Arch::X86 || arch == Arch::X86_64 || arch == Arch::Arm {
            SyscallGroup::StandardSyscall
        } else {
            SyscallGroup::Ignored
        },
        Syscall::Stat => if arch == Arch::X86 || arch == Arch::X86_64 || arch == Arch::Arm {
            SyscallGroup::StandardSyscall
        } else {
            SyscallGroup::Ignored
        },
        Syscall::Uselib => if arch == Arch::X86 || arch == Arch::X86_64 || arch == Arch::Arm {
            SyscallGroup::StandardSyscall
        } else {
            SyscallGroup::Ignored
        },
        Syscall::Utimes => if arch == Arch::X86 || arch == Arch::X86_64 || arch == Arch::Arm {
            SyscallGroup::StandardSyscall
        } else {
            SyscallGroup::Ignored
        },
        Syscall::Open => if arch == Arch::X86 || arch == Arch::X86_64 || arch == Arch::Arm {
            SyscallGroup::Open
        } else {
            SyscallGroup::Ignored
        },
        Syscall::Fchownat => SyscallGroup::StatAt,
        Syscall::Utimensat => SyscallGroup::StatAt,
        Syscall::NameToHandleAt => SyscallGroup::StatAt,
        Syscall::Statx => SyscallGroup::StatAt,
        Syscall::Fstatat64 => if arch == Arch::X86 || arch == Arch::Arm {
            SyscallGroup::StatAt
        } else {
            SyscallGroup::Ignored
        },
        Syscall::Newfstatat => if arch == Arch::X86_64 || arch == Arch::Aarch64 {
            SyscallGroup::StatAt
        } else {
            SyscallGroup::Ignored
        },
        Syscall::Fstatat => if arch == Arch::Aarch64 {
            SyscallGroup::StatAt
        } else {
            SyscallGroup::Ignored
        },
        Syscall::Fchmodat => SyscallGroup::ChmodAccessMkNodAt,
        Syscall::Faccessat => SyscallGroup::ChmodAccessMkNodAt,
        Syscall::Mknodat => SyscallGroup::ChmodAccessMkNodAt,
        Syscall::Futimesat => if arch == Arch::X86 || arch == Arch::X86_64 || arch == Arch::Arm {
            SyscallGroup::ChmodAccessMkNodAt
        } else {
            SyscallGroup::Ignored
        },
        Syscall::InotifyAddWatch => SyscallGroup::InotifyAddWatch,
        Syscall::Lgetxattr => SyscallGroup::DirLinkAttr,
        Syscall::Llistxattr => SyscallGroup::DirLinkAttr,
        Syscall::Lremovexattr => SyscallGroup::DirLinkAttr,
        Syscall::Lsetxattr => SyscallGroup::DirLinkAttr,
        Syscall::Oldlstat => if arch == Arch::X86 {
            SyscallGroup::DirLinkAttr
        } else {
            SyscallGroup::Ignored
        },
        Syscall::Lchown32 => if arch == Arch::X86 || arch == Arch::Arm {
            SyscallGroup::DirLinkAttr
        } else {
            SyscallGroup::Ignored
        },
        Syscall::Lstat64 => if arch == Arch::X86 || arch == Arch::Arm {
            SyscallGroup::DirLinkAttr
        } else {
            SyscallGroup::Ignored
        },
        Syscall::Lchown => if arch == Arch::X86 || arch == Arch::X86_64 || arch == Arch::Arm {
            SyscallGroup::DirLinkAttr
        } else {
            SyscallGroup::Ignored
        },
        Syscall::Lstat => if arch == Arch::X86 || arch == Arch::X86_64 || arch == Arch::Arm {
            SyscallGroup::DirLinkAttr
        } else {
            SyscallGroup::Ignored
        },
        Syscall::Unlink => if arch == Arch::X86 || arch == Arch::X86_64 || arch == Arch::Arm {
            SyscallGroup::DirLinkAttr
        } else {
            SyscallGroup::Ignored
        },
        Syscall::Rmdir => if arch == Arch::X86 || arch == Arch::X86_64 || arch == Arch::Arm {
            SyscallGroup::DirLinkAttr
        } else {
            SyscallGroup::Ignored
        },
        Syscall::Mkdir => if arch == Arch::X86 || arch == Arch::X86_64 || arch == Arch::Arm {
            SyscallGroup::DirLinkAttr
        } else {
            SyscallGroup::Ignored
        },
        Syscall::PivotRoot => SyscallGroup::PivotRoot,
        Syscall::Linkat => SyscallGroup::LinkAt,
        Syscall::Mount => SyscallGroup::Mount,
        Syscall::Openat => SyscallGroup::OpenAt,
        Syscall::Readlink => if arch == Arch::X86 || arch == Arch::X86_64 || arch == Arch::Arm {
            SyscallGroup::ReadLink
        } else {
            SyscallGroup::Ignored
        },
        Syscall::Readlinkat => SyscallGroup::ReadLinkAt,
        Syscall::Unlinkat => SyscallGroup::UnlinkMkdirAt,
        Syscall::Mkdirat => SyscallGroup::UnlinkMkdirAt,
        Syscall::Link => if arch == Arch::X86 || arch == Arch::X86_64 || arch == Arch::Arm {
            SyscallGroup::Link
        } else {
            SyscallGroup::Ignored
        },
        Syscall::Rename => if arch == Arch::X86 || arch == Arch::X86_64 || arch == Arch::Arm {
            SyscallGroup::Rename
        } else {
            SyscallGroup::Ignored
        },
        Syscall::Renameat => SyscallGroup::RenameAt,
        Syscall::Symlink => if arch == Arch::X86 || arch == Arch::X86_64 || arch == Arch::Arm {
            SyscallGroup::SymLink
        } else {
            SyscallGroup::Ignored
        },
        Syscall::Symlinkat => SyscallGroup::SymLinkAt,
        Syscall::Uname => SyscallGroup::Uname,
        _ => SyscallGroup::Ignored,
    }
}

/// The group of `syscall` on `arch`: which of its arguments are paths.
pub fn syscall_group(arch: Arch, syscall: Syscall) -> (group: SyscallGroup)
    ensures
        group == group_of(arch, syscall),
{
    match syscall {
        Syscall::Execve => SyscallGroup::Execve,
        Syscall::Ptrace => SyscallGroup::Ptrace,
        Syscall::Wait4 => SyscallGroup::Wait,
        Syscall::Waitpid => match arch {
            Arch::X86 => SyscallGroup::Wait,
            _ => SyscallGroup::Ignored,
        },
        Syscall::Brk => SyscallGroup::Brk,
        Syscall::Getcwd => SyscallGroup::GetCwd,
        Syscall::Fchdir => SyscallGroup::Chdir,
        Syscall::Chdir => SyscallGroup::Chdir,
        Syscall::Bind => SyscallGroup::BindConnect,
        Syscall::Connect => SyscallGroup::BindConnect,
        Syscall::Accept => match arch {
            Arch::X86_64 | Arch::Arm | Arch::Aarch64 => SyscallGroup::Accept,
            _ => SyscallGroup::Ignored,
        },
        Syscall::Accept4 => SyscallGroup::Accept,
        Syscall::Getsockname => SyscallGroup::GetSockOrPeerName,
        Syscall::Getpeername => SyscallGroup::GetSockOrPeerName,
        Syscall::Socketcall => match arch {
            Arch::X86 => SyscallGroup::SocketCall,
            _ => SyscallGroup::Ignored,
        },
        Syscall::Acct => SyscallGroup::StandardSyscall,
        Syscall::Chroot => SyscallGroup::StandardSyscall,
        Syscall::Getxattr => SyscallGroup::StandardSyscall,
        Syscall::Listxattr => SyscallGroup::StandardSyscall,
        Syscall::Removexattr => SyscallGroup::StandardSyscall,
        Syscall::Setxattr => SyscallGroup::StandardSyscall,
        Syscall::Swapoff => SyscallGroup::StandardSyscall,
        Syscall::Swapon => SyscallGroup::StandardSyscall,
        Syscall::Truncate => SyscallGroup::StandardSyscall,
        Syscall::Umount2 => SyscallGroup::StandardSyscall,
        Syscall::Oldstat => match arch {
            Arch::X86 => SyscallGroup::StandardSyscall,
            _ => SyscallGroup::Ignored,
        },
        Syscall::Umount => match arch {
            Arch::X86 => SyscallGroup::StandardSyscall,
            _ => SyscallGroup::Ignored,
        },
        Syscall::Chown32 => match arch {
            Arch::X86 | Arch::Arm => SyscallGroup::StandardSyscall,
            _ => SyscallGroup::Ignored,
        },
        Syscall::Stat64 => match arch {
            Arch::X86 | Arch::Arm => SyscallGroup::StandardSyscall,
            _ => SyscallGroup::Ignored,
        },
        Syscall::Statfs64 => match arch {
            Arch::X86 | Arch::Arm => SyscallGroup::StandardSyscall,
            _ => SyscallGroup::Ignored,
        },
        Syscall::Truncate64 => match arch {
            Arch::X86 | Arch::Arm => SyscallGroup::StandardSyscall,
            _ => SyscallGroup::Ignored,
        },
        Syscall::Utime => match arch {
            Arch::X86 | Arch::X86_64 => SyscallGroup::StandardSyscall,
            _ => SyscallGroup::Ignored,
        },
        Syscall::Access => match arch {
            Arch::X86 | Arch::X86_64 | Arch::Arm => SyscallGroup::StandardSyscall,
            _ => SyscallGroup::Ignored,
        },
        Syscall::Chmod => match arch {
            Arch::X86 | Arch::X86_64 | Arch::Arm => SyscallGroup::StandardSyscall,
            _ => SyscallGroup::Ignored,
        },
        Syscall::Chown => match arch {
            Arch::X86 | Arch::X86_64 | Arch::Arm => SyscallGroup::StandardSyscall,
            _ => SyscallGroup::Ignored,
        },
        Syscall::Mknod => match arch {
            Arch::X86 | Arch::X86_64 | Arch::Arm => SyscallGroup::StandardSyscall,
            _ => SyscallGroup::Ignored,
        },
        Syscall::Creat => match arch {
            Arch::X86 | Arch::X86_64 | Arch::Arm => SyscallGroup::StandardSyscall,
            _ => SyscallGroup::Ignored,
        },
        Syscall::Stat => match arch {
            Arch::X86 | Arch::X86_64 | Arch::Arm => SyscallGroup::StandardSyscall,
            _ => SyscallGroup::Ignored,
        },
        Syscall::Uselib => match arch {
            Arch::X86 | Arch::X86_64 | Arch::Arm => SyscallGroup::StandardSyscall,
            _ => SyscallGroup::Ignored,
        },
        Syscall::Utimes => match arch {
            Arch::X86 | Arch::X86_64 | Arch::Arm => SyscallGroup::StandardSyscall,
            _ => SyscallGroup::Ignored,
        },
        Syscall::Open => match arch {
            Arch::X86 | Arch::X86_64 | Arch::Arm => SyscallGroup::Open,
            _ => SyscallGroup::Ignored,
        },
        Syscall::Fchownat => SyscallGroup::StatAt,
        Syscall::Utimensat => SyscallGroup::StatAt,
        Syscall::NameToHandleAt => SyscallGroup::StatAt,
        Syscall::Statx => SyscallGroup::StatAt,
        Syscall::Fstatat64 => match arch {
            Arch::X86 | Arch::Arm => SyscallGroup::StatAt,
            _ => SyscallGroup::Ignored,
        },
        Syscall::Newfstatat => match arch {
            Arch::X86_64 | Arch::Aarch64 => SyscallGroup::StatAt,
            _ => SyscallGroup::Ignored,
        },
        Syscall::Fstatat => match arch {
            Arch::Aarch64 => SyscallGroup::StatAt,
            _ => SyscallGroup::Ignored,
        },
        Syscall::Fchmodat => SyscallGroup::ChmodAccessMkNodAt,
        Syscall::Faccessat => SyscallGroup::ChmodAccessMkNodAt,
        Syscall::Mknodat => SyscallGroup::ChmodAccessMkNodAt,
        Syscall::Futimesat => match arch {
            Arch::X86 | Arch::X86_64 | Arch::Arm => SyscallGroup::ChmodAccessMkNodAt,
            _ => SyscallGroup::Ignored,
        },
        Syscall::InotifyAddWatch => SyscallGroup::InotifyAddWatch,
        Syscall::Lgetxattr => SyscallGroup::DirLinkAttr,
        Syscall::Llistxattr => SyscallGroup::DirLinkAttr,
        Syscall::Lremovexattr => SyscallGroup::DirLinkAttr,
        Syscall::Lsetxattr => SyscallGroup::DirLinkAttr,
        Syscall::Oldlstat => match arch {
            Arch::X86 => SyscallGroup::DirLinkAttr,
            _ => SyscallGroup::Ignored,
        },
        Syscall::Lchown32 => match arch {
            Arch::X86 | Arch::Arm => SyscallGroup::DirLinkAttr,
            _ => SyscallGroup::Ignored,
        },
        Syscall::Lstat64 => match arch {
            Arch::X86 | Arch::Arm => SyscallGroup::DirLinkAttr,
            _ => SyscallGroup::Ignored,
        },
        Syscall::Lchown => match arch {
            Arch::X86 | Arch::X86_64 | Arch::Arm => SyscallGroup::DirLinkAttr,
            _ => SyscallGroup::Ignored,
        },
        Syscall::Lstat => match arch {
            Arch::X86 | Arch::X86_64 | Arch::Arm => SyscallGroup::DirLinkAttr,
            _ => SyscallGroup::Ignored,
        },
        Syscall::Unlink => match arch {
            Arch::X86 | Arch::X86_64 | Arch::Arm => SyscallGroup::DirLinkAttr,
            _ => SyscallGroup::Ignored,
        },
        Syscall::Rmdir => match arch {
            Arch::X86 | Arch::X86_64 | Arch::Arm => SyscallGroup::DirLinkAttr,
            _ => SyscallGroup::Ignored,
        },
        Syscall::Mkdir => match arch {
            Arch::X86 | Arch::X86_64 | Arch::Arm => SyscallGroup::DirLinkAttr,
            _ => SyscallGroup::Ignored,
        },
        Syscall::PivotRoot => SyscallGroup::PivotRoot,
        Syscall::Linkat => SyscallGroup::LinkAt,
        Syscall::Mount => SyscallGroup::Mount,
        Syscall::Openat => SyscallGroup::OpenAt,
        Syscall::Readlink => match arch {
            Arch::X86 | Arch::X86_64 | Arch::Arm => SyscallGroup::ReadLink,
            _ => SyscallGroup::Ignored,
        },
        Syscall::Readlinkat => SyscallGroup::ReadLinkAt,
        Syscall::Unlinkat => SyscallGroup::UnlinkMkdirAt,
        Syscall::Mkdirat => SyscallGroup::UnlinkMkdirAt,
        Syscall::Link => match arch {
            Arch::X86 | Arch::X86_64 | Arch::Arm => SyscallGroup::Link,
            _ => SyscallGroup::Ignored,
        },
        Syscall::Rename => match arch {
            Arch::X86 | Arch::X86_64 | Arch::Arm => SyscallGroup::Rename,
            _ => SyscallGroup::Ignored,
        },
        Syscall::Renameat => SyscallGroup::RenameAt,
        Syscall::Symlink => match arch {
            Arch::X86 | Arch::X86_64 | Arch::Arm => SyscallGroup::SymLink,
            _ => SyscallGroup::Ignored,
        },
        Syscall::Symlinkat => SyscallGroup::SymLinkAt,
        Syscall::Uname => SyscallGroup::Uname,
        _ => SyscallGroup::Ignored,
    }
}

/// The group of the call that goes by `name` on `arch`; a name that the
/// tracer does not know, and no name, are ignored.
pub open spec fn group_of_name(arch: Arch, name: Option<Seq<char>>) -> SyscallGroup {
    match name {
        Some(name) => match syscall_named(name) {
            Some(syscall) => group_of(arch, syscall),
            None => SyscallGroup::Ignored,
        },
        None => SyscallGroup::Ignored,
    }
}

/// The group of the call with the number `sysnum` on `arch`.
pub open spec fn group_of_sysnum(arch: Arch, sysnum: i64) -> SyscallGroup {
    if 0 <= sysnum <= usize::MAX {
        group_of_name(arch, syscall_name(arch, sysnum as usize))
    } else {
        SyscallGroup::Ignored
    }
}

/// The group of the call that goes by `name` on `arch`.
pub fn syscall_group_from_name(arch: Arch, name: Option<&str>) -> (group: SyscallGroup)
    ensures
        group == group_of_name(arch, name_view(name)),
{
    match name {
        Some(name) => match Syscall::from_name(name) {
            Some(syscall) => syscall_group(arch, syscall),
            None => SyscallGroup::Ignored,
        },
        None => SyscallGroup::Ignored,
    }
}

/// The group of the call with the number `sysnum` on `arch`.
///
/// Every number has exactly one group. A number that is the number of no
/// call on `arch`, a negative one among them, is [`SyscallGroup::Ignored`],
/// and so is the number of a call that takes no path.
pub fn syscall_group_from_sysnum(arch: Arch, sysnum: i64) -> (group: SyscallGroup)
    ensures
        group == group_of_sysnum(arch, sysnum),
{
    if sysnum < 0 || sysnum as u64 > usize::MAX as u64 {
        return SyscallGroup::Ignored;
    }
    let name = name_of_syscall(arch, sysnum as usize);
    syscall_group_from_name(arch, name)
}

/// Every number has a group, and a number that is the number of no call on
/// `arch` has the group [`SyscallGroup::Ignored`]: a number that is negative
/// or too large to count calls, and a number that the table of `arch` does
/// not hold.
pub proof fn lemma_unknown_number_is_ignored(arch: Arch, sysnum: i64)
    requires
        !(0 <= sysnum <= usize::MAX) || syscall_name(arch, sysnum as usize) is None,
    ensures
        group_of_sysnum(arch, sysnum) == SyscallGroup::Ignored,
{
}

/// A call that `arch` is not known to have is ignored there, whatever its
/// name: the group of a name is the group of the call that goes by it, and
/// a name that belongs to no call that the tracer knows is ignored.
pub proof fn lemma_group_goes_by_name(arch: Arch, name: Seq<char>)
    ensures
        syscall_named(name) is None ==> group_of_name(arch, Some(name)) == SyscallGroup::Ignored,
        syscall_named(name) matches Some(syscall) ==> group_of_name(arch, Some(name)) == group_of(
            arch,
            syscall,
        ),
{
}

} // verus!
