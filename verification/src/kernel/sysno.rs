//! System calls by number and by name.
//!
//! Numbers differ from one architecture to the next, and so does which calls
//! exist at all. The tables of the `syscalls` crate turn a number into a
//! name; everything else here goes by the name.

use vstd::prelude::*;
use vstd::string::StrSliceExecFns;
use crate::arch::Arch;

verus! {

/// The name that `syscalls::x86::Sysno` gives the call number `n`, if it is
/// the number of a call there.
pub uninterp spec fn x86_syscall_name(n: usize) -> Option<Seq<char>>;

/// The name that `syscalls::x86_64::Sysno` gives the call number `n`, if it
/// is the number of a call there.
pub uninterp spec fn x86_64_syscall_name(n: usize) -> Option<Seq<char>>;

/// The name that `syscalls::arm::Sysno` gives the call number `n`, if it is
/// the number of a call there.
pub uninterp spec fn arm_syscall_name(n: usize) -> Option<Seq<char>>;

/// The name that `syscalls::aarch64::Sysno` gives the call number `n`, if it
/// is the number of a call there.
pub uninterp spec fn aarch64_syscall_name(n: usize) -> Option<Seq<char>>;

/// The characters of a name, if there is one.
pub open spec fn name_view(name: Option<&str>) -> Option<Seq<char>> {
    match name {
        Some(s) => Some(s@),
        None => None,
    }
}

/// Calls `syscalls::x86::Sysno::new`, then `Sysno::name` on what it found.
/// Trusted: the result is what the table of that crate holds for `n`, which
/// depends on `n` alone.
#[verifier::external_body]
fn x86_name(n: usize) -> (name: Option<&'static str>)
    ensures
        name_view(name) == x86_syscall_name(n),
{
    syscalls::x86::Sysno::new(n).map(|s| s.name())
}

/// Calls `syscalls::x86_64::Sysno::new`, then `Sysno::name` on what it
/// found. Trusted: the result is what the table of that crate holds for `n`,
/// which depends on `n` alone.
#[verifier::external_body]
fn x86_64_name(n: usize) -> (name: Option<&'static str>)
    ensures
        name_view(name) == x86_64_syscall_name(n),
{
    syscalls::x86_64::Sysno::new(n).map(|s| s.name())
}

/// Calls `syscalls::arm::Sysno::new`, then `Sysno::name` on what it found.
/// Trusted: the result is what the table of that crate holds for `n`, which
/// depends on `n` alone.
#[verifier::external_body]
fn arm_name(n: usize) -> (name: Option<&'static str>)
    ensures
        name_view(name) == arm_syscall_name(n),
{
    syscalls::arm::Sysno::new(n).map(|s| s.name())
}

/// Calls `syscalls::aarch64::Sysno::new`, then `Sysno::name` on what it
/// found. Trusted: the result is what the table of that crate holds for `n`,
/// which depends on `n` alone.
#[verifier::external_body]
fn aarch64_name(n: usize) -> (name: Option<&'static str>)
    ensures
        name_view(name) == aarch64_syscall_name(n),
{
    syscalls::aarch64::Sysno::new(n).map(|s| s.name())
}

/// The name of the call with the number `n` on `arch`, if `n` is the number
/// of a call there.
pub open spec fn syscall_name(arch: Arch, n: usize) -> Option<Seq<char>> {
    match arch {
        Arch::X86 => x86_syscall_name(n),
        Arch::X86_64 => x86_64_syscall_name(n),
        Arch::Arm => arm_syscall_name(n),
        Arch::Aarch64 => aarch64_syscall_name(n),
    }
}

/// The name of the call with the number `sysnum` on `arch`; `None` where
/// `sysnum` is the number of no call there.
pub fn name_of_syscall(arch: Arch, sysnum: usize) -> (name: Option<&'static str>)
    ensures
        name_view(name) == syscall_name(arch, sysnum),
{
    match arch {
        Arch::X86 => x86_name(sysnum),
        Arch::X86_64 => x86_64_name(sysnum),
        Arch::Arm => arm_name(sysnum),
        Arch::Aarch64 => aarch64_name(sysnum),
    }
}

/// Whether two strings hold the same characters.
pub fn str_eq(a: &str, b: &str) -> (r: bool)
    ensures
        r == (a@ == b@),
{
    let n = a.unicode_len();
    if n != b.unicode_len() {
        return false;
    }
    let mut i: usize = 0;
    while i < n
        invariant
            n == a@.len(),
            n == b@.len(),
            i <= n,
            forall|j: int| 0 <= j < i ==> a@[j] == b@[j],
        decreases n - i,
    {
        if a.get_char(i) != b.get_char(i) {
            return false;
        }
        i = i + 1;
    }
    assert(a@ =~= b@);
    true
}

/// The system calls that the tracer knows by name.
#[derive(Clone, Copy, Debug, PartialEq, Eq, Structural)]
pub enum Syscall {
    Execve,
    Ptrace,
    Wait4,
    Waitpid,
    Brk,
    Getcwd,
    Fchdir,
    Chdir,
    Bind,
    Connect,
    Accept,
    Accept4,
    Getsockname,
    Getpeername,
    Socketcall,
    Acct,
    Chroot,
    Getxattr,
    Listxattr,
    Removexattr,
    Setxattr,
    Swapoff,
    Swapon,
    Truncate,
    Umount2,
    Oldstat,
    Umount,
    Chown32,
    Stat64,
    Statfs64,
    Truncate64,
    Utime,
    Access,
    Chmod,
    Chown,
    Mknod,
    Creat,
    Stat,
    Uselib,
    Utimes,
    Open,
    Fchownat,
    Utimensat,
    NameToHandleAt,
    Statx,
    Fstatat64,
    Newfstatat,
    Fstatat,
    Fchmodat,
    Faccessat,
    Mknodat,
    Futimesat,
    InotifyAddWatch,
    Lgetxattr,
    Llistxattr,
    Lremovexattr,
    Lsetxattr,
    Oldlstat,
    Lchown32,
    Lstat64,
    Lchown,
    Lstat,
    Unlink,
    Rmdir,
    Mkdir,
    PivotRoot,
    Linkat,
    Mount,
    Openat,
    Readlink,
    Readlinkat,
    Unlinkat,
    Mkdirat,
    Link,
    Rename,
    Renameat,
    Symlink,
    Symlinkat,
    Uname,
    Getuid,
    Geteuid,
    Getgid,
    Getegid,
    Getresuid,
    Getresgid,
    Fchown,
}

/// The system call that goes by `name`, if the tracer knows it.
pub open spec fn syscall_named(name: Seq<char>) -> Option<Syscall> {
    if name == "execve"@ {
        Some(Syscall::Execve)
    } else if name == "ptrace"@ {
        Some(Syscall::Ptrace)
    } else if name == "wait4"@ {
        Some(Syscall::Wait4)
    } else if name == "waitpid"@ {
        Some(Syscall::Waitpid)
    } else if name == "brk"@ {
        Some(Syscall::Brk)
    } else if name == "getcwd"@ {
        Some(Syscall::Getcwd)
    } else if name == "fchdir"@ {
        Some(Syscall::Fchdir)
    } else if name == "chdir"@ {
        Some(Syscall::Chdir)
    } else if name == "bind"@ {
        Some(Syscall::Bind)
    } else if name == "connect"@ {
        Some(Syscall::Connect)
    } else if name == "accept"@ {
        Some(Syscall::Accept)
    } else if name == "accept4"@ {
        Some(Syscall::Accept4)
    } else if name == "getsockname"@ {
        Some(Syscall::Getsockname)
    } else if name == "getpeername"@ {
        Some(Syscall::Getpeername)
    } else if name == "socketcall"@ {
        Some(Syscall::Socketcall)
    } else if name == "acct"@ {
        Some(Syscall::Acct)
    } else if name == "chroot"@ {
        Some(Syscall::Chroot)
    } else if name == "getxattr"@ {
        Some(Syscall::Getxattr)
    } else if name == "listxattr"@ {
        Some(Syscall::Listxattr)
    } else if name == "removexattr"@ {
        Some(Syscall::Removexattr)
    } else if name == "setxattr"@ {
        Some(Syscall::Setxattr)
    } else if name == "swapoff"@ {
        Some(Syscall::Swapoff)
    } else if name == "swapon"@ {
        Some(Syscall::Swapon)
    } else if name == "truncate"@ {
        Some(Syscall::Truncate)
    } else if name == "umount2"@ {
        Some(Syscall::Umount2)
    } else if name == "oldstat"@ {
        Some(Syscall::Oldstat)
    } else if name == "umount"@ {
        Some(Syscall::Umount)
    } else if name == "chown32"@ {
        Some(Syscall::Chown32)
    } else if name == "stat64"@ {
        Some(Syscall::Stat64)
    } else if name == "statfs64"@ {
        Some(Syscall::Statfs64)
    } else if name == "truncate64"@ {
        Some(Syscall::Truncate64)
    } else if name == "utime"@ {
        Some(Syscall::Utime)
    } else if name == "access"@ {
        Some(Syscall::Access)
    } else if name == "chmod"@ {
        Some(Syscall::Chmod)
    } else if name == "chown"@ {
        Some(Syscall::Chown)
    } else if name == "mknod"@ {
        Some(Syscall::Mknod)
    } else if name == "creat"@ {
        Some(Syscall::Creat)
    } else if name == "stat"@ {
        Some(Syscall::Stat)
    } else if name == "uselib"@ {
        Some(Syscall::Uselib)
    } else if name == "utimes"@ {
        Some(Syscall::Utimes)
    } else if name == "open"@ {
        Some(Syscall::Open)
    } else if name == "fchownat"@ {
        Some(Syscall::Fchownat)
    } else if name == "utimensat"@ {
        Some(Syscall::Utimensat)
    } else if name == "name_to_handle_at"@ {
        Some(Syscall::NameToHandleAt)
    } else if name == "statx"@ {
        Some(Syscall::Statx)
    } else if name == "fstatat64"@ {
        Some(Syscall::Fstatat64)
    } else if name == "newfstatat"@ {
        Some(Syscall::Newfstatat)
    } else if name == "fstatat"@ {
        Some(Syscall::Fstatat)
    } else if name == "fchmodat"@ {
        Some(Syscall::Fchmodat)
    } else if name == "faccessat"@ {
        Some(Syscall::Faccessat)
    } else if name == "mknodat"@ {
        Some(Syscall::Mknodat)
    } else if name == "futimesat"@ {
        Some(Syscall::Futimesat)
    } else if name == "inotify_add_watch"@ {
        Some(Syscall::InotifyAddWatch)
    } else if name == "lgetxattr"@ {
        Some(Syscall::Lgetxattr)
    } else if name == "llistxattr"@ {
        Some(Syscall::Llistxattr)
    } else if name == "lremovexattr"@ {
        Some(Syscall::Lremovexattr)
    } else if name == "lsetxattr"@ {
        Some(Syscall::Lsetxattr)
    } else if name == "oldlstat"@ {
        Some(Syscall::Oldlstat)
    } else if name == "lchown32"@ {
        Some(Syscall::Lchown32)
    } else if name == "lstat64"@ {
        Some(Syscall::Lstat64)
    } else if name == "lchown"@ {
        Some(Syscall::Lchown)
    } else if name == "lstat"@ {
        Some(Syscall::Lstat)
    } else if name == "unlink"@ {
        Some(Syscall::Unlink)
    } else if name == "rmdir"@ {
        Some(Syscall::Rmdir)
    } else if name == "mkdir"@ {
        Some(Syscall::Mkdir)
    } else if name == "pivot_root"@ {
        Some(Syscall::PivotRoot)
    } else if name == "linkat"@ {
        Some(Syscall::Linkat)
    } else if name == "mount"@ {
        Some(Syscall::Mount)
    } else if name == "openat"@ {
        Some(Syscall::Openat)
    } else if name == "readlink"@ {
        Some(Syscall::Readlink)
    } else if name == "readlinkat"@ {
        Some(Syscall::Readlinkat)
    } else if name == "unlinkat"@ {
        Some(Syscall::Unlinkat)
    } else if name == "mkdirat"@ {
        Some(Syscall::Mkdirat)
    } else if name == "link"@ {
        Some(Syscall::Link)
    } else if name == "rename"@ {
        Some(Syscall::Rename)
    } else if name == "renameat"@ {
        Some(Syscall::Renameat)
    } else if name == "symlink"@ {
        Some(Syscall::Symlink)
    } else if name == "symlinkat"@ {
        Some(Syscall::Symlinkat)
    } else if name == "uname"@ {
        Some(Syscall::Uname)
    } else if name == "getuid"@ {
        Some(Syscall::Getuid)
    } else if name == "geteuid"@ {
        Some(Syscall::Geteuid)
    } else if name == "getgid"@ {
        Some(Syscall::Getgid)
    } else if name == "getegid"@ {
        Some(Syscall::Getegid)
    } else if name == "getresuid"@ {
        Some(Syscall::Getresuid)
    } else if name == "getresgid"@ {
        Some(Syscall::Getresgid)
    } else if name == "fchown"@ {
        Some(Syscall::Fchown)
    } else {
        None
    }
}

impl Syscall {
    /// The name of the system call.
    pub open spec fn spec_name(self) -> Seq<char> {
        match self {
            Syscall::Execve => "execve"@,
            Syscall::Ptrace => "ptrace"@,
            Syscall::Wait4 => "wait4"@,
            Syscall::Waitpid => "waitpid"@,
            Syscall::Brk => "brk"@,
            Syscall::Getcwd => "getcwd"@,
            Syscall::Fchdir => "fchdir"@,
            Syscall::Chdir => "chdir"@,
            Syscall::Bind => "bind"@,
            Syscall::Connect => "connect"@,
            Syscall::Accept => "accept"@,
            Syscall::Accept4 => "accept4"@,
            Syscall::Getsockname => "getsockname"@,
            Syscall::Getpeername => "getpeername"@,
            Syscall::Socketcall => "socketcall"@,
            Syscall::Acct => "acct"@,
            Syscall::Chroot => "chroot"@,
            Syscall::Getxattr => "getxattr"@,
            Syscall::Listxattr => "listxattr"@,
            Syscall::Removexattr => "removexattr"@,
            Syscall::Setxattr => "setxattr"@,
            Syscall::Swapoff => "swapoff"@,
            Syscall::Swapon => "swapon"@,
            Syscall::Truncate => "truncate"@,
            Syscall::Umount2 => "umount2"@,
            Syscall::Oldstat => "oldstat"@,
            Syscall::Umount => "umount"@,
            Syscall::Chown32 => "chown32"@,
            Syscall::Stat64 => "stat64"@,
            Syscall::Statfs64 => "statfs64"@,
            Syscall::Truncate64 => "truncate64"@,
            Syscall::Utime => "utime"@,
            Syscall::Access => "access"@,
            Syscall::Chmod => "chmod"@,
            Syscall::Chown => "chown"@,
            Syscall::Mknod => "mknod"@,
            Syscall::Creat => "creat"@,
            Syscall::Stat => "stat"@,
            Syscall::Uselib => "uselib"@,
            Syscall::Utimes => "utimes"@,
            Syscall::Open => "open"@,
            Syscall::Fchownat => "fchownat"@,
            Syscall::Utimensat => "utimensat"@,
            Syscall::NameToHandleAt => "name_to_handle_at"@,
            Syscall::Statx => "statx"@,
            Syscall::Fstatat64 => "fstatat64"@,
            Syscall::Newfstatat => "newfstatat"@,
            Syscall::Fstatat => "fstatat"@,
            Syscall::Fchmodat => "fchmodat"@,
            Syscall::Faccessat => "faccessat"@,
            Syscall::Mknodat => "mknodat"@,
            Syscall::Futimesat => "futimesat"@,
            Syscall::InotifyAddWatch => "inotify_add_watch"@,
            Syscall::Lgetxattr => "lgetxattr"@,
            Syscall::Llistxattr => "llistxattr"@,
            Syscall::Lremovexattr => "lremovexattr"@,
            Syscall::Lsetxattr => "lsetxattr"@,
            Syscall::Oldlstat => "oldlstat"@,
            Syscall::Lchown32 => "lchown32"@,
            Syscall::Lstat64 => "lstat64"@,
            Syscall::Lchown => "lchown"@,
            Syscall::Lstat => "lstat"@,
            Syscall::Unlink => "unlink"@,
            Syscall::Rmdir => "rmdir"@,
            Syscall::Mkdir => "mkdir"@,
            Syscall::PivotRoot => "pivot_root"@,
            Syscall::Linkat => "linkat"@,
            Syscall::Mount => "mount"@,
            Syscall::Openat => "openat"@,
            Syscall::Readlink => "readlink"@,
            Syscall::Readlinkat => "readlinkat"@,
            Syscall::Unlinkat => "unlinkat"@,
            Syscall::Mkdirat => "mkdirat"@,
            Syscall::Link => "link"@,
            Syscall::Rename => "rename"@,
            Syscall::Renameat => "renameat"@,
            Syscall::Symlink => "symlink"@,
            Syscall::Symlinkat => "symlinkat"@,
            Syscall::Uname => "uname"@,
            Syscall::Getuid => "getuid"@,
            Syscall::Geteuid => "geteuid"@,
            Syscall::Getgid => "getgid"@,
            Syscall::Getegid => "getegid"@,
            Syscall::Getresuid => "getresuid"@,
            Syscall::Getresgid => "getresgid"@,
            Syscall::Fchown => "fchown"@,
        }
    }

    /// The name of the system call.
    pub fn name(self) -> (name: &'static str)
        ensures
            name@ == self.spec_name(),
    {
        match self {
            Syscall::Execve => "execve",
            Syscall::Ptrace => "ptrace",
            Syscall::Wait4 => "wait4",
            Syscall::Waitpid => "waitpid",
            Syscall::Brk => "brk",
            Syscall::Getcwd => "getcwd",
            Syscall::Fchdir => "fchdir",
            Syscall::Chdir => "chdir",
            Syscall::Bind => "bind",
            Syscall::Connect => "connect",
            Syscall::Accept => "accept",
            Syscall::Accept4 => "accept4",
            Syscall::Getsockname => "getsockname",
            Syscall::Getpeername => "getpeername",
            Syscall::Socketcall => "socketcall",
            Syscall::Acct => "acct",
            Syscall::Chroot => "chroot",
            Syscall::Getxattr => "getxattr",
            Syscall::Listxattr => "listxattr",
            Syscall::Removexattr => "removexattr",
            Syscall::Setxattr => "setxattr",
            Syscall::Swapoff => "swapoff",
            Syscall::Swapon => "swapon",
            Syscall::Truncate => "truncate",
            Syscall::Umount2 => "umount2",
            Syscall::Oldstat => "oldstat",
            Syscall::Umount => "umount",
            Syscall::Chown32 => "chown32",
            Syscall::Stat64 => "stat64",
            Syscall::Statfs64 => "statfs64",
            Syscall::Truncate64 => "truncate64",
            Syscall::Utime => "utime",
            Syscall::Access => "access",
            Syscall::Chmod => "chmod",
            Syscall::Chown => "chown",
            Syscall::Mknod => "mknod",
            Syscall::Creat => "creat",
            Syscall::Stat => "stat",
            Syscall::Uselib => "uselib",
            Syscall::Utimes => "utimes",
            Syscall::Open => "open",
            Syscall::Fchownat => "fchownat",
            Syscall::Utimensat => "utimensat",
            Syscall::NameToHandleAt => "name_to_handle_at",
            Syscall::Statx => "statx",
            Syscall::Fstatat64 => "fstatat64",
            Syscall::Newfstatat => "newfstatat",
            Syscall::Fstatat => "fstatat",
            Syscall::Fchmodat => "fchmodat",
            Syscall::Faccessat => "faccessat",
            Syscall::Mknodat => "mknodat",
            Syscall::Futimesat => "futimesat",
            Syscall::InotifyAddWatch => "inotify_add_watch",
            Syscall::Lgetxattr => "lgetxattr",
            Syscall::Llistxattr => "llistxattr",
            Syscall::Lremovexattr => "lremovexattr",
            Syscall::Lsetxattr => "lsetxattr",
            Syscall::Oldlstat => "oldlstat",
            Syscall::Lchown32 => "lchown32",
            Syscall::Lstat64 => "lstat64",
            Syscall::Lchown => "lchown",
            Syscall::Lstat => "lstat",
            Syscall::Unlink => "unlink",
            Syscall::Rmdir => "rmdir",
            Syscall::Mkdir => "mkdir",
            Syscall::PivotRoot => "pivot_root",
            Syscall::Linkat => "linkat",
            Syscall::Mount => "mount",
            Syscall::Openat => "openat",
            Syscall::Readlink => "readlink",
            Syscall::Readlinkat => "readlinkat",
            Syscall::Unlinkat => "unlinkat",
            Syscall::Mkdirat => "mkdirat",
            Syscall::Link => "link",
            Syscall::Rename => "rename",
            Syscall::Renameat => "renameat",
            Syscall::Symlink => "symlink",
            Syscall::Symlinkat => "symlinkat",
            Syscall::Uname => "uname",
            Syscall::Getuid => "getuid",
            Syscall::Geteuid => "geteuid",
            Syscall::Getgid => "getgid",
            Syscall::Getegid => "getegid",
            Syscall::Getresuid => "getresuid",
            Syscall::Getresgid => "getresgid",
            Syscall::Fchown => "fchown",
        }
    }

    /// The system call that goes by `name`, if the tracer knows it.
    pub fn from_name(name: &str) -> (r: Option<Syscall>)
        ensures
            r == syscall_named(name@),
    {
        if str_eq(name, "execve") {
            Some(Syscall::Execve)
        } else if str_eq(name, "ptrace") {
            Some(Syscall::Ptrace)
        } else if str_eq(name, "wait4") {
            Some(Syscall::Wait4)
        } else if str_eq(name, "waitpid") {
            Some(Syscall::Waitpid)
        } else if str_eq(name, "brk") {
            Some(Syscall::Brk)
        } else if str_eq(name, "getcwd") {
            Some(Syscall::Getcwd)
        } else if str_eq(name, "fchdir") {
            Some(Syscall::Fchdir)
        } else if str_eq(name, "chdir") {
            Some(Syscall::Chdir)
        } else if str_eq(name, "bind") {
            Some(Syscall::Bind)
        } else if str_eq(name, "connect") {
            Some(Syscall::Connect)
        } else if str_eq(name, "accept") {
            Some(Syscall::Accept)
        } else if str_eq(name, "accept4") {
            Some(Syscall::Accept4)
        } else if str_eq(name, "getsockname") {
            Some(Syscall::Getsockname)
        } else if str_eq(name, "getpeername") {
            Some(Syscall::Getpeername)
        } else if str_eq(name, "socketcall") {
            Some(Syscall::Socketcall)
        } else if str_eq(name, "acct") {
            Some(Syscall::Acct)
        } else if str_eq(name, "chroot") {
            Some(Syscall::Chroot)
        } else if str_eq(name, "getxattr") {
            Some(Syscall::Getxattr)
        } else if str_eq(name, "listxattr") {
            Some(Syscall::Listxattr)
        } else if str_eq(name, "removexattr") {
            Some(Syscall::Removexattr)
        } else if str_eq(name, "setxattr") {
            Some(Syscall::Setxattr)
        } else if str_eq(name, "swapoff") {
            Some(Syscall::Swapoff)
        } else if str_eq(name, "swapon") {
            Some(Syscall::Swapon)
        } else if str_eq(name, "truncate") {
            Some(Syscall::Truncate)
        } else if str_eq(name, "umount2") {
            Some(Syscall::Umount2)
        } else if str_eq(name, "oldstat") {
            Some(Syscall::Oldstat)
        } else if str_eq(name, "umount") {
            Some(Syscall::Umount)
        } else if str_eq(name, "chown32") {
            Some(Syscall::Chown32)
        } else if str_eq(name, "stat64") {
            Some(Syscall::Stat64)
        } else if str_eq(name, "statfs64") {
            Some(Syscall::Statfs64)
        } else if str_eq(name, "truncate64") {
            Some(Syscall::Truncate64)
        } else if str_eq(name, "utime") {
            Some(Syscall::Utime)
        } else if str_eq(name, "access") {
            Some(Syscall::Access)
        } else if str_eq(name, "chmod") {
            Some(Syscall::Chmod)
        } else if str_eq(name, "chown") {
            Some(Syscall::Chown)
        } else if str_eq(name, "mknod") {
            Some(Syscall::Mknod)
        } else if str_eq(name, "creat") {
            Some(Syscall::Creat)
        } else if str_eq(name, "stat") {
            Some(Syscall::Stat)
        } else if str_eq(name, "uselib") {
            Some(Syscall::Uselib)
        } else if str_eq(name, "utimes") {
            Some(Syscall::Utimes)
        } else if str_eq(name, "open") {
            Some(Syscall::Open)
        } else if str_eq(name, "fchownat") {
            Some(Syscall::Fchownat)
        } else if str_eq(name, "utimensat") {
            Some(Syscall::Utimensat)
        } else if str_eq(name, "name_to_handle_at") {
            Some(Syscall::NameToHandleAt)
        } else if str_eq(name, "statx") {
            Some(Syscall::Statx)
        } else if str_eq(name, "fstatat64") {
            Some(Syscall::Fstatat64)
        } else if str_eq(name, "newfstatat") {
            Some(Syscall::Newfstatat)
        } else if str_eq(name, "fstatat") {
            Some(Syscall::Fstatat)
        } else if str_eq(name, "fchmodat") {
            Some(Syscall::Fchmodat)
        } else if str_eq(name, "faccessat") {
            Some(Syscall::Faccessat)
        } else if str_eq(name, "mknodat") {
            Some(Syscall::Mknodat)
        } else if str_eq(name, "futimesat") {
            Some(Syscall::Futimesat)
        } else if str_eq(name, "inotify_add_watch") {
            Some(Syscall::InotifyAddWatch)
        } else if str_eq(name, "lgetxattr") {
            Some(Syscall::Lgetxattr)
        } else if str_eq(name, "llistxattr") {
            Some(Syscall::Llistxattr)
        } else if str_eq(name, "lremovexattr") {
            Some(Syscall::Lremovexattr)
        } else if str_eq(name, "lsetxattr") {
            Some(Syscall::Lsetxattr)
        } else if str_eq(name, "oldlstat") {
            Some(Syscall::Oldlstat)
        } else if str_eq(name, "lchown32") {
            Some(Syscall::Lchown32)
        } else if str_eq(name, "lstat64") {
            Some(Syscall::Lstat64)
        } else if str_eq(name, "lchown") {
            Some(Syscall::Lchown)
        } else if str_eq(name, "lstat") {
            Some(Syscall::Lstat)
        } else if str_eq(name, "unlink") {
            Some(Syscall::Unlink)
        } else if str_eq(name, "rmdir") {
            Some(Syscall::Rmdir)
        } else if str_eq(name, "mkdir") {
            Some(Syscall::Mkdir)
        } else if str_eq(name, "pivot_root") {
            Some(Syscall::PivotRoot)
        } else if str_eq(name, "linkat") {
            Some(Syscall::Linkat)
        } else if str_eq(name, "mount") {
            Some(Syscall::Mount)
        } else if str_eq(name, "openat") {
            Some(Syscall::Openat)
        } else if str_eq(name, "readlink") {
            Some(Syscall::Readlink)
        } else if str_eq(name, "readlinkat") {
            Some(Syscall::Readlinkat)
        } else if str_eq(name, "unlinkat") {
            Some(Syscall::Unlinkat)
        } else if str_eq(name, "mkdirat") {
            Some(Syscall::Mkdirat)
        } else if str_eq(name, "link") {
            Some(Syscall::Link)
        } else if str_eq(name, "rename") {
            Some(Syscall::Rename)
        } else if str_eq(name, "renameat") {
            Some(Syscall::Renameat)
        } else if str_eq(name, "symlink") {
            Some(Syscall::Symlink)
        } else if str_eq(name, "symlinkat") {
            Some(Syscall::Symlinkat)
        } else if str_eq(name, "uname") {
            Some(Syscall::Uname)
        } else if str_eq(name, "getuid") {
            Some(Syscall::Getuid)
        } else if str_eq(name, "geteuid") {
            Some(Syscall::Geteuid)
        } else if str_eq(name, "getgid") {
            Some(Syscall::Getgid)
        } else if str_eq(name, "getegid") {
            Some(Syscall::Getegid)
        } else if str_eq(name, "getresuid") {
            Some(Syscall::Getresuid)
        } else if str_eq(name, "getresgid") {
            Some(Syscall::Getresgid)
        } else if str_eq(name, "fchown") {
            Some(Syscall::Fchown)
        } else {
            None
        }
    }
}

/// The system call with the number `n` on `arch`, if the tracer knows it.
pub open spec fn syscall_numbered(arch: Arch, n: usize) -> Option<Syscall> {
    match syscall_name(arch, n) {
        Some(name) => syscall_named(name),
        None => None,
    }
}

/// The system call with the number `sysnum` on `arch`; `None` where `sysnum`
/// is the number of no call there, or of one that the tracer does not know.
pub fn syscall_from_sysnum(arch: Arch, sysnum: usize) -> (r: Option<Syscall>)
    ensures
        r == syscall_numbered(arch, sysnum),
{
    match name_of_syscall(arch, sysnum) {
        Some(name) => Syscall::from_name(name),
        None => None,
    }
}

/// Only `linkat` goes by the name `linkat` and only `link` by the name
/// `link`, and neither name is `symlinkat`.
pub proof fn lemma_link_names(name: Seq<char>)
    ensures
        syscall_named(name) == Some(Syscall::Linkat) ==> name == "linkat"@,
        syscall_named(name) == Some(Syscall::Link) ==> name == "link"@,
        "linkat"@ != "symlinkat"@,
        "link"@ != "symlinkat"@,
{
    reveal_strlit("linkat");
    reveal_strlit("link");
    reveal_strlit("symlinkat");
    assert("linkat"@.len() == 6);
    assert("link"@.len() == 4);
    assert("symlinkat"@.len() == 9);
}

} // verus!
