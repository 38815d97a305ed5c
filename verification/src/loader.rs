//! The interpreter of load statements, as a state machine.
//!
//! The interpreter runs inside the process whose image it builds. It cannot
//! touch memory or call the kernel from here: it asks for each such thing with
//! a [`Request`], and is resumed with the word that came back. Between two
//! requests it only decides. It goes through the statements in order, never
//! back, and ends with a [`Terminal`]: a transfer of control, or an exit with
//! a status that tells what went wrong.

use vstd::prelude::*;
use crate::arch::Arch;
use crate::name::{
    advance_name_start, lemma_name_start, lemma_path_len, name_start, name_start_after, nul_from,
    path_len, spec_basename_offset,
};
use crate::script::{
    decode, parse_statement, LoadStatement, LoadStatementMmapFile, LoadStatementStart,
};
use crate::stack::{
    lemma_walk_step, patched, stack_check, walk_inv, walk_rank, walk_step, Access, StackError,
    StackWalk, WalkStage,
};

verus! {

/// The flag that opens a file for reading only.
pub const O_RDONLY: u64 = 0;

/// The flags of a private mapping at a fixed address.
pub const MAP_PRIVATE_FIXED: u64 = 0x12;

/// The flags of a private, anonymous mapping at a fixed address.
pub const MAP_PRIVATE_FIXED_ANONYMOUS: u64 = 0x32;

/// The attribute of a process that is its name.
pub const PR_SET_NAME: u64 = 15;

/// The protection that makes a stack executable: read, write, execute,
/// growing down.
pub const STACK_EXEC_PROT: u64 = 0x0100_0007;

/// The kernel calls that the interpreter makes, by what they do.
#[derive(Clone, Copy, Debug, PartialEq, Eq, Structural)]
pub enum LoaderCall {
    /// Open a file for reading.
    Open,
    /// Close a descriptor.
    Close,
    /// Map memory.
    Mmap,
    /// Change the protection of memory.
    Protect,
    /// Set an attribute of the process.
    Control,
}

/// Why the interpreter gave up.
#[derive(Clone, Copy, Debug, PartialEq, Eq, Structural)]
pub enum Fatal {
    /// No statement stands at the cursor: the stream is used up or damaged,
    /// or a mapping is to clear more than it maps.
    BadStatement,
    /// A statement needs an open file and none is open, or opens one while
    /// another is open.
    BadDescriptorState,
    /// The file could not be opened.
    OpenFailed,
    /// The file could not be closed.
    CloseFailed,
    /// A mapping failed or did not land at its address.
    MapFailed,
    /// The stack could not be made executable.
    ProtectFailed,
    /// The initial stack does not have the expected layout.
    BadStack,
    /// The path of the executable runs over the end of the address space.
    BadPath,
}

/// How an interpretation ends.
#[derive(Clone, Copy, Debug, PartialEq, Eq, Structural)]
pub enum Terminal {
    /// Leave the process with the exit status of `Fatal`.
    Exit(Fatal),
    /// Set the stack pointer and jump to the entry point. Nothing of the
    /// interpreter runs after that.
    Jump { stack_pointer: u64, entry_point: u64 },
    /// Start the program over under the tracer, with the same stack.
    Restart { stack_pointer: u64, entry_point: u64 },
}

/// What the interpreter asks its environment to do next.
#[derive(Clone, Copy, Debug, PartialEq, Eq)]
pub enum Request {
    /// Make the kernel call `number` with `args`; reply with what it returns.
    Syscall { number: u64, args: [u64; 6] },
    /// Reply with the machine word at `addr`.
    ReadWord { addr: u64 },
    /// Store `value` in the machine word at `addr`.
    WriteWord { addr: u64, value: u64 },
    /// Reply with the byte at `addr`. Only the low eight bits of the reply are
    /// looked at.
    ReadByte { addr: u64 },
    /// Set `length` bytes from `addr` on to zero.
    Clear { addr: u64, length: u64 },
    /// The interpretation is over.
    Finish(Terminal),
}

/// What the interpreter waits for.
#[derive(Clone, Copy, Debug, PartialEq, Eq, Structural)]
pub enum Phase {
    /// Nothing: the next statement is to be read.
    Fetch,
    /// The close that comes before the opening of the path at `path`.
    Closing { path: u64 },
    /// The opening of a file.
    Opening,
    /// The mapping of a part of the open file.
    MappingFile { mmap: LoadStatementMmapFile },
    /// The clearing of the end of a mapping.
    Clearing,
    /// The anonymous mapping at `addr`.
    MappingAnonymous { addr: u64 },
    /// The change of the stack's protection.
    Protecting,
    /// The close that comes before the launch.
    ClosingLast { start: LoadStatementStart, traced: bool },
    /// A word of the stack, or the end of a write to it.
    Patching { start: LoadStatementStart, traced: bool, walk: StackWalk },
    /// The byte at `offset` of the path of the executable.
    Naming { start: LoadStatementStart, traced: bool, offset: u64, name_start: u64 },
    /// The setting of the process name.
    SettingName { start: LoadStatementStart, traced: bool },
    /// Nothing any more.
    Finished(Terminal),
}

/// The state of an interpretation.
#[derive(Clone, Copy, Debug, PartialEq, Eq, Structural)]
pub struct Loader {
    pub arch: Arch,
    /// Offset of the next statement in the statement buffer.
    pub cursor: usize,
    /// The descriptor of the open file, if one is open.
    pub descriptor: Option<u64>,
    /// Where the first mapping after the last opening of a file landed.
    pub image_base: Option<u64>,
    /// Whether the next file mapping is the first after an opening.
    pub base_pending: bool,
    pub phase: Phase,
}

impl Fatal {
    /// The exit status that tells this failure from the others.
    pub open spec fn spec_exit_status(self) -> i32 {
        match self {
            Fatal::BadStatement => 1,
            Fatal::BadDescriptorState => 2,
            Fatal::OpenFailed => 3,
            Fatal::CloseFailed => 4,
            Fatal::MapFailed => 5,
            Fatal::ProtectFailed => 6,
            Fatal::BadStack => 7,
            Fatal::BadPath => 8,
        }
    }

    /// The exit status that tells this failure from the others. It is never 0.
    pub fn exit_status(self) -> (status: i32)
        ensures
            status == self.spec_exit_status(),
            status != 0,
    {
        match self {
            Fatal::BadStatement => 1,
            Fatal::BadDescriptorState => 2,
            Fatal::OpenFailed => 3,
            Fatal::CloseFailed => 4,
            Fatal::MapFailed => 5,
            Fatal::ProtectFailed => 6,
            Fatal::BadStack => 7,
            Fatal::BadPath => 8,
        }
    }
}

/// The number of the kernel call that does `call` on `arch`. Where the
/// architecture has no `open`, `openat` takes its place; where it maps with
/// `mmap2`, that is the call.
pub open spec fn call_number(arch: Arch, call: LoaderCall) -> u64 {
    match arch {
        Arch::X86 | Arch::Arm => match call {
            LoaderCall::Open => 5,
            LoaderCall::Close => 6,
            LoaderCall::Mmap => 192,
            LoaderCall::Protect => 125,
            LoaderCall::Control => 172,
        },
        Arch::X86_64 => match call {
            LoaderCall::Open => 2,
            LoaderCall::Close => 3,
            LoaderCall::Mmap => 9,
            LoaderCall::Protect => 10,
            LoaderCall::Control => 157,
        },
        Arch::Aarch64 => match call {
            LoaderCall::Open => 56,
            LoaderCall::Close => 57,
            LoaderCall::Mmap => 222,
            LoaderCall::Protect => 226,
            LoaderCall::Control => 167,
        },
    }
}

/// By how many bits a file offset is shifted down before it is handed to the
/// mapping call: `mmap2` counts in units of 4096 bytes, `mmap` in bytes.
pub open spec fn map_offset_shift(arch: Arch) -> u64 {
    match arch {
        Arch::X86 | Arch::Arm => 12,
        Arch::X86_64 | Arch::Aarch64 => 0,
    }
}

/// The word that stands for the current directory where a call takes a
/// directory descriptor: -100.
pub open spec fn at_fdcwd(arch: Arch) -> u64 {
    (arch.spec_word_max() - 99) as u64
}

/// The kernel call that does `call` on `arch`, with `args`.
pub open spec fn syscall(arch: Arch, call: LoaderCall, args: [u64; 6]) -> Request {
    Request::Syscall { number: call_number(arch, call), args }
}

/// The call that opens the file whose path is at `path`.
pub open spec fn open_request(arch: Arch, path: u64) -> Request {
    if arch == Arch::Aarch64 {
        syscall(arch, LoaderCall::Open, [at_fdcwd(arch), path, O_RDONLY, 0, 0, 0])
    } else {
        syscall(arch, LoaderCall::Open, [path, O_RDONLY, 0, 0, 0, 0])
    }
}

/// The call that closes `fd`.
pub open spec fn close_request(arch: Arch, fd: u64) -> Request {
    syscall(arch, LoaderCall::Close, [fd, 0, 0, 0, 0, 0])
}

/// The call that maps a part of the file `fd`: private, at a fixed address.
pub open spec fn map_file_request(arch: Arch, mmap: LoadStatementMmapFile, fd: u64) -> Request {
    syscall(
        arch,
        LoaderCall::Mmap,
        [
            mmap.addr,
            mmap.length,
            mmap.prot,
            MAP_PRIVATE_FIXED,
            fd,
            if map_offset_shift(arch) == 12 {
                mmap.offset / 4096
            } else {
                mmap.offset
            },
        ],
    )
}

/// The call that maps zero-filled memory: private, at a fixed address, with
/// -1 for a descriptor.
pub open spec fn map_anonymous_request(arch: Arch, addr: u64, length: u64, prot: u64) -> Request {
    syscall(arch, LoaderCall::Mmap, [addr, length, prot, MAP_PRIVATE_FIXED_ANONYMOUS, arch.spec_word_max(), 0])
}

/// The call that makes the stack at `start` executable.
pub open spec fn protect_request(arch: Arch, start: u64) -> Request {
    syscall(arch, LoaderCall::Protect, [start, 1, STACK_EXEC_PROT, 0, 0, 0])
}

/// The call that names the process after the string at `name`.
pub open spec fn name_request(arch: Arch, name: u64) -> Request {
    syscall(arch, LoaderCall::Control, [PR_SET_NAME, name, 0, 0, 0, 0])
}

/// Whether a file mapping can be carried out: what it clears lies inside
/// what it maps, and what it maps ends inside the address space.
pub open spec fn mmap_well_formed(arch: Arch, mmap: LoadStatementMmapFile) -> bool {
    mmap.clear_length == 0 || (mmap.clear_length <= mmap.length && mmap.addr + mmap.length
        <= arch.spec_word_max())
}

/// The interpreter `l`, stopped for good with `t`.
pub open spec fn finish(l: Loader, t: Terminal) -> (Loader, Request) {
    (Loader { phase: Phase::Finished(t), ..l }, Request::Finish(t))
}

/// The interpreter `l`, given up because of `f`.
pub open spec fn fail(l: Loader, f: Fatal) -> (Loader, Request) {
    finish(l, Terminal::Exit(f))
}

/// The interpreter `l`, waiting in `phase` for the reply to `request`.
pub open spec fn wait(l: Loader, phase: Phase, request: Request) -> (Loader, Request) {
    (Loader { phase, ..l }, request)
}

/// What the interpreter does with the next statement of `script`.
pub open spec fn fetch(l: Loader, script: Seq<u8>) -> (Loader, Request) {
    match decode(l.arch, script, l.cursor as int) {
        Err(_) => fail(l, Fatal::BadStatement),
        Ok((stmt, next)) => {
            let l = Loader { cursor: next as usize, ..l };
            match stmt {
                LoadStatement::Open(open) => match l.descriptor {
                    Some(_) => fail(l, Fatal::BadDescriptorState),
                    None => wait(l, Phase::Opening, open_request(l.arch, open.string_address)),
                },
                LoadStatement::OpenNext(open) => match l.descriptor {
                    None => fail(l, Fatal::BadDescriptorState),
                    Some(fd) => wait(
                        l,
                        Phase::Closing { path: open.string_address },
                        close_request(l.arch, fd),
                    ),
                },
                LoadStatement::MmapFile(mmap) => match l.descriptor {
                    None => fail(l, Fatal::BadDescriptorState),
                    Some(fd) => if !mmap_well_formed(l.arch, mmap) {
                        fail(l, Fatal::BadStatement)
                    } else {
                        wait(l, Phase::MappingFile { mmap }, map_file_request(l.arch, mmap, fd))
                    },
                },
                LoadStatement::MmapAnonymous(mmap) => wait(
                    l,
                    Phase::MappingAnonymous { addr: mmap.addr },
                    map_anonymous_request(l.arch, mmap.addr, mmap.length, mmap.prot),
                ),
                LoadStatement::MakeStackExec(exec) => wait(
                    l,
                    Phase::Protecting,
                    protect_request(l.arch, exec.start),
                ),
                LoadStatement::Start(start) => launch(l, start, false),
                LoadStatement::StartTraced(start) => launch(l, start, true),
            }
        },
    }
}

/// What the interpreter does with a terminal statement: it closes the file.
pub open spec fn launch(l: Loader, start: LoadStatementStart, traced: bool) -> (Loader, Request) {
    match l.descriptor {
        None => fail(l, Fatal::BadDescriptorState),
        Some(fd) => wait(l, Phase::ClosingLast { start, traced }, close_request(l.arch, fd)),
    }
}

/// The address of the `index`-th word above `base`, if a machine word of
/// `arch` can hold it.
pub open spec fn word_addr(arch: Arch, base: u64, index: u64) -> Option<u64> {
    if base + arch.spec_bytes_of(index as int) <= arch.spec_word_max() {
        Some((base + arch.spec_bytes_of(index as int)) as u64)
    } else {
        None
    }
}

/// The base address that the auxiliary vector is given.
pub open spec fn base_of(l: Loader) -> u64 {
    match l.image_base {
        Some(base) => base,
        None => 0,
    }
}

/// What the interpreter does once the walk over the stack has taken a step.
pub open spec fn after_walk(
    l: Loader,
    start: LoadStatementStart,
    traced: bool,
    stepped: (StackWalk, Access),
) -> (Loader, Request) {
    let phase = Phase::Patching { start, traced, walk: stepped.0 };
    match stepped.1 {
        Access::Read { index } => match word_addr(l.arch, start.stack_pointer, index) {
            Some(addr) => wait(l, phase, Request::ReadWord { addr }),
            None => fail(l, Fatal::BadStack),
        },
        Access::Write { index, value } => match word_addr(l.arch, start.stack_pointer, index) {
            Some(addr) => wait(l, phase, Request::WriteWord { addr, value }),
            None => fail(l, Fatal::BadStack),
        },
        Access::Done => if start.at_execfn > l.arch.spec_word_max() {
            fail(l, Fatal::BadPath)
        } else {
            wait(
                l,
                Phase::Naming { start, traced, offset: 0, name_start: 0 },
                Request::ReadByte { addr: start.at_execfn },
            )
        },
        Access::Fail(_) => fail(l, Fatal::BadStack),
    }
}

/// How control is handed over at the end.
pub open spec fn transfer(start: LoadStatementStart, traced: bool) -> Terminal {
    if traced {
        Terminal::Restart { stack_pointer: start.stack_pointer, entry_point: start.entry_point }
    } else {
        Terminal::Jump { stack_pointer: start.stack_pointer, entry_point: start.entry_point }
    }
}

/// One step of the interpreter: from its state and the word that answers its
/// last request to its next state and its next request. The word is not
/// looked at where the last request has no answer: at the start, after a
/// write, after a clearing.
pub open spec fn step(l: Loader, script: Seq<u8>, reply: u64) -> (Loader, Request) {
    match l.phase {
        Phase::Fetch => fetch(l, script),
        Phase::Closing { path } => if reply != 0 {
            fail(l, Fatal::CloseFailed)
        } else {
            wait(Loader { descriptor: None, ..l }, Phase::Opening, open_request(l.arch, path))
        },
        Phase::Opening => if l.arch.spec_is_negative(reply) {
            fail(l, Fatal::OpenFailed)
        } else {
            fetch(
                Loader { descriptor: Some(reply), base_pending: true, phase: Phase::Fetch, ..l },
                script,
            )
        },
        Phase::MappingFile { mmap } => if reply != mmap.addr {
            fail(l, Fatal::MapFailed)
        } else {
            let l = if l.base_pending {
                Loader { image_base: Some(mmap.addr), base_pending: false, ..l }
            } else {
                l
            };
            if mmap.clear_length == 0 {
                fetch(Loader { phase: Phase::Fetch, ..l }, script)
            } else if mmap_well_formed(l.arch, mmap) {
                wait(
                    l,
                    Phase::Clearing,
                    Request::Clear {
                        addr: (mmap.addr + mmap.length - mmap.clear_length) as u64,
                        length: mmap.clear_length,
                    },
                )
            } else {
                fail(l, Fatal::BadStatement)
            }
        },
        Phase::Clearing => fetch(Loader { phase: Phase::Fetch, ..l }, script),
        Phase::MappingAnonymous { addr } => if reply != addr {
            fail(l, Fatal::MapFailed)
        } else {
            fetch(Loader { phase: Phase::Fetch, ..l }, script)
        },
        Phase::Protecting => if l.arch.spec_is_negative(reply) {
            fail(l, Fatal::ProtectFailed)
        } else {
            fetch(Loader { phase: Phase::Fetch, ..l }, script)
        },
        Phase::ClosingLast { start, traced } => if l.arch.spec_is_negative(reply) {
            fail(l, Fatal::CloseFailed)
        } else {
            let l = Loader { descriptor: None, ..l };
            after_walk(
                l,
                start,
                traced,
                walk_step(StackWalk { stage: WalkStage::Begin, index: 0 }, 0, start, base_of(l)),
            )
        },
        Phase::Patching { start, traced, walk } => after_walk(
            l,
            start,
            traced,
            walk_step(walk, reply, start, base_of(l)),
        ),
        Phase::Naming { start, traced, offset, name_start } => if reply % 256 == 0 {
            if start.at_execfn + name_start <= l.arch.spec_word_max() {
                wait(
                    l,
                    Phase::SettingName { start, traced },
                    name_request(l.arch, (start.at_execfn + name_start) as u64),
                )
            } else {
                fail(l, Fatal::BadPath)
            }
        } else if start.at_execfn + offset + 1 > l.arch.spec_word_max() {
            fail(l, Fatal::BadPath)
        } else {
            wait(
                l,
                Phase::Naming {
                    start,
                    traced,
                    offset: (offset + 1) as u64,
                    name_start: name_start_after(name_start, offset, (reply % 256) as u8),
                },
                Request::ReadByte { addr: (start.at_execfn + offset + 1) as u64 },
            )
        },
        Phase::SettingName { start, traced } => finish(l, transfer(start, traced)),
        Phase::Finished(t) => (l, Request::Finish(t)),
    }
}

/// The number of the kernel call that does `call` on `arch`.
pub fn loader_call_number(arch: Arch, call: LoaderCall) -> (number: u64)
    ensures
        number == call_number(arch, call),
{
    match arch {
        Arch::X86 | Arch::Arm => match call {
            LoaderCall::Open => 5,
            LoaderCall::Close => 6,
            LoaderCall::Mmap => 192,
            LoaderCall::Protect => 125,
            LoaderCall::Control => 172,
        },
        Arch::X86_64 => match call {
            LoaderCall::Open => 2,
            LoaderCall::Close => 3,
            LoaderCall::Mmap => 9,
            LoaderCall::Protect => 10,
            LoaderCall::Control => 157,
        },
        Arch::Aarch64 => match call {
            LoaderCall::Open => 56,
            LoaderCall::Close => 57,
            LoaderCall::Mmap => 222,
            LoaderCall::Protect => 226,
            LoaderCall::Control => 167,
        },
    }
}

fn make_syscall(arch: Arch, call: LoaderCall, args: [u64; 6]) -> (r: Request)
    ensures
        r == syscall(arch, call, args),
{
    Request::Syscall { number: loader_call_number(arch, call), args }
}

fn make_open(arch: Arch, path: u64) -> (r: Request)
    ensures
        r == open_request(arch, path),
{
    match arch {
        Arch::Aarch64 => make_syscall(
            arch,
            LoaderCall::Open,
            [arch.word_max() - 99, path, O_RDONLY, 0, 0, 0],
        ),
        _ => make_syscall(arch, LoaderCall::Open, [path, O_RDONLY, 0, 0, 0, 0]),
    }
}

fn make_close(arch: Arch, fd: u64) -> (r: Request)
    ensures
        r == close_request(arch, fd),
{
    make_syscall(arch, LoaderCall::Close, [fd, 0, 0, 0, 0, 0])
}

fn make_map_file(arch: Arch, mmap: &LoadStatementMmapFile, fd: u64) -> (r: Request)
    ensures
        r == map_file_request(arch, *mmap, fd),
{
    let offset = match arch {
        Arch::X86 | Arch::Arm => mmap.offset / 4096,
        Arch::X86_64 | Arch::Aarch64 => mmap.offset,
    };
    make_syscall(
        arch,
        LoaderCall::Mmap,
        [mmap.addr, mmap.length, mmap.prot, MAP_PRIVATE_FIXED, fd, offset],
    )
}

fn make_map_anonymous(arch: Arch, addr: u64, length: u64, prot: u64) -> (r: Request)
    ensures
        r == map_anonymous_request(arch, addr, length, prot),
{
    make_syscall(arch, LoaderCall::Mmap, [addr, length, prot, MAP_PRIVATE_FIXED_ANONYMOUS, arch.word_max(), 0])
}

/// Whether `base + more` is an address of `arch`.
fn fits_word(arch: Arch, base: u64, more: u64) -> (r: bool)
    ensures
        r == (base + more <= arch.spec_word_max()),
{
    let max = arch.word_max();
    base <= max && more <= max - base
}

/// The address `base + more`, if it is an address of `arch`.
fn offset_address(arch: Arch, base: u64, more: u64) -> (r: Option<u64>)
    ensures
        r == if base + more <= arch.spec_word_max() {
            Some((base + more) as u64)
        } else {
            None::<u64>
        },
{
    if fits_word(arch, base, more) {
        Some(base + more)
    } else {
        None
    }
}

fn word_address(arch: Arch, base: u64, index: u64) -> (r: Option<u64>)
    ensures
        r == word_addr(arch, base, index),
{
    let bytes = match arch {
        Arch::X86 | Arch::Arm => index.checked_mul(4),
        Arch::X86_64 | Arch::Aarch64 => index.checked_mul(8),
    };
    match bytes {
        Some(bytes) => match base.checked_add(bytes) {
            Some(addr) => if addr <= arch.word_max() {
                Some(addr)
            } else {
                None
            },
            None => None,
        },
        None => None,
    }
}

impl Loader {
    /// An interpreter for `arch` that stands before the first statement,
    /// with no file open.
    pub fn new(arch: Arch) -> (l: Loader)
        ensures
            l == initial(arch),
    {
        Loader {
            arch,
            cursor: 0,
            descriptor: None,
            image_base: None,
            base_pending: true,
            phase: Phase::Fetch,
        }
    }

    fn stop(&mut self, t: Terminal) -> (r: Request)
        ensures
            (*final(self), r) == finish(*old(self), t),
    {
        self.phase = Phase::Finished(t);
        Request::Finish(t)
    }

    fn give_up(&mut self, f: Fatal) -> (r: Request)
        ensures
            (*final(self), r) == fail(*old(self), f),
    {
        self.stop(Terminal::Exit(f))
    }

    fn await_reply(&mut self, phase: Phase, request: Request) -> (r: Request)
        ensures
            (*final(self), r) == wait(*old(self), phase, request),
    {
        self.phase = phase;
        request
    }

    fn begin_launch(&mut self, start: LoadStatementStart, traced: bool) -> (r: Request)
        ensures
            (*final(self), r) == launch(*old(self), start, traced),
    {
        match self.descriptor {
            None => self.give_up(Fatal::BadDescriptorState),
            Some(fd) => {
                let request = make_close(self.arch, fd);
                self.await_reply(Phase::ClosingLast { start, traced }, request)
            },
        }
    }

    fn next_statement(&mut self, script: &[u8]) -> (r: Request)
        ensures
            (*final(self), r) == fetch(*old(self), script@),
    {
        match parse_statement(self.arch, script, self.cursor) {
            Err(_) => self.give_up(Fatal::BadStatement),
            Ok((stmt, next)) => {
                self.cursor = next;
                match stmt {
                    LoadStatement::Open(open) => match self.descriptor {
                        Some(_) => self.give_up(Fatal::BadDescriptorState),
                        None => {
                            let request = make_open(self.arch, open.string_address);
                            self.await_reply(Phase::Opening, request)
                        },
                    },
                    LoadStatement::OpenNext(open) => match self.descriptor {
                        None => self.give_up(Fatal::BadDescriptorState),
                        Some(fd) => {
                            let request = make_close(self.arch, fd);
                            self.await_reply(Phase::Closing { path: open.string_address }, request)
                        },
                    },
                    LoadStatement::MmapFile(mmap) => match self.descriptor {
                        None => self.give_up(Fatal::BadDescriptorState),
                        Some(fd) => {
                            let well_formed = mmap.clear_length == 0 || (mmap.clear_length
                                <= mmap.length && fits_word(self.arch, mmap.addr, mmap.length));
                            if !well_formed {
                                self.give_up(Fatal::BadStatement)
                            } else {
                                let request = make_map_file(self.arch, &mmap, fd);
                                self.await_reply(Phase::MappingFile { mmap }, request)
                            }
                        },
                    },
                    LoadStatement::MmapAnonymous(mmap) => {
                        let request = make_map_anonymous(
                            self.arch,
                            mmap.addr,
                            mmap.length,
                            mmap.prot,
                        );
                        self.await_reply(Phase::MappingAnonymous { addr: mmap.addr }, request)
                    },
                    LoadStatement::MakeStackExec(exec) => {
                        let request = make_syscall(
                            self.arch,
                            LoaderCall::Protect,
                            [exec.start, 1, STACK_EXEC_PROT, 0, 0, 0],
                        );
                        self.await_reply(Phase::Protecting, request)
                    },
                    LoadStatement::Start(start) => self.begin_launch(start, false),
                    LoadStatement::StartTraced(start) => self.begin_launch(start, true),
                }
            },
        }
    }

    fn go_on(&mut self, script: &[u8]) -> (r: Request)
        ensures
            (*final(self), r) == fetch(Loader { phase: Phase::Fetch, ..*old(self) }, script@),
    {
        self.phase = Phase::Fetch;
        self.next_statement(script)
    }

    fn base(&self) -> (b: u64)
        ensures
            b == base_of(*self),
    {
        match self.image_base {
            Some(base) => base,
            None => 0,
        }
    }

    fn walk_on(
        &mut self,
        start: LoadStatementStart,
        traced: bool,
        walk: StackWalk,
        reply: u64,
    ) -> (r: Request)
        ensures
            (*final(self), r) == after_walk(
                *old(self),
                start,
                traced,
                walk_step(walk, reply, start, base_of(*old(self))),
            ),
    {
        let (walk, access) = walk.resume(reply, &start, self.base());
        let phase = Phase::Patching { start, traced, walk };
        match access {
            Access::Read { index } => match word_address(self.arch, start.stack_pointer, index) {
                Some(addr) => self.await_reply(phase, Request::ReadWord { addr }),
                None => self.give_up(Fatal::BadStack),
            },
            Access::Write { index, value } => match word_address(
                self.arch,
                start.stack_pointer,
                index,
            ) {
                Some(addr) => self.await_reply(phase, Request::WriteWord { addr, value }),
                None => self.give_up(Fatal::BadStack),
            },
            Access::Done => if start.at_execfn > self.arch.word_max() {
                self.give_up(Fatal::BadPath)
            } else {
                self.await_reply(
                    Phase::Naming { start, traced, offset: 0, name_start: 0 },
                    Request::ReadByte { addr: start.at_execfn },
                )
            },
            Access::Fail(_) => self.give_up(Fatal::BadStack),
        }
    }

    /// Takes the interpretation one step further.
    ///
    /// `script` is the statement buffer, the same at every call. `reply` is
    /// the answer to the request that the last call returned: what the kernel
    /// call returned, the word or the byte that was read; anything where the
    /// request has no answer, and at the first call. The result is the next
    /// request. Once it is [`Request::Finish`], every further call returns it
    /// again and changes nothing.
    pub fn resume(&mut self, script: &[u8], reply: u64) -> (r: Request)
        ensures
            (*final(self), r) == step(*old(self), script@, reply),
    {
        match self.phase {
            Phase::Fetch => self.next_statement(script),
            Phase::Closing { path } => {
                if reply != 0 {
                    self.give_up(Fatal::CloseFailed)
                } else {
                    self.descriptor = None;
                    let request = make_open(self.arch, path);
                    self.await_reply(Phase::Opening, request)
                }
            },
            Phase::Opening => {
                if self.arch.is_negative(reply) {
                    self.give_up(Fatal::OpenFailed)
                } else {
                    self.descriptor = Some(reply);
                    self.base_pending = true;
                    self.go_on(script)
                }
            },
            Phase::MappingFile { mmap } => {
                if reply != mmap.addr {
                    self.give_up(Fatal::MapFailed)
                } else {
                    if self.base_pending {
                        self.image_base = Some(mmap.addr);
                        self.base_pending = false;
                    }
                    if mmap.clear_length == 0 {
                        self.go_on(script)
                    } else if mmap.clear_length <= mmap.length && fits_word(
                        self.arch,
                        mmap.addr,
                        mmap.length,
                    ) {
                        let addr = mmap.addr + mmap.length - mmap.clear_length;
                        self.await_reply(
                            Phase::Clearing,
                            Request::Clear { addr, length: mmap.clear_length },
                        )
                    } else {
                        self.give_up(Fatal::BadStatement)
                    }
                }
            },
            Phase::Clearing => self.go_on(script),
            Phase::MappingAnonymous { addr } => {
                if reply != addr {
                    self.give_up(Fatal::MapFailed)
                } else {
                    self.go_on(script)
                }
            },
            Phase::Protecting => {
                if self.arch.is_negative(reply) {
                    self.give_up(Fatal::ProtectFailed)
                } else {
                    self.go_on(script)
                }
            },
            Phase::ClosingLast { start, traced } => {
                if self.arch.is_negative(reply) {
                    self.give_up(Fatal::CloseFailed)
                } else {
                    self.descriptor = None;
                    self.walk_on(start, traced, StackWalk::new(), 0)
                }
            },
            Phase::Patching { start, traced, walk } => self.walk_on(start, traced, walk, reply),
            Phase::Naming { start, traced, offset, name_start } => {
                let byte: u8 = (reply % 256) as u8;
                if byte == 0 {
                    match offset_address(self.arch, start.at_execfn, name_start) {
                        Some(name) => {
                            let request = make_syscall(
                                self.arch,
                                LoaderCall::Control,
                                [PR_SET_NAME, name, 0, 0, 0, 0],
                            );
                            self.await_reply(Phase::SettingName { start, traced }, request)
                        },
                        None => self.give_up(Fatal::BadPath),
                    }
                } else if !fits_word(self.arch, start.at_execfn, offset) || start.at_execfn
                    + offset >= self.arch.word_max() {
                    self.give_up(Fatal::BadPath)
                } else {
                    let name_start = advance_name_start(name_start, offset, byte);
                    self.await_reply(
                        Phase::Naming { start, traced, offset: offset + 1, name_start },
                        Request::ReadByte { addr: start.at_execfn + offset + 1 },
                    )
                }
            },
            Phase::SettingName { start, traced } => {
                let t = if traced {
                    Terminal::Restart {
                        stack_pointer: start.stack_pointer,
                        entry_point: start.entry_point,
                    }
                } else {
                    Terminal::Jump {
                        stack_pointer: start.stack_pointer,
                        entry_point: start.entry_point,
                    }
                };
                self.stop(t)
            },
            Phase::Finished(t) => Request::Finish(t),
        }
    }
}

/// Whether `request` is the kernel call that does `call` on `arch`.
pub open spec fn is_call(arch: Arch, call: LoaderCall, request: Request) -> bool {
    request matches Request::Syscall { number, .. } && number == call_number(arch, call)
}

/// Whether what the interpreter waits for fits what it holds: it waits for
/// an opening only with no file open, and for a mapping of a file or for a
/// close only with a file open; once the last close is through, no file is
/// open any more.
pub open spec fn consistent(l: Loader) -> bool {
    match l.phase {
        Phase::Opening => l.descriptor is None,
        Phase::Closing { .. } => l.descriptor is Some,
        Phase::MappingFile { .. } => l.descriptor is Some,
        Phase::ClosingLast { .. } => l.descriptor is Some,
        Phase::Patching { .. } => l.descriptor is None,
        Phase::Naming { .. } => l.descriptor is None,
        Phase::SettingName { .. } => l.descriptor is None,
        _ => true,
    }
}

/// What the environment answers to the latest of the requests made so far.
pub type Environment = spec_fn(Seq<Request>) -> u64;

/// The interpreter and the requests it has made after `n` steps in the
/// environment `env`, from the state `l` on.
pub open spec fn replay(l: Loader, script: Seq<u8>, env: Environment, n: nat) -> (
    Loader,
    Seq<Request>,
)
    decreases n,
{
    if n == 0 {
        (l, Seq::empty())
    } else {
        let before = replay(l, script, env, (n - 1) as nat);
        let next = step(before.0, script, env(before.1));
        (next.0, before.1.push(next.1))
    }
}

/// A finished interpretation stays finished: it repeats its last request and
/// changes nothing, whatever it is resumed with.
pub proof fn lemma_finished_is_final(l: Loader, script: Seq<u8>, reply: u64)
    requires
        l.phase is Finished,
    ensures
        step(l, script, reply) == (l, Request::Finish(l.phase->Finished_0)),
{
}

/// A new interpreter is consistent, and a step keeps an interpreter
/// consistent.
pub proof fn lemma_step_consistent(l: Loader, script: Seq<u8>, reply: u64)
    requires
        consistent(l),
    ensures
        consistent(step(l, script, reply).0),
        consistent(initial(l.arch)),
{
}

/// At most one file is open at a time: the interpreter asks for a file to be
/// opened only while it holds no descriptor, and it holds none until the
/// opening is answered.
pub proof fn lemma_open_only_when_closed(l: Loader, script: Seq<u8>, reply: u64)
    requires
        consistent(l),
        is_call(l.arch, LoaderCall::Open, step(l, script, reply).1),
    ensures
        step(l, script, reply).0.descriptor is None,
        step(l, script, reply).0.phase is Opening,
{
}

/// A descriptor is given up only through a close: the interpreter closes the
/// descriptor it holds and no other, and it lets go of a descriptor only
/// when it is resumed with the answer to such a close.
pub proof fn lemma_descriptor_released_by_close(l: Loader, script: Seq<u8>, reply: u64)
    requires
        consistent(l),
    ensures
        is_call(l.arch, LoaderCall::Close, step(l, script, reply).1) ==> step(
            l,
            script,
            reply,
        ).0.descriptor is Some && step(l, script, reply).1 == close_request(
            l.arch,
            step(l, script, reply).0.descriptor->0,
        ),
        l.descriptor is Some && step(l, script, reply).0.descriptor != l.descriptor ==> (l.phase is Closing
            || l.phase is ClosingLast),
{
}

/// The interpreter goes through the statements in order: a step never moves
/// the cursor back, nor out of the statement buffer.
pub proof fn lemma_cursor_advances(l: Loader, script: Seq<u8>, reply: u64)
    requires
        l.cursor <= script.len() <= usize::MAX,
    ensures
        l.cursor <= step(l, script, reply).0.cursor <= script.len(),
{
}

/// A cursor at or behind the end of the statement buffer ends the
/// interpretation: the next statement that is asked for gives the exit for a
/// bad statement, whose status is not 0.
pub proof fn lemma_exhausted_stream_exits(l: Loader, script: Seq<u8>, reply: u64)
    requires
        l.phase is Fetch,
        l.cursor >= script.len(),
    ensures
        step(l, script, reply).1 == Request::Finish(Terminal::Exit(Fatal::BadStatement)),
        step(l, script, reply).0.phase == Phase::Finished(Terminal::Exit(Fatal::BadStatement)),
        Fatal::BadStatement.spec_exit_status() != 0,
{
}

/// No two failures share an exit status, and none has the status 0.
pub proof fn lemma_exit_status_distinct(a: Fatal, b: Fatal)
    ensures
        a.spec_exit_status() != 0,
        a.spec_exit_status() == b.spec_exit_status() ==> a == b,
{
}

/// Replaying one statement stream gives the same result each time: two
/// environments that give the same answers to the requests that are made
/// see the same requests, in the same order, and leave the interpreter in
/// the same state. The requests are all that the interpreter does to memory
/// and to the kernel, so the mappings, what is cleared and what is written
/// to the auxiliary vector are the same too.
pub proof fn lemma_replay_deterministic(
    l: Loader,
    script: Seq<u8>,
    env_a: Environment,
    env_b: Environment,
    n: nat,
)
    requires
        forall|k: nat|
            k < n ==> env_a(#[trigger] replay(l, script, env_a, k).1) == env_b(
                replay(l, script, env_a, k).1,
            ),
    ensures
        replay(l, script, env_a, n) == replay(l, script, env_b, n),
    decreases n,
{
    if n > 0 {
        lemma_replay_deterministic(l, script, env_a, env_b, (n - 1) as nat);
        let k = (n - 1) as nat;
        assert(env_a(replay(l, script, env_a, k).1) == env_b(replay(l, script, env_a, k).1));
    }
}

/// The memory of the process as far as the launch reads and writes it.
pub struct Memory {
    /// The address of the first word of the stack.
    pub stack_pointer: u64,
    /// The words of the stack, from the stack pointer upwards.
    pub stack: Seq<u64>,
    /// The address of the path of the executable.
    pub path_address: u64,
    /// The bytes from that address on.
    pub path: Seq<u8>,
}

/// Which word of the stack lies at `addr`.
pub open spec fn word_index(arch: Arch, m: Memory, addr: u64) -> int {
    if arch.is_64bit() {
        (addr - m.stack_pointer) / 8
    } else {
        (addr - m.stack_pointer) / 4
    }
}

/// What the memory answers to `request`: the word or the byte that is asked
/// for, and 0 to a request that asks for nothing.
pub open spec fn answer(arch: Arch, m: Memory, request: Request) -> u64 {
    match request {
        Request::ReadWord { addr } => m.stack[word_index(arch, m, addr)],
        Request::ReadByte { addr } => m.path[addr - m.path_address] as u64,
        _ => 0,
    }
}

/// The memory once `request` is carried out: a word that is written is
/// there, and nothing else has changed.
pub open spec fn store(arch: Arch, m: Memory, request: Request) -> Memory {
    match request {
        Request::WriteWord { addr, value } => Memory {
            stack: m.stack.update(word_index(arch, m, addr), value),
            ..m
        },
        _ => m,
    }
}

/// The interpreter, the memory and the request that is pending after `n`
/// steps in which the memory answers every request and takes every write.
pub open spec fn launch_run(
    l: Loader,
    script: Seq<u8>,
    m: Memory,
    pending: Request,
    n: nat,
) -> (Loader, Memory, Request)
    decreases n,
{
    if n == 0 {
        (l, m, pending)
    } else {
        let before = launch_run(l, script, m, pending, (n - 1) as nat);
        let next = step(before.0, script, answer(before.0.arch, before.1, before.2));
        (next.0, store(next.0.arch, before.1, next.1), next.1)
    }
}

/// A run of `n + 1` steps is one step and then a run of `n` steps.
proof fn lemma_launch_front(l: Loader, script: Seq<u8>, m: Memory, pending: Request, n: nat)
    ensures
        ({
            let next = step(l, script, answer(l.arch, m, pending));
            launch_run(l, script, m, pending, n + 1) == launch_run(
                next.0,
                script,
                store(next.0.arch, m, next.1),
                next.1,
                n,
            )
        }),
    decreases n,
{
    if n > 0 {
        lemma_launch_front(l, script, m, pending, (n - 1) as nat);
    } else {
        assert(launch_run(l, script, m, pending, 0) == (l, m, pending));
    }
}

/// Whether the memory is the one that the launch for `start` works on: its
/// stack is the one at the stack pointer and has the expected layout, its
/// path is the path of the executable and ends, and both lie inside the
/// address space of `arch`.
pub open spec fn launch_memory(arch: Arch, m: Memory, start: LoadStatementStart) -> bool {
    &&& m.stack_pointer == start.stack_pointer
    &&& m.path_address == start.at_execfn
    &&& stack_check(m.stack) is Ok
    &&& m.stack_pointer + arch.spec_bytes_of(m.stack.len() as int) <= arch.spec_word_max()
    &&& path_len(m.path) < m.path.len()
    &&& m.path_address + path_len(m.path) <= arch.spec_word_max()
}

/// From a point of the walk over the stack on, the interpreter reads and
/// writes the stack until it is patched.
proof fn lemma_walk_launch(
    l: Loader,
    script: Seq<u8>,
    m: Memory,
    s0: Seq<u64>,
    start: LoadStatementStart,
    traced: bool,
    walk: StackWalk,
    pending: Request,
) -> (n: nat)
    requires
        l.phase == (Phase::Patching { start, traced, walk }),
        m.stack_pointer == start.stack_pointer,
        m.path_address == start.at_execfn,
        m.stack.len() == s0.len(),
        stack_check(s0) is Ok,
        m.stack_pointer + l.arch.spec_bytes_of(s0.len() as int) <= l.arch.spec_word_max(),
        start.at_execfn <= l.arch.spec_word_max(),
        walk.stage is Argc || walk.stage is ArgvEnd || walk.stage is Envp || walk.stage is AuxType
            || walk.stage is AuxValue,
        walk.stage !is AuxValue ==> walk.index < s0.len() && pending == (Request::ReadWord {
            addr: (start.stack_pointer + l.arch.spec_bytes_of(walk.index as int)) as u64,
        }),
        walk.stage is AuxValue ==> pending is WriteWord,
        walk_inv(s0, m.stack, walk, answer(l.arch, m, pending), start, base_of(l)),
    ensures
        launch_run(l, script, m, pending, n) == (
            Loader { phase: Phase::Naming { start, traced, offset: 0, name_start: 0 }, ..l },
            Memory { stack: patched(s0, start, base_of(l)), ..m },
            Request::ReadByte { addr: start.at_execfn },
        ),
    decreases walk_rank(walk, s0.len() as int),
{
    let reply = answer(l.arch, m, pending);
    let next = step(l, script, reply);
    let stepped = walk_step(walk, reply, start, base_of(l));
    lemma_walk_step(s0, m.stack, walk, reply, start, base_of(l));
    lemma_launch_front(l, script, m, pending, 0);
    match stepped.1 {
        Access::Read { index } => {
            assert(index < s0.len());
            let addr = (start.stack_pointer + l.arch.spec_bytes_of(index as int)) as u64;
            assert(word_addr(l.arch, start.stack_pointer, index) == Some(addr));
            assert(word_index(l.arch, m, addr) == index);
            assert(next.1 == Request::ReadWord { addr });
            let more = lemma_walk_launch(next.0, script, m, s0, start, traced, stepped.0, next.1);
            lemma_launch_front(l, script, m, pending, more);
            more + 1
        },
        Access::Write { index, value } => {
            assert(index < s0.len());
            let addr = (start.stack_pointer + l.arch.spec_bytes_of(index as int)) as u64;
            assert(word_addr(l.arch, start.stack_pointer, index) == Some(addr));
            assert(word_index(l.arch, m, addr) == index);
            assert(next.1 == Request::WriteWord { addr, value });
            let written = store(l.arch, m, next.1);
            assert(written.stack == m.stack.update(index as int, value));
            let more = lemma_walk_launch(
                next.0,
                script,
                written,
                s0,
                start,
                traced,
                stepped.0,
                next.1,
            );
            lemma_launch_front(l, script, m, pending, more);
            more + 1
        },
        Access::Done => {
            assert(launch_run(l, script, m, pending, 1) == (next.0, store(l.arch, m, next.1), next.1));
            1
        },
        Access::Fail(_) => 0,
    }
}

/// From a point of the scan of the path on, the interpreter reads the path
/// up to its end and then names the process after its base name.
proof fn lemma_name_launch(
    l: Loader,
    script: Seq<u8>,
    m: Memory,
    start: LoadStatementStart,
    traced: bool,
    offset: u64,
) -> (n: nat)
    requires
        l.phase == (Phase::Naming {
            start,
            traced,
            offset,
            name_start: name_start(m.path, offset as int) as u64,
        }),
        m.path_address == start.at_execfn,
        offset <= path_len(m.path) < m.path.len(),
        nul_from(m.path, offset as int) == path_len(m.path),
        m.path_address + path_len(m.path) <= l.arch.spec_word_max(),
    ensures
        launch_run(
            l,
            script,
            m,
            Request::ReadByte { addr: (start.at_execfn + offset) as u64 },
            n,
        ) == (
            Loader { phase: Phase::SettingName { start, traced }, ..l },
            m,
            name_request(l.arch, (start.at_execfn + spec_basename_offset(m.path)) as u64),
        ),
    decreases path_len(m.path) - offset,
{
    let pending = Request::ReadByte { addr: (start.at_execfn + offset) as u64 };
    let reply = answer(l.arch, m, pending);
    let next = step(l, script, reply);
    lemma_name_start(m.path, offset as int);
    lemma_name_start(m.path, offset + 1);
    lemma_name_start(m.path, path_len(m.path));
    lemma_path_len(m.path, offset as int);
    lemma_launch_front(l, script, m, pending, 0);
    assert(reply == m.path[offset as int]);
    assert(reply % 256 == reply);
    if m.path[offset as int] == 0 {
        assert(offset == path_len(m.path));
        assert(launch_run(l, script, m, pending, 1) == (next.0, store(l.arch, m, next.1), next.1));
        1
    } else {
        assert(offset < path_len(m.path));
        assert(name_start_after(
            name_start(m.path, offset as int) as u64,
            offset,
            m.path[offset as int],
        ) == name_start(m.path, offset + 1));
        let more = lemma_name_launch(next.0, script, m, start, traced, (offset + 1) as u64);
        lemma_launch_front(l, script, m, pending, more);
        more + 1
    }
}

/// From the answer to the last close on, the interpreter walks the stack
/// until it is patched, and then asks for the first byte of the path.
proof fn lemma_launch_walks(
    l: Loader,
    script: Seq<u8>,
    m: Memory,
    reply: u64,
    start: LoadStatementStart,
    traced: bool,
) -> (n: nat)
    requires
        l.phase == (Phase::ClosingLast { start, traced }),
        !l.arch.spec_is_negative(reply),
        launch_memory(l.arch, m, start),
    ensures
        launch_run(step(l, script, reply).0, script, m, step(l, script, reply).1, n) == (
            Loader {
                phase: Phase::Naming { start, traced, offset: 0, name_start: 0 },
                descriptor: None,
                ..l
            },
            Memory { stack: patched(m.stack, start, base_of(l)), ..m },
            Request::ReadByte { addr: start.at_execfn },
        ),
{
    let first = step(l, script, reply);
    let held = Loader { descriptor: None, ..l };
    let began = walk_step(StackWalk { stage: WalkStage::Begin, index: 0 }, 0, start, base_of(l));
    lemma_path_len(m.path, 0);
    assert(began == (
        StackWalk { stage: WalkStage::Argc, index: 0 },
        Access::Read { index: 0 },
    ));
    assert(word_addr(l.arch, start.stack_pointer, 0) == Some(start.stack_pointer));
    assert(first == (
        Loader { phase: Phase::Patching { start, traced, walk: began.0 }, ..held },
        Request::ReadWord { addr: start.stack_pointer },
    ));
    assert(word_index(l.arch, m, start.stack_pointer) == 0);
    assert(base_of(first.0) == base_of(l));
    lemma_walk_launch(first.0, script, m, m.stack, start, traced, began.0, first.1)
}

/// Once the name is set, the next step hands control over.
proof fn lemma_name_set_transfers(
    l: Loader,
    script: Seq<u8>,
    start: LoadStatementStart,
    traced: bool,
    any: u64,
)
    requires
        l.phase == (Phase::SettingName { start, traced }),
    ensures
        step(l, script, any).1 == Request::Finish(transfer(start, traced)),
{
}

/// The launch does to memory what [`patched`] and
/// [`spec_basename_offset`] say.
///
/// The interpreter stands where the last close is answered and was
/// answered well. Its stack has the expected layout and its path ends. Then,
/// with the memory answering every read and taking every write, the
/// interpreter comes to ask for the name of the process to be set, in `n`
/// steps. By then the stack is the patched stack, nothing else in memory has
/// changed, and the name that is asked for is the base name of the path. One
/// more step hands control over.
#[verifier::rlimit(60)]
pub proof fn lemma_launch_patches_and_names(
    l: Loader,
    script: Seq<u8>,
    m: Memory,
    reply: u64,
    start: LoadStatementStart,
    traced: bool,
) -> (n: nat)
    requires
        l.phase == (Phase::ClosingLast { start, traced }),
        !l.arch.spec_is_negative(reply),
        launch_memory(l.arch, m, start),
    ensures
        ({
            let first = step(l, script, reply);
            let end = launch_run(first.0, script, m, first.1, n);
            &&& end.0 == Loader {
                phase: Phase::SettingName { start, traced },
                descriptor: None,
                ..l
            }
            &&& end.1 == Memory { stack: patched(m.stack, start, base_of(l)), ..m }
            &&& end.2 == name_request(
                l.arch,
                (start.at_execfn + spec_basename_offset(m.path)) as u64,
            )
            &&& forall|any: u64| #[trigger]
                step(end.0, script, any).1 == Request::Finish(transfer(start, traced))
        }),
{
    let first = step(l, script, reply);
    let walked = lemma_launch_walks(l, script, m, reply, start, traced);
    let after = launch_run(first.0, script, m, first.1, walked);
    lemma_path_len(m.path, 0);
    lemma_name_start(m.path, 0);
    lemma_name_start(m.path, path_len(m.path));
    assert(after.1.path == m.path);
    assert(name_start(m.path, 0) == 0);
    let named = lemma_name_launch(after.0, script, after.1, start, traced, 0);
    lemma_launch_append(first.0, script, m, first.1, walked, named);
    let end = launch_run(first.0, script, m, first.1, walked + named);
    assert forall|any: u64| #[trigger]
        step(end.0, script, any).1 == Request::Finish(transfer(start, traced)) by {
        lemma_name_set_transfers(end.0, script, start, traced, any);
    }
    walked + named
}

/// A run of `a + b` steps is a run of `a` steps and then a run of `b` steps.
proof fn lemma_launch_append(
    l: Loader,
    script: Seq<u8>,
    m: Memory,
    pending: Request,
    a: nat,
    b: nat,
)
    ensures
        ({
            let mid = launch_run(l, script, m, pending, a);
            launch_run(l, script, m, pending, a + b) == launch_run(mid.0, script, mid.1, mid.2, b)
        }),
    decreases b,
{
    if b > 0 {
        lemma_launch_append(l, script, m, pending, a, (b - 1) as nat);
    }
}

/// An environment that answers as the memory does takes the interpreter
/// where the memory takes it: [`replay`] in such an environment and
/// [`launch_run`] end in the same state, with the same request pending.
pub proof fn lemma_replay_follows_memory(
    l: Loader,
    script: Seq<u8>,
    env: Environment,
    m: Memory,
    pending: Request,
    n: nat,
)
    requires
        forall|k: nat|
            k < n ==> env(#[trigger] replay(l, script, env, k).1) == answer(
                launch_run(l, script, m, pending, k).0.arch,
                launch_run(l, script, m, pending, k).1,
                launch_run(l, script, m, pending, k).2,
            ),
    ensures
        replay(l, script, env, n).0 == launch_run(l, script, m, pending, n).0,
        n > 0 ==> replay(l, script, env, n).1.last() == launch_run(l, script, m, pending, n).2,
    decreases n,
{
    if n > 0 {
        let k = (n - 1) as nat;
        lemma_replay_follows_memory(l, script, env, m, pending, k);
        assert(env(replay(l, script, env, k).1) == answer(
            launch_run(l, script, m, pending, k).0.arch,
            launch_run(l, script, m, pending, k).1,
            launch_run(l, script, m, pending, k).2,
        ));
    }
}

/// The interpreter before its first step: it stands before the first
/// statement and holds no file.
pub open spec fn initial(arch: Arch) -> Loader {
    Loader {
        arch,
        cursor: 0,
        descriptor: None,
        image_base: None,
        base_pending: true,
        phase: Phase::Fetch,
    }
}

/// How many of `requests` are the kernel call that does `call` on `arch`.
pub open spec fn calls(arch: Arch, call: LoaderCall, requests: Seq<Request>) -> int
    decreases requests.len(),
{
    if requests.len() == 0 {
        0
    } else {
        calls(arch, call, requests.drop_last()) + if is_call(arch, call, requests.last()) {
            1int
        } else {
            0int
        }
    }
}

/// How many files were asked to be opened and not yet asked to be closed.
pub open spec fn open_files(arch: Arch, requests: Seq<Request>) -> int {
    calls(arch, LoaderCall::Open, requests) - calls(arch, LoaderCall::Close, requests)
}

/// Whether `open` is the number of files that the interpreter in the state
/// `l` has asked to be opened and not yet to be closed.
pub open spec fn holds_files(l: Loader, open: int) -> bool {
    &&& consistent(l)
    &&& match l.phase {
        Phase::Finished(t) => 0 <= open <= 1 && (t is Jump || t is Restart ==> open == 0),
        Phase::Opening => open == 1,
        Phase::Closing { .. } => open == 0,
        Phase::ClosingLast { .. } => open == 0,
        Phase::Patching { .. } => open == 0,
        Phase::Naming { .. } => open == 0,
        Phase::SettingName { .. } => open == 0,
        _ => open == if l.descriptor is Some {
            1int
        } else {
            0int
        },
    }
}

/// A step opens or closes at most one file, and keeps the count right.
proof fn lemma_step_holds_files(l: Loader, script: Seq<u8>, reply: u64, open: int)
    requires
        holds_files(l, open),
    ensures
        ({
            let next = step(l, script, reply);
            holds_files(
                next.0,
                open + (if is_call(l.arch, LoaderCall::Open, next.1) {
                    1int
                } else {
                    0int
                }) - (if is_call(l.arch, LoaderCall::Close, next.1) {
                    1int
                } else {
                    0int
                }),
            ) && next.0.arch == l.arch
        }),
{
}

/// Over a whole run, at most one file is open at any time: however the
/// environment answers, the interpreter has never asked for more files to be
/// opened than one more than it has asked to be closed, nor for more to be
/// closed than it has asked to be opened. When it hands control over, every
/// file that it asked to be opened it has asked to be closed.
pub proof fn lemma_one_file_at_a_time(arch: Arch, script: Seq<u8>, env: Environment, n: nat)
    ensures
        ({
            let run = replay(initial(arch), script, env, n);
            &&& 0 <= open_files(arch, run.1) <= 1
            &&& holds_files(run.0, open_files(arch, run.1))
            &&& (run.0.phase is Finished && (run.0.phase->Finished_0 is Jump
                || run.0.phase->Finished_0 is Restart) ==> open_files(arch, run.1) == 0)
            &&& run.0.arch == arch
        }),
    decreases n,
{
    if n > 0 {
        let before = replay(initial(arch), script, env, (n - 1) as nat);
        lemma_one_file_at_a_time(arch, script, env, (n - 1) as nat);
        let next = step(before.0, script, env(before.1));
        lemma_step_holds_files(before.0, script, env(before.1), open_files(arch, before.1));
        assert(before.1.push(next.1).drop_last() =~= before.1);
        assert(before.1.push(next.1).last() == next.1);
    } else {
        assert(replay(initial(arch), script, env, 0).1.len() == 0);
    }
}

} // verus!
