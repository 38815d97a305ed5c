//! The initial process stack and the patching of its auxiliary vector.
//!
//! Right after an `execve` the stack holds, from the stack pointer upwards,
//! `argc`, the `argc` words of `argv` and a null word, the words of `envp` and
//! a null word, then the auxiliary vector: pairs of a type and a value, the
//! last pair of type [`AT_NULL`]. The walk below finds the vector and replaces
//! the values that describe the program that was really loaded. It reads and
//! writes one word at a time, so it can run against live memory as well as
//! against a copy of the stack.

use vstd::prelude::*;
use crate::script::LoadStatementStart;

verus! {

/// Type of the entry that ends the auxiliary vector.
pub const AT_NULL: u64 = 0;

/// Type of the entry that holds the address of the program headers.
pub const AT_PHDR: u64 = 3;

/// Type of the entry that holds the size of one program header.
pub const AT_PHENT: u64 = 4;

/// Type of the entry that holds the number of program headers.
pub const AT_PHNUM: u64 = 5;

/// Type of the entry that holds the base address of the interpreter.
pub const AT_BASE: u64 = 7;

/// Type of the entry that holds the entry point of the program.
pub const AT_ENTRY: u64 = 9;

/// Type of the entry that holds the address of the executable's path.
pub const AT_EXECFN: u64 = 31;

/// How a stack fails to have the expected layout.
#[derive(Clone, Copy, Debug, PartialEq, Eq, Structural)]
pub enum StackError {
    /// The layout needs a word that the stack does not have.
    Truncated,
    /// The word after the last argument is not null.
    ArgvNotTerminated,
}

/// The value that an entry of type `ty` gets, if entries of that type are
/// rewritten at all.
pub open spec fn replacement(ty: u64, start: LoadStatementStart, base: u64) -> Option<u64> {
    if ty == AT_PHDR {
        Some(start.at_phdr)
    } else if ty == AT_PHENT {
        Some(start.at_phent)
    } else if ty == AT_PHNUM {
        Some(start.at_phnum)
    } else if ty == AT_ENTRY {
        Some(start.at_entry)
    } else if ty == AT_BASE {
        Some(base)
    } else if ty == AT_EXECFN {
        Some(start.at_execfn)
    } else {
        None
    }
}

/// Whether `argc` can be read, and the word after the last argument lies in
/// the stack and is null.
pub open spec fn argv_terminated(s: Seq<u64>) -> bool {
    s.len() > 0 && s[0] + 1 < s.len() && s[s[0] + 1] == 0
}

/// The index of the first null word at or after `from`; the length of the
/// stack if there is none.
pub open spec fn first_null(s: Seq<u64>, from: int) -> int
    decreases s.len() - from,
{
    if from < 0 || from >= s.len() {
        s.len() as int
    } else if s[from] == 0 {
        from
    } else {
        first_null(s, from + 1)
    }
}

/// The index of the null word that ends `envp`; the length of the stack if
/// `envp` does not end.
pub open spec fn envp_end(s: Seq<u64>) -> int {
    first_null(s, s[0] + 2)
}

/// The index of the first entry of the auxiliary vector.
pub open spec fn auxv_start(s: Seq<u64>) -> int {
    envp_end(s) + 1
}

/// The index of the first [`AT_NULL`] type among the entries `from`,
/// `from + 2`, ...; an index outside the stack if there is none.
pub open spec fn auxv_end(s: Seq<u64>, from: int) -> int
    decreases s.len() + 1 - from,
{
    if from < 0 || from >= s.len() {
        from
    } else if s[from] == AT_NULL {
        from
    } else {
        auxv_end(s, from + 2)
    }
}

/// Whether the stack has the expected layout, and how it fails to.
pub open spec fn stack_check(s: Seq<u64>) -> Result<(), StackError> {
    if s.len() == 0 || s[0] + 1 >= s.len() {
        Err(StackError::Truncated)
    } else if s[s[0] + 1] != 0 {
        Err(StackError::ArgvNotTerminated)
    } else if envp_end(s) >= s.len() || auxv_end(s, auxv_start(s)) >= s.len() {
        Err(StackError::Truncated)
    } else {
        Ok(())
    }
}

/// Whether `i` is the value of an entry of the auxiliary vector that stands
/// before the terminating entry.
pub open spec fn is_aux_value(s: Seq<u64>, i: int) -> bool {
    &&& argv_terminated(s)
    &&& envp_end(s) < s.len()
    &&& auxv_start(s) < i < s.len()
    &&& (i - auxv_start(s)) % 2 == 1
    &&& i < auxv_end(s, auxv_start(s))
}

/// The stack after patching: the same layout, where each entry of the
/// auxiliary vector whose type has a replacement holds that replacement.
/// Nothing changes in a stack in which no auxiliary vector is found.
pub open spec fn patched(s: Seq<u64>, start: LoadStatementStart, base: u64) -> Seq<u64> {
    Seq::new(
        s.len(),
        |i: int|
            if is_aux_value(s, i) {
                match replacement(s[i - 1], start, base) {
                    Some(v) => v,
                    None => s[i],
                }
            } else {
                s[i]
            },
    )
}

/// Where a walk over the stack stands.
#[derive(Clone, Copy, Debug, PartialEq, Eq, Structural)]
pub enum WalkStage {
    /// Nothing was read yet.
    Begin,
    /// `argc` is being read.
    Argc,
    /// The word after the last argument is being read.
    ArgvEnd,
    /// A word of `envp` is being read.
    Envp,
    /// The type of an entry is being read.
    AuxType,
    /// The value of an entry is being written.
    AuxValue,
    /// The terminating entry was found.
    Done,
    /// The stack does not have the expected layout.
    Failed(StackError),
}

/// A walk over the stack: its stage, and the index of the word it reads (for
/// [`WalkStage::AuxValue`], of the type whose value it writes).
#[derive(Clone, Copy, Debug, PartialEq, Eq, Structural)]
pub struct StackWalk {
    pub stage: WalkStage,
    pub index: u64,
}

/// What a walk asks for next. Indices count words from the stack pointer.
#[derive(Clone, Copy, Debug, PartialEq, Eq, Structural)]
pub enum Access {
    /// Read the word at `index` and resume the walk with it.
    Read { index: u64 },
    /// Write `value` to the word at `index`, then resume the walk.
    Write { index: u64, value: u64 },
    /// The walk is over; every entry that has a replacement was written.
    Done,
    /// The walk is over; the stack does not have the expected layout.
    Fail(StackError),
}

/// The walk that stops because of `error`.
pub open spec fn walk_fail(error: StackError) -> (StackWalk, Access) {
    (StackWalk { stage: WalkStage::Failed(error), index: 0 }, Access::Fail(error))
}

/// The walk that goes on by reading the word at `index` in `stage`; it stops
/// where no machine word can hold the index.
pub open spec fn walk_read(stage: WalkStage, index: int) -> (StackWalk, Access) {
    if index > u64::MAX {
        walk_fail(StackError::Truncated)
    } else {
        (StackWalk { stage, index: index as u64 }, Access::Read { index: index as u64 })
    }
}

/// One step of the walk: from where it stands and the word that came back
/// for its last request to where it stands next and what it asks for. The
/// word is not looked at by a walk that has just begun or has just written.
pub open spec fn walk_step(
    walk: StackWalk,
    reply: u64,
    start: LoadStatementStart,
    base: u64,
) -> (StackWalk, Access) {
    match walk.stage {
        WalkStage::Begin => walk_read(WalkStage::Argc, 0),
        WalkStage::Argc => walk_read(WalkStage::ArgvEnd, reply + 1),
        WalkStage::ArgvEnd => if reply != 0 {
            walk_fail(StackError::ArgvNotTerminated)
        } else {
            walk_read(WalkStage::Envp, walk.index + 1)
        },
        WalkStage::Envp => if reply == 0 {
            walk_read(WalkStage::AuxType, walk.index + 1)
        } else {
            walk_read(WalkStage::Envp, walk.index + 1)
        },
        WalkStage::AuxType => if reply == AT_NULL {
            (StackWalk { stage: WalkStage::Done, index: walk.index }, Access::Done)
        } else {
            match replacement(reply, start, base) {
                Some(value) => if walk.index + 1 > u64::MAX {
                    walk_fail(StackError::Truncated)
                } else {
                    (
                        StackWalk { stage: WalkStage::AuxValue, index: walk.index },
                        Access::Write { index: (walk.index + 1) as u64, value },
                    )
                },
                None => walk_read(WalkStage::AuxType, walk.index + 2),
            }
        },
        WalkStage::AuxValue => walk_read(WalkStage::AuxType, walk.index + 2),
        WalkStage::Done => (walk, Access::Done),
        WalkStage::Failed(error) => (walk, Access::Fail(error)),
    }
}

/// The value that an entry of type `ty` gets, if entries of that type are
/// rewritten at all.
pub fn aux_replacement(ty: u64, start: &LoadStatementStart, base: u64) -> (r: Option<u64>)
    ensures
        r == replacement(ty, *start, base),
{
    if ty == AT_PHDR {
        Some(start.at_phdr)
    } else if ty == AT_PHENT {
        Some(start.at_phent)
    } else if ty == AT_PHNUM {
        Some(start.at_phnum)
    } else if ty == AT_ENTRY {
        Some(start.at_entry)
    } else if ty == AT_BASE {
        Some(base)
    } else if ty == AT_EXECFN {
        Some(start.at_execfn)
    } else {
        None
    }
}

fn fail_with(error: StackError) -> (r: (StackWalk, Access))
    ensures
        r == walk_fail(error),
{
    (StackWalk { stage: WalkStage::Failed(error), index: 0 }, Access::Fail(error))
}

fn read_after(stage: WalkStage, index: u64, step: u64) -> (r: (StackWalk, Access))
    ensures
        r == walk_read(stage, index + step),
{
    match index.checked_add(step) {
        Some(next) => (StackWalk { stage, index: next }, Access::Read { index: next }),
        None => fail_with(StackError::Truncated),
    }
}

impl StackWalk {
    /// A walk that has not read anything yet.
    pub fn new() -> (walk: StackWalk)
        ensures
            walk == (StackWalk { stage: WalkStage::Begin, index: 0 }),
    {
        StackWalk { stage: WalkStage::Begin, index: 0 }
    }

    /// Takes the walk one step further: `reply` is the word that the last
    /// [`Access::Read`] asked for (anything after a write, or at the start).
    pub fn resume(self, reply: u64, start: &LoadStatementStart, base: u64) -> (r: (
        StackWalk,
        Access,
    ))
        ensures
            r == walk_step(self, reply, *start, base),
    {
        match self.stage {
            WalkStage::Begin => read_after(WalkStage::Argc, 0, 0),
            WalkStage::Argc => read_after(WalkStage::ArgvEnd, reply, 1),
            WalkStage::ArgvEnd => if reply != 0 {
                fail_with(StackError::ArgvNotTerminated)
            } else {
                read_after(WalkStage::Envp, self.index, 1)
            },
            WalkStage::Envp => if reply == 0 {
                read_after(WalkStage::AuxType, self.index, 1)
            } else {
                read_after(WalkStage::Envp, self.index, 1)
            },
            WalkStage::AuxType => if reply == AT_NULL {
                (StackWalk { stage: WalkStage::Done, index: self.index }, Access::Done)
            } else {
                match aux_replacement(reply, start, base) {
                    Some(value) => match self.index.checked_add(1) {
                        Some(slot) => (
                            StackWalk { stage: WalkStage::AuxValue, index: self.index },
                            Access::Write { index: slot, value },
                        ),
                        None => fail_with(StackError::Truncated),
                    },
                    None => read_after(WalkStage::AuxType, self.index, 2),
                }
            },
            WalkStage::AuxValue => read_after(WalkStage::AuxType, self.index, 2),
            WalkStage::Done => (self, Access::Done),
            WalkStage::Failed(error) => (self, Access::Fail(error)),
        }
    }
}


/// The index of the first terminating entry does not lie before the entry
/// at which the search starts.
pub proof fn lemma_auxv_end_from(s: Seq<u64>, from: int)
    ensures
        auxv_end(s, from) >= from,
    decreases s.len() + 1 - from,
{
    if 0 <= from < s.len() && s[from] != AT_NULL {
        lemma_auxv_end_from(s, from + 2);
    }
}

/// The first null word at or after `from` does not lie before `from`, nor
/// after the end of the stack.
pub proof fn lemma_first_null_from(s: Seq<u64>, from: int)
    requires
        0 <= from,
    ensures
        from <= s.len() ==> from <= first_null(s, from) <= s.len(),
        from >= s.len() ==> first_null(s, from) == s.len(),
    decreases s.len() - from,
{
    if from < s.len() && s[from] != 0 {
        lemma_first_null_from(s, from + 1);
    }
}

/// What holds between the stack `s0` that a walk began on, the stack `s` as
/// the walk has left it, and the word `reply` that answers its last request.
pub open spec fn walk_inv(
    s0: Seq<u64>,
    s: Seq<u64>,
    walk: StackWalk,
    reply: u64,
    start: LoadStatementStart,
    base: u64,
) -> bool {
    let index = walk.index as int;
    &&& s.len() == s0.len()
    &&& match walk.stage {
        WalkStage::Begin => s == s0,
        WalkStage::Argc => s == s0 && index == 0 && s0.len() > 0 && reply == s0[0],
        WalkStage::ArgvEnd => {
            &&& s == s0
            &&& s0.len() > 0
            &&& index == s0[0] + 1
            &&& index < s0.len()
            &&& reply == s0[index]
        },
        WalkStage::Envp => {
            &&& s == s0
            &&& argv_terminated(s0)
            &&& s0[0] + 2 <= index < s0.len()
            &&& reply == s0[index]
            &&& first_null(s0, index) == envp_end(s0)
        },
        WalkStage::AuxType => {
            &&& argv_terminated(s0)
            &&& envp_end(s0) < s0.len()
            &&& auxv_start(s0) <= index < s0.len()
            &&& (index - auxv_start(s0)) % 2 == 0
            &&& auxv_end(s0, index) == auxv_end(s0, auxv_start(s0))
            &&& reply == s0[index]
            &&& forall|i: int|
                0 <= i < s.len() ==> #[trigger] s[i] == if i < index {
                    patched(s0, start, base)[i]
                } else {
                    s0[i]
                }
        },
        WalkStage::AuxValue => {
            &&& argv_terminated(s0)
            &&& envp_end(s0) < s0.len()
            &&& auxv_start(s0) <= index
            &&& index + 1 < s0.len()
            &&& (index - auxv_start(s0)) % 2 == 0
            &&& auxv_end(s0, index) == auxv_end(s0, auxv_start(s0))
            &&& s0[index] != AT_NULL
            &&& forall|i: int|
                0 <= i < s.len() ==> #[trigger] s[i] == if i < index + 2 {
                    patched(s0, start, base)[i]
                } else {
                    s0[i]
                }
        },
        WalkStage::Done => false,
        WalkStage::Failed(_) => false,
    }
}

/// How far a walk over a stack of `len` words is from its end.
pub open spec fn walk_rank(walk: StackWalk, len: int) -> int {
    let left = 2 * (len - walk.index) + 2;
    match walk.stage {
        WalkStage::Begin => 4 * len + 16,
        WalkStage::Argc => 4 * len + 15,
        WalkStage::ArgvEnd => 4 * len + 14,
        WalkStage::Envp => 2 * len + 6 + left,
        WalkStage::AuxType => left,
        WalkStage::AuxValue => left - 1,
        WalkStage::Done => 0,
        WalkStage::Failed(_) => 0,
    }
}

/// Patches the auxiliary vector of `stack`, whose first word is the one at
/// the stack pointer, for the program that `start` describes and that was
/// loaded at `base`.
///
/// The walk never leaves `stack`. It succeeds exactly on a stack that has the
/// expected layout, and tells otherwise what is wrong. Entries that it reached
/// before it found the stack cut short are patched all the same.
pub fn patch_auxv(stack: &mut Vec<u64>, start: &LoadStatementStart, base: u64) -> (r: Result<
    (),
    StackError,
>)
    ensures
        r == stack_check(old(stack)@),
        final(stack)@ == patched(old(stack)@, *start, base),
{
    let ghost s0 = stack@;
    let len = stack.len();
    let mut walk = StackWalk::new();
    let mut reply: u64 = 0;
    loop
        invariant
            s0 == old(stack)@,
            len == s0.len(),
            walk_inv(s0, stack@, walk, reply, *start, base),
        decreases walk_rank(walk, len as int),
    {
        let ghost before = walk;
        let (next, access) = walk.resume(reply, start, base);
        proof {
            lemma_auxv_end_from(s0, before.index as int);
            lemma_auxv_end_from(s0, before.index + 2);
            lemma_auxv_end_from(s0, auxv_start(s0));
            lemma_first_null_from(s0, before.index as int);
            lemma_first_null_from(s0, before.index + 1);
        }
        walk = next;
        match access {
            Access::Read { index } => {
                if index >= len as u64 {
                    assert(stack@ =~= patched(s0, *start, base));
                    return Err(StackError::Truncated);
                }
                reply = stack[index as usize];
            },
            Access::Write { index, value } => {
                if index >= len as u64 {
                    assert(stack@ =~= patched(s0, *start, base));
                    return Err(StackError::Truncated);
                }
                stack.set(index as usize, value);
            },
            Access::Done => {
                assert(stack@ =~= patched(s0, *start, base));
                return Ok(());
            },
            Access::Fail(error) => {
                assert(stack@ =~= patched(s0, *start, base));
                return Err(error);
            },
        }
    }
}

/// Two stacks that agree up to the first null word of one have their first
/// null word at the same place.
proof fn lemma_first_null_agree(s: Seq<u64>, p: Seq<u64>, from: int)
    requires
        0 <= from,
        p.len() == s.len(),
        forall|i: int| from <= i <= first_null(s, from) && i < s.len() ==> p[i] == s[i],
    ensures
        first_null(p, from) == first_null(s, from),
    decreases s.len() - from,
{
    if from < s.len() && s[from] != 0 {
        lemma_first_null_from(s, from + 1);
        lemma_first_null_agree(s, p, from + 1);
    }
}

/// Two stacks that agree on every second word from `from` on have their
/// terminating entry at the same place.
proof fn lemma_auxv_end_agree(s: Seq<u64>, p: Seq<u64>, from: int)
    requires
        0 <= from,
        p.len() == s.len(),
        forall|i: int| from <= i < s.len() && (i - from) % 2 == 0 ==> p[i] == s[i],
    ensures
        auxv_end(p, from) == auxv_end(s, from),
    decreases s.len() + 1 - from,
{
    if from < s.len() && s[from] != AT_NULL {
        assert forall|i: int| from + 2 <= i < s.len() && (i - (from + 2)) % 2 == 0 implies p[i]
            == s[i] by {
            assert((i - from) % 2 == 0);
        }
        lemma_auxv_end_agree(s, p, from + 2);
    }
}

/// Patching keeps the layout of the stack: its length, where `envp` ends,
/// where the auxiliary vector starts and ends, which words are values of
/// entries, and whether and how the layout is wrong. Only values of entries
/// change.
pub proof fn lemma_patched_keeps_layout(s: Seq<u64>, start: LoadStatementStart, base: u64)
    ensures
        patched(s, start, base).len() == s.len(),
        forall|i: int|
            0 <= i < s.len() && !is_aux_value(s, i) ==> #[trigger] patched(s, start, base)[i]
                == s[i],
        stack_check(patched(s, start, base)) == stack_check(s),
        argv_terminated(s) ==> envp_end(patched(s, start, base)) == envp_end(s),
        argv_terminated(s) && envp_end(s) < s.len() ==> auxv_end(
            patched(s, start, base),
            auxv_start(s),
        ) == auxv_end(s, auxv_start(s)),
        forall|i: int| is_aux_value(patched(s, start, base), i) == is_aux_value(s, i),
{
    let p = patched(s, start, base);
    if argv_terminated(s) {
        lemma_first_null_from(s, s[0] + 2);
        assert(p[0] == s[0]);
        assert(p[s[0] + 1] == s[s[0] + 1]);
        lemma_first_null_agree(s, p, s[0] + 2);
        if envp_end(s) < s.len() {
            lemma_auxv_end_agree(s, p, auxv_start(s));
        }
    } else if s.len() > 0 {
        assert(p =~= s);
    }
}

/// Patching twice changes nothing more than patching once.
pub proof fn lemma_patched_idempotent(s: Seq<u64>, start: LoadStatementStart, base: u64)
    ensures
        patched(patched(s, start, base), start, base) == patched(s, start, base),
{
    let p = patched(s, start, base);
    lemma_patched_keeps_layout(s, start, base);
    assert forall|i: int| 0 <= i < s.len() implies patched(p, start, base)[i] == p[i] by {
        if is_aux_value(s, i) {
            assert(!is_aux_value(s, i - 1));
            assert(p[i - 1] == s[i - 1]);
        }
    }
    assert(patched(p, start, base) =~= p);
}

/// One step of the walk against a stack keeps what holds between the stack
/// that the walk began on and the stack as it is, and brings the walk nearer
/// to its end. A walk that ends has left the stack patched, and ends well
/// exactly on a stack that has the expected layout.
pub proof fn lemma_walk_step(
    s0: Seq<u64>,
    s: Seq<u64>,
    walk: StackWalk,
    reply: u64,
    start: LoadStatementStart,
    base: u64,
)
    requires
        walk_inv(s0, s, walk, reply, start, base),
        s.len() <= u64::MAX,
    ensures
        ({
            let next = walk_step(walk, reply, start, base).0;
            match walk_step(walk, reply, start, base).1 {
                Access::Read { index } => if index < s.len() {
                    walk_inv(s0, s, next, s[index as int], start, base) && walk_rank(
                        next,
                        s.len() as int,
                    ) < walk_rank(walk, s.len() as int)
                } else {
                    s == patched(s0, start, base) && stack_check(s0) == Err::<(), StackError>(
                        StackError::Truncated,
                    )
                },
                Access::Write { index, value } => if index < s.len() {
                    walk_inv(s0, s.update(index as int, value), next, 0, start, base) && walk_rank(
                        next,
                        s.len() as int,
                    ) < walk_rank(walk, s.len() as int)
                } else {
                    s == patched(s0, start, base) && stack_check(s0) == Err::<(), StackError>(
                        StackError::Truncated,
                    )
                },
                Access::Done => s == patched(s0, start, base) && stack_check(s0) is Ok,
                Access::Fail(error) => s == patched(s0, start, base) && stack_check(s0) == Err::<
                    (),
                    StackError,
                >(error),
            }
        }),
{
    lemma_auxv_end_from(s0, walk.index as int);
    lemma_auxv_end_from(s0, walk.index + 2);
    lemma_auxv_end_from(s0, auxv_start(s0));
    lemma_first_null_from(s0, walk.index as int);
    lemma_first_null_from(s0, walk.index + 1);
    match walk_step(walk, reply, start, base).1 {
        Access::Read { index } => {
            if index >= s.len() {
                assert(s =~= patched(s0, start, base));
            }
        },
        Access::Write { index, value } => {
            if index >= s.len() {
                assert(s =~= patched(s0, start, base));
            }
        },
        Access::Done => {
            assert(s =~= patched(s0, start, base));
        },
        Access::Fail(error) => {
            assert(s =~= patched(s0, start, base));
        },
    }
}

} // verus!
