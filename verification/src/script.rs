//! Load statements and their layout in the statement buffer.
//!
//! A buffer holds records back to back. A record is a tag word followed by
//! the payload words of its variant, every word little-endian and as wide as
//! a machine word of the target. The tag alone fixes how long the record is,
//! so a cursor steps from one record to the next with no other bookkeeping.
//! No tag is zero: a cursor that runs into zeroed memory finds no statement.

use vstd::prelude::*;
use crate::arch::Arch;

verus! {

/// Tag of [`LoadStatement::OpenNext`].
pub const TAG_OPEN_NEXT: u64 = 1;

/// Tag of [`LoadStatement::Open`].
pub const TAG_OPEN: u64 = 2;

/// Tag of [`LoadStatement::MmapFile`].
pub const TAG_MMAP_FILE: u64 = 3;

/// Tag of [`LoadStatement::MmapAnonymous`].
pub const TAG_MMAP_ANONYMOUS: u64 = 4;

/// Tag of [`LoadStatement::MakeStackExec`].
pub const TAG_MAKE_STACK_EXEC: u64 = 5;

/// Tag of [`LoadStatement::Start`].
pub const TAG_START: u64 = 6;

/// Tag of [`LoadStatement::StartTraced`].
pub const TAG_START_TRACED: u64 = 7;

/// Payload of the two statements that open a file.
#[derive(Clone, Copy, Debug, PartialEq, Eq, Structural)]
pub struct LoadStatementOpen {
    /// Address of the NUL-terminated path of the file.
    pub string_address: u64,
}

/// Payload of a file-backed mapping.
#[derive(Clone, Copy, Debug, PartialEq, Eq, Structural)]
pub struct LoadStatementMmapFile {
    pub addr: u64,
    pub length: u64,
    pub prot: u64,
    /// Offset into the file, in bytes.
    pub offset: u64,
    /// How many bytes at the end of the mapping must read as zero.
    pub clear_length: u64,
}

/// Payload of an anonymous mapping.
#[derive(Clone, Copy, Debug, PartialEq, Eq, Structural)]
pub struct LoadStatementMmapAnonymous {
    pub addr: u64,
    pub length: u64,
    pub prot: u64,
}

/// Payload of the statement that makes the stack executable.
#[derive(Clone, Copy, Debug, PartialEq, Eq, Structural)]
pub struct LoadStatementStackExec {
    pub start: u64,
}

/// Payload of the two terminal statements.
#[derive(Clone, Copy, Debug, PartialEq, Eq, Structural)]
pub struct LoadStatementStart {
    pub stack_pointer: u64,
    pub entry_point: u64,
    pub at_phdr: u64,
    pub at_phent: u64,
    pub at_phnum: u64,
    pub at_entry: u64,
    /// Address of the NUL-terminated path of the executable.
    pub at_execfn: u64,
}

/// One record of the bootstrap protocol.
#[derive(Clone, Copy, Debug, PartialEq, Eq, Structural)]
pub enum LoadStatement {
    /// Close the open file, then open another.
    OpenNext(LoadStatementOpen),
    /// Open a file; none may be open.
    Open(LoadStatementOpen),
    /// Map a part of the open file at a fixed address.
    MmapFile(LoadStatementMmapFile),
    /// Map zero-filled memory at a fixed address.
    MmapAnonymous(LoadStatementMmapAnonymous),
    /// Make the stack executable.
    MakeStackExec(LoadStatementStackExec),
    /// Finish the image and hand control back through the tracer.
    StartTraced(LoadStatementStart),
    /// Finish the image and jump to its entry point.
    Start(LoadStatementStart),
}

/// Why no statement could be read at a cursor.
#[derive(Clone, Copy, Debug, PartialEq, Eq, Structural)]
pub enum ScriptError {
    /// The record, or its tag already, does not lie inside the buffer.
    Truncated,
    /// The word at the cursor is the tag of no statement.
    UnknownTag,
}

/// The value of the four bytes at `off`, least significant first.
pub open spec fn le32(s: Seq<u8>, off: int) -> int {
    s[off] + s[off + 1] * 0x100 + s[off + 2] * 0x1_0000 + s[off + 3] * 0x100_0000
}

/// The machine word whose bytes start at `off`.
pub open spec fn word_at(arch: Arch, s: Seq<u8>, off: int) -> u64 {
    if arch.is_64bit() {
        (le32(s, off) + le32(s, off + 4) * 0x1_0000_0000) as u64
    } else {
        le32(s, off) as u64
    }
}

/// Whether `n` words starting at `off` lie inside the buffer.
pub open spec fn has_words(arch: Arch, s: Seq<u8>, off: int, n: int) -> bool {
    0 <= off && off + arch.spec_bytes_of(n) <= s.len()
}

/// The number of payload words that follow `tag`, if it is a tag.
pub open spec fn payload_words(tag: u64) -> Option<int> {
    if tag == TAG_OPEN_NEXT || tag == TAG_OPEN || tag == TAG_MAKE_STACK_EXEC {
        Some(1)
    } else if tag == TAG_MMAP_FILE {
        Some(5)
    } else if tag == TAG_MMAP_ANONYMOUS {
        Some(3)
    } else if tag == TAG_START || tag == TAG_START_TRACED {
        Some(7)
    } else {
        None
    }
}

/// The `i`-th payload word of the record at `off`.
pub open spec fn field_at(arch: Arch, s: Seq<u8>, off: int, i: int) -> u64 {
    word_at(arch, s, off + arch.spec_bytes_of(1 + i))
}

/// The payload of the opening record at `off`.
pub open spec fn open_at(arch: Arch, s: Seq<u8>, off: int) -> LoadStatementOpen {
    LoadStatementOpen { string_address: field_at(arch, s, off, 0) }
}

/// The payload of the terminal record at `off`.
pub open spec fn start_at(arch: Arch, s: Seq<u8>, off: int) -> LoadStatementStart {
    LoadStatementStart {
        stack_pointer: field_at(arch, s, off, 0),
        entry_point: field_at(arch, s, off, 1),
        at_phdr: field_at(arch, s, off, 2),
        at_phent: field_at(arch, s, off, 3),
        at_phnum: field_at(arch, s, off, 4),
        at_entry: field_at(arch, s, off, 5),
        at_execfn: field_at(arch, s, off, 6),
    }
}

/// The statement that the record at `off` holds, given its tag.
pub open spec fn statement_at(arch: Arch, s: Seq<u8>, off: int, tag: u64) -> LoadStatement {
    if tag == TAG_OPEN_NEXT {
        LoadStatement::OpenNext(open_at(arch, s, off))
    } else if tag == TAG_OPEN {
        LoadStatement::Open(open_at(arch, s, off))
    } else if tag == TAG_MMAP_FILE {
        LoadStatement::MmapFile(
            LoadStatementMmapFile {
                addr: field_at(arch, s, off, 0),
                length: field_at(arch, s, off, 1),
                prot: field_at(arch, s, off, 2),
                offset: field_at(arch, s, off, 3),
                clear_length: field_at(arch, s, off, 4),
            },
        )
    } else if tag == TAG_MMAP_ANONYMOUS {
        LoadStatement::MmapAnonymous(
            LoadStatementMmapAnonymous {
                addr: field_at(arch, s, off, 0),
                length: field_at(arch, s, off, 1),
                prot: field_at(arch, s, off, 2),
            },
        )
    } else if tag == TAG_MAKE_STACK_EXEC {
        LoadStatement::MakeStackExec(LoadStatementStackExec { start: field_at(arch, s, off, 0) })
    } else if tag == TAG_START_TRACED {
        LoadStatement::StartTraced(start_at(arch, s, off))
    } else {
        LoadStatement::Start(start_at(arch, s, off))
    }
}

/// What stands at `cursor` in the buffer `s`: a statement and the cursor of
/// the record after it, or the reason why there is none.
pub open spec fn decode(arch: Arch, s: Seq<u8>, cursor: int) -> Result<
    (LoadStatement, int),
    ScriptError,
> {
    if !has_words(arch, s, cursor, 1) {
        Err(ScriptError::Truncated)
    } else {
        let tag = word_at(arch, s, cursor);
        match payload_words(tag) {
            None => Err(ScriptError::UnknownTag),
            Some(n) => if !has_words(arch, s, cursor, 1 + n) {
                Err(ScriptError::Truncated)
            } else {
                Ok((statement_at(arch, s, cursor, tag), cursor + arch.spec_bytes_of(1 + n)))
            },
        }
    }
}

impl LoadStatement {
    /// The tag that introduces this statement's record.
    pub open spec fn spec_tag(self) -> u64 {
        match self {
            LoadStatement::OpenNext(_) => TAG_OPEN_NEXT,
            LoadStatement::Open(_) => TAG_OPEN,
            LoadStatement::MmapFile(_) => TAG_MMAP_FILE,
            LoadStatement::MmapAnonymous(_) => TAG_MMAP_ANONYMOUS,
            LoadStatement::MakeStackExec(_) => TAG_MAKE_STACK_EXEC,
            LoadStatement::StartTraced(_) => TAG_START_TRACED,
            LoadStatement::Start(_) => TAG_START,
        }
    }

    /// The words of this statement's record: the tag, then the payload.
    pub open spec fn spec_words(self) -> Seq<u64> {
        match self {
            LoadStatement::OpenNext(o) | LoadStatement::Open(o) => seq![
                self.spec_tag(),
                o.string_address,
            ],
            LoadStatement::MmapFile(m) => seq![
                self.spec_tag(),
                m.addr,
                m.length,
                m.prot,
                m.offset,
                m.clear_length,
            ],
            LoadStatement::MmapAnonymous(m) => seq![self.spec_tag(), m.addr, m.length, m.prot],
            LoadStatement::MakeStackExec(x) => seq![self.spec_tag(), x.start],
            LoadStatement::StartTraced(t) | LoadStatement::Start(t) => seq![
                self.spec_tag(),
                t.stack_pointer,
                t.entry_point,
                t.at_phdr,
                t.at_phent,
                t.at_phnum,
                t.at_entry,
                t.at_execfn,
            ],
        }
    }

    /// Whether every word of the record fits a machine word of `arch`.
    pub open spec fn fits(self, arch: Arch) -> bool {
        forall|i: int|
            0 <= i < self.spec_words().len() ==> #[trigger] self.spec_words()[i]
                <= arch.spec_word_max()
    }
}

/// Reads the machine word at `off`.
fn read_word(arch: Arch, script: &[u8], off: usize) -> (w: u64)
    requires
        off + arch.spec_word_size() <= script@.len(),
    ensures
        w == word_at(arch, script@, off as int),
{
    let b0: u64 = script[off] as u64;
    let b1: u64 = script[off + 1] as u64;
    let b2: u64 = script[off + 2] as u64;
    let b3: u64 = script[off + 3] as u64;
    let low: u64 = b0 + b1 * 0x100 + b2 * 0x1_0000 + b3 * 0x100_0000;
    match arch {
        Arch::X86 | Arch::Arm => low,
        Arch::X86_64 | Arch::Aarch64 => {
            let b4: u64 = script[off + 4] as u64;
            let b5: u64 = script[off + 5] as u64;
            let b6: u64 = script[off + 6] as u64;
            let b7: u64 = script[off + 7] as u64;
            let high: u64 = b4 + b5 * 0x100 + b6 * 0x1_0000 + b7 * 0x100_0000;
            low + high * 0x1_0000_0000
        },
    }
}

/// Reads the `i`-th payload word of the record at `cursor`.
fn read_field(arch: Arch, script: &[u8], cursor: usize, i: usize) -> (w: u64)
    requires
        i < 7,
        has_words(arch, script@, cursor as int, 2 + i),
    ensures
        w == field_at(arch, script@, cursor as int, i as int),
{
    proof {
        vstd::slice::axiom_spec_len(script);
    }
    read_word(arch, script, cursor + arch.bytes_of(1 + i))
}

fn read_open(arch: Arch, script: &[u8], cursor: usize) -> (o: LoadStatementOpen)
    requires
        has_words(arch, script@, cursor as int, 2),
    ensures
        o == open_at(arch, script@, cursor as int),
{
    LoadStatementOpen { string_address: read_field(arch, script, cursor, 0) }
}

fn read_start(arch: Arch, script: &[u8], cursor: usize) -> (t: LoadStatementStart)
    requires
        has_words(arch, script@, cursor as int, 8),
    ensures
        t == start_at(arch, script@, cursor as int),
{
    LoadStatementStart {
        stack_pointer: read_field(arch, script, cursor, 0),
        entry_point: read_field(arch, script, cursor, 1),
        at_phdr: read_field(arch, script, cursor, 2),
        at_phent: read_field(arch, script, cursor, 3),
        at_phnum: read_field(arch, script, cursor, 4),
        at_entry: read_field(arch, script, cursor, 5),
        at_execfn: read_field(arch, script, cursor, 6),
    }
}

/// Reads the statement at `cursor`.
///
/// The tag is checked against the closed set of tags before any payload is
/// read, and nothing outside `script` is ever read: a cursor at or past the
/// end of the buffer, a record that the buffer cuts short and a word that is
/// no tag each give their error.
pub fn parse_statement(arch: Arch, script: &[u8], cursor: usize) -> (r: Result<
    (LoadStatement, usize),
    ScriptError,
>)
    ensures
        match decode(arch, script@, cursor as int) {
            Ok((stmt, next)) => r == Ok::<(LoadStatement, usize), ScriptError>((stmt, next as usize))
                && cursor < next <= script@.len(),
            Err(e) => r == Err::<(LoadStatement, usize), ScriptError>(e),
        },
{
    let ws = arch.word_size();
    let len = script.len();
    if cursor > len || len - cursor < ws {
        return Err(ScriptError::Truncated);
    }
    let tag = read_word(arch, script, cursor);
    let words: usize = if tag == TAG_OPEN_NEXT || tag == TAG_OPEN || tag == TAG_MAKE_STACK_EXEC {
        1
    } else if tag == TAG_MMAP_FILE {
        5
    } else if tag == TAG_MMAP_ANONYMOUS {
        3
    } else if tag == TAG_START || tag == TAG_START_TRACED {
        7
    } else {
        return Err(ScriptError::UnknownTag);
    };
    let size = arch.bytes_of(1 + words);
    if len - cursor < size {
        return Err(ScriptError::Truncated);
    }
    let next = cursor + size;
    let stmt = if tag == TAG_OPEN_NEXT {
        LoadStatement::OpenNext(read_open(arch, script, cursor))
    } else if tag == TAG_OPEN {
        LoadStatement::Open(read_open(arch, script, cursor))
    } else if tag == TAG_MMAP_FILE {
        LoadStatement::MmapFile(
            LoadStatementMmapFile {
                addr: read_field(arch, script, cursor, 0),
                length: read_field(arch, script, cursor, 1),
                prot: read_field(arch, script, cursor, 2),
                offset: read_field(arch, script, cursor, 3),
                clear_length: read_field(arch, script, cursor, 4),
            },
        )
    } else if tag == TAG_MMAP_ANONYMOUS {
        LoadStatement::MmapAnonymous(
            LoadStatementMmapAnonymous {
                addr: read_field(arch, script, cursor, 0),
                length: read_field(arch, script, cursor, 1),
                prot: read_field(arch, script, cursor, 2),
            },
        )
    } else if tag == TAG_MAKE_STACK_EXEC {
        LoadStatement::MakeStackExec(
            LoadStatementStackExec { start: read_field(arch, script, cursor, 0) },
        )
    } else if tag == TAG_START_TRACED {
        LoadStatement::StartTraced(read_start(arch, script, cursor))
    } else {
        LoadStatement::Start(read_start(arch, script, cursor))
    };
    Ok((stmt, next))
}

/// The four bytes of `w`, least significant first.
pub open spec fn le32_bytes(w: int) -> Seq<u8> {
    seq![
        (w % 0x100) as u8,
        ((w / 0x100) % 0x100) as u8,
        ((w / 0x1_0000) % 0x100) as u8,
        ((w / 0x100_0000) % 0x100) as u8,
    ]
}

/// The bytes of the machine word `w`; of its low half, where the word of
/// `arch` is half as wide.
pub open spec fn word_bytes(arch: Arch, w: u64) -> Seq<u8> {
    if arch.is_64bit() {
        le32_bytes((w % 0x1_0000_0000) as int) + le32_bytes((w / 0x1_0000_0000) as int)
    } else {
        le32_bytes((w % 0x1_0000_0000) as int)
    }
}

/// The bytes of the machine words `words`, one after the other.
pub open spec fn words_bytes(arch: Arch, words: Seq<u64>) -> Seq<u8>
    decreases words.len(),
{
    if words.len() == 0 {
        Seq::empty()
    } else {
        words_bytes(arch, words.drop_last()) + word_bytes(arch, words.last())
    }
}

/// The record of `stmt`.
pub open spec fn encoding(arch: Arch, stmt: LoadStatement) -> Seq<u8> {
    words_bytes(arch, stmt.spec_words())
}

/// Four bytes put together give the number that they were taken from.
proof fn lemma_le32_digits(v: u64)
    by (bit_vector)
    requires
        v < 0x1_0000_0000,
    ensures
        (v % 0x100) + ((v / 0x100) % 0x100) * 0x100 + ((v / 0x1_0000) % 0x100) * 0x1_0000 + ((v
            / 0x100_0000) % 0x100) * 0x100_0000 == v,
{
}

/// A number below 2^32 is read back from its four bytes.
proof fn lemma_le32_read_back(s: Seq<u8>, off: int, v: u64)
    requires
        v < 0x1_0000_0000,
        0 <= off,
        off + 4 <= s.len(),
        s.subrange(off, off + 4) == le32_bytes(v as int),
    ensures
        le32(s, off) == v,
{
    let b = le32_bytes(v as int);
    assert(s[off] == s.subrange(off, off + 4)[0]);
    assert(s[off + 1] == s.subrange(off, off + 4)[1]);
    assert(s[off + 2] == s.subrange(off, off + 4)[2]);
    assert(s[off + 3] == s.subrange(off, off + 4)[3]);
    assert(b[0] == (v % 0x100) as u8);
    assert(b[1] == ((v / 0x100) % 0x100) as u8);
    assert(b[2] == ((v / 0x1_0000) % 0x100) as u8);
    assert(b[3] == ((v / 0x100_0000) % 0x100) as u8);
    lemma_le32_digits(v);
}

/// A word takes as many bytes as the architecture says.
proof fn lemma_word_bytes_len(arch: Arch, w: u64)
    ensures
        word_bytes(arch, w).len() == arch.spec_word_size(),
{
}

/// `n` words take as many bytes as a word has for each.
proof fn lemma_words_bytes_len(arch: Arch, words: Seq<u64>)
    ensures
        words_bytes(arch, words).len() == arch.spec_bytes_of(words.len() as int),
    decreases words.len(),
{
    if words.len() > 0 {
        lemma_words_bytes_len(arch, words.drop_last());
        lemma_word_bytes_len(arch, words.last());
    }
}

/// A word that fits is read back from its bytes.
proof fn lemma_word_read_back(arch: Arch, s: Seq<u8>, off: int, w: u64)
    requires
        0 <= off,
        off + arch.spec_word_size() <= s.len(),
        s.subrange(off, off + arch.spec_word_size()) == word_bytes(arch, w),
        w <= arch.spec_word_max(),
    ensures
        word_at(arch, s, off) == w,
{
    let lo: u64 = w % 0x1_0000_0000;
    let hi: u64 = w / 0x1_0000_0000;
    if arch.is_64bit() {
        let both = le32_bytes(lo as int) + le32_bytes(hi as int);
        assert(s.subrange(off, off + 4) =~= both.subrange(0, 4));
        assert(both.subrange(0, 4) =~= le32_bytes(lo as int));
        assert(s.subrange(off + 4, off + 8) =~= both.subrange(4, 8));
        assert(both.subrange(4, 8) =~= le32_bytes(hi as int));
        lemma_le32_read_back(s, off, lo);
        lemma_le32_read_back(s, off + 4, hi);
    } else {
        lemma_le32_read_back(s, off, lo);
    }
}

/// Each word of a record is read back from where it stands in a buffer.
proof fn lemma_word_in_record(
    arch: Arch,
    before: Seq<u8>,
    words: Seq<u64>,
    after: Seq<u8>,
    i: int,
)
    requires
        0 <= i < words.len(),
        forall|j: int| 0 <= j < words.len() ==> #[trigger] words[j] <= arch.spec_word_max(),
    ensures
        word_at(
            arch,
            before + words_bytes(arch, words) + after,
            before.len() + arch.spec_bytes_of(i),
        ) == words[i],
    decreases words.len(),
{
    let s = before + words_bytes(arch, words) + after;
    let init = words.drop_last();
    lemma_words_bytes_len(arch, words);
    lemma_words_bytes_len(arch, init);
    lemma_word_bytes_len(arch, words.last());
    if i == words.len() - 1 {
        let off = before.len() + arch.spec_bytes_of(i);
        assert(s.subrange(off, off + arch.spec_word_size()) =~= word_bytes(arch, words.last()));
        lemma_word_read_back(arch, s, off, words[i]);
    } else {
        lemma_word_in_record(arch, before, init, word_bytes(arch, words.last()) + after, i);
        assert(s =~= before + words_bytes(arch, init) + (word_bytes(arch, words.last()) + after));
    }
}

/// The payload words of a record are read back from where they stand.
proof fn lemma_fields_in_record(
    arch: Arch,
    before: Seq<u8>,
    words: Seq<u64>,
    after: Seq<u8>,
)
    requires
        forall|j: int| 0 <= j < words.len() ==> #[trigger] words[j] <= arch.spec_word_max(),
        words.len() > 0,
    ensures
        word_at(arch, before + words_bytes(arch, words) + after, before.len() as int) == words[0],
        forall|i: int|
            0 <= i < words.len() - 1 ==> #[trigger] field_at(
                arch,
                before + words_bytes(arch, words) + after,
                before.len() as int,
                i,
            ) == words[i + 1],
        (before + words_bytes(arch, words) + after).len() == before.len() + arch.spec_bytes_of(
            words.len() as int,
        ) + after.len(),
{
    let s = before + words_bytes(arch, words) + after;
    lemma_words_bytes_len(arch, words);
    lemma_word_in_record(arch, before, words, after, 0);
    assert forall|i: int| 0 <= i < words.len() - 1 implies #[trigger] field_at(
        arch,
        s,
        before.len() as int,
        i,
    ) == words[i + 1] by {
        lemma_word_in_record(arch, before, words, after, i + 1);
    }
}

/// What is written is read back: a statement whose words fit the machine
/// word is decoded from its record, wherever in a buffer the record stands,
/// and the cursor then stands right behind the record.
pub proof fn lemma_decode_encoded(
    arch: Arch,
    before: Seq<u8>,
    stmt: LoadStatement,
    after: Seq<u8>,
)
    requires
        stmt.fits(arch),
    ensures
        decode(arch, before + encoding(arch, stmt) + after, before.len() as int) == Ok::<
            (LoadStatement, int),
            ScriptError,
        >((stmt, (before.len() + encoding(arch, stmt).len()) as int)),
{
    let words = stmt.spec_words();
    let s = before + encoding(arch, stmt) + after;
    let at = before.len() as int;
    lemma_words_bytes_len(arch, words);
    lemma_fields_in_record(arch, before, words, after);
    assert(word_at(arch, s, at) == stmt.spec_tag());
    assert(payload_words(stmt.spec_tag()) == Some(words.len() - 1));
    assert(has_words(arch, s, at, words.len() as int));
    assert(has_words(arch, s, at, 1));
    assert(field_at(arch, s, at, 0) == words[1]);
    match stmt {
        LoadStatement::OpenNext(_) | LoadStatement::Open(_) | LoadStatement::MakeStackExec(_) => {},
        LoadStatement::MmapFile(_) => {
            assert(field_at(arch, s, at, 1) == words[2]);
            assert(field_at(arch, s, at, 2) == words[3]);
            assert(field_at(arch, s, at, 3) == words[4]);
            assert(field_at(arch, s, at, 4) == words[5]);
        },
        LoadStatement::MmapAnonymous(_) => {
            assert(field_at(arch, s, at, 1) == words[2]);
            assert(field_at(arch, s, at, 2) == words[3]);
        },
        LoadStatement::StartTraced(_) | LoadStatement::Start(_) => {
            assert(field_at(arch, s, at, 1) == words[2]);
            assert(field_at(arch, s, at, 2) == words[3]);
            assert(field_at(arch, s, at, 3) == words[4]);
            assert(field_at(arch, s, at, 4) == words[5]);
            assert(field_at(arch, s, at, 5) == words[6]);
            assert(field_at(arch, s, at, 6) == words[7]);
        },
    }
    assert(statement_at(arch, s, at, stmt.spec_tag()) == stmt);
}

impl LoadStatement {
    /// The words of this statement's record: the tag, then the payload.
    pub fn words(&self) -> (words: Vec<u64>)
        ensures
            words@ == self.spec_words(),
    {
        let words = match self {
            LoadStatement::OpenNext(o) => vec![TAG_OPEN_NEXT, o.string_address],
            LoadStatement::Open(o) => vec![TAG_OPEN, o.string_address],
            LoadStatement::MmapFile(m) => vec![
                TAG_MMAP_FILE,
                m.addr,
                m.length,
                m.prot,
                m.offset,
                m.clear_length,
            ],
            LoadStatement::MmapAnonymous(m) => vec![TAG_MMAP_ANONYMOUS, m.addr, m.length, m.prot],
            LoadStatement::MakeStackExec(x) => vec![TAG_MAKE_STACK_EXEC, x.start],
            LoadStatement::StartTraced(t) => vec![
                TAG_START_TRACED,
                t.stack_pointer,
                t.entry_point,
                t.at_phdr,
                t.at_phent,
                t.at_phnum,
                t.at_entry,
                t.at_execfn,
            ],
            LoadStatement::Start(t) => vec![
                TAG_START,
                t.stack_pointer,
                t.entry_point,
                t.at_phdr,
                t.at_phent,
                t.at_phnum,
                t.at_entry,
                t.at_execfn,
            ],
        };
        assert(words@ =~= self.spec_words());
        words
    }
}

/// Appends the four bytes of `w`, least significant first.
fn push_le32(out: &mut Vec<u8>, w: u64)
    requires
        w < 0x1_0000_0000,
    ensures
        final(out)@ == old(out)@ + le32_bytes(w as int),
{
    out.push((w % 0x100) as u8);
    out.push(((w / 0x100) % 0x100) as u8);
    out.push(((w / 0x1_0000) % 0x100) as u8);
    out.push(((w / 0x100_0000) % 0x100) as u8);
    assert(out@ =~= old(out)@ + le32_bytes(w as int));
}

/// Appends the bytes of the machine word `w`.
fn push_word(arch: Arch, out: &mut Vec<u8>, w: u64)
    ensures
        final(out)@ == old(out)@ + word_bytes(arch, w),
{
    match arch {
        Arch::X86 | Arch::Arm => {
            push_le32(out, w % 0x1_0000_0000);
        },
        Arch::X86_64 | Arch::Aarch64 => {
            push_le32(out, w % 0x1_0000_0000);
            push_le32(out, w / 0x1_0000_0000);
            assert(out@ =~= old(out)@ + word_bytes(arch, w));
        },
    }
}

/// Appends the record of `stmt` to `out`, for a process of `arch`.
///
/// On a 32-bit architecture only the low 32 bits of each word are written: a
/// statement is read back as it was written if its words fit.
pub fn encode_statement(arch: Arch, stmt: &LoadStatement, out: &mut Vec<u8>)
    ensures
        final(out)@ == old(out)@ + encoding(arch, *stmt),
{
    let words = stmt.words();
    let mut i: usize = 0;
    assert(words@.take(0) =~= Seq::<u64>::empty());
    while i < words.len()
        invariant
            i <= words@.len(),
            out@ == old(out)@ + words_bytes(arch, words@.take(i as int)),
        decreases words@.len() - i,
    {
        push_word(arch, out, words[i]);
        proof {
            let more = words@.take(i + 1);
            assert(more.drop_last() =~= words@.take(i as int));
            assert(more.last() == words@[i as int]);
            assert(out@ =~= old(out)@ + words_bytes(arch, more));
        }
        i = i + 1;
    }
    assert(words@.take(i as int) =~= words@);
}

} // verus!
