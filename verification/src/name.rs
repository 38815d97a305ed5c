//! The base name of a path: what follows its last `/`.
//!
//! A path is a C string: it ends at its first NUL byte, or where the bytes
//! end if none of them is NUL.

use vstd::prelude::*;
use vstd::slice::slice_subrange;

verus! {

/// The byte that separates the components of a path.
pub const SEPARATOR: u8 = 0x2f;

/// The length of the C string that starts at `from`: the index of the first
/// NUL byte at or after `from`, or the number of bytes if there is none.
pub open spec fn nul_from(s: Seq<u8>, from: int) -> int
    decreases s.len() - from,
{
    if from < 0 || from >= s.len() {
        s.len() as int
    } else if s[from] == 0 {
        from
    } else {
        nul_from(s, from + 1)
    }
}

/// The length of the path in `s`.
pub open spec fn path_len(s: Seq<u8>) -> int {
    nul_from(s, 0)
}

/// Where the base name starts when only the first `n` bytes are looked at:
/// behind the last separator among them, or at 0 if there is none.
pub open spec fn name_start(s: Seq<u8>, n: int) -> int
    decreases n,
{
    if n <= 0 {
        0
    } else if s[n - 1] == SEPARATOR {
        n
    } else {
        name_start(s, n - 1)
    }
}

/// The offset of the base name of the path in `s`.
pub open spec fn spec_basename_offset(s: Seq<u8>) -> int {
    name_start(s, path_len(s))
}

/// The base name of the path in `s`.
pub open spec fn spec_basename(s: Seq<u8>) -> Seq<u8> {
    s.subrange(spec_basename_offset(s), path_len(s))
}

/// Where the base name starts once the byte at `offset` has been looked at
/// too, if it started at `start` before. The byte is not NUL.
pub open spec fn name_start_after(start: u64, offset: u64, byte: u8) -> u64 {
    if byte == SEPARATOR {
        (offset + 1) as u64
    } else {
        start
    }
}

/// Where the base name starts once the byte at `offset` has been looked at
/// too, if it started at `start` before.
pub fn advance_name_start(start: u64, offset: u64, byte: u8) -> (r: u64)
    requires
        offset < u64::MAX,
    ensures
        r == name_start_after(start, offset, byte),
{
    if byte == SEPARATOR {
        offset + 1
    } else {
        start
    }
}

/// The base name starts inside the part of the path that was looked at,
/// right behind a separator unless it starts at 0, and holds no separator.
pub proof fn lemma_name_start(s: Seq<u8>, n: int)
    requires
        0 <= n <= s.len(),
    ensures
        0 <= name_start(s, n) <= n,
        name_start(s, n) > 0 ==> s[name_start(s, n) - 1] == SEPARATOR,
        forall|i: int| name_start(s, n) <= i < n ==> s[i] != SEPARATOR,
    decreases n,
{
    if n > 0 && s[n - 1] != SEPARATOR {
        lemma_name_start(s, n - 1);
    }
}

/// The path ends inside the bytes, at a NUL byte unless it ends with them,
/// and holds no NUL byte.
pub proof fn lemma_path_len(s: Seq<u8>, from: int)
    requires
        0 <= from <= s.len(),
    ensures
        from <= nul_from(s, from) <= s.len(),
        nul_from(s, from) < s.len() ==> s[nul_from(s, from)] == 0,
        forall|i: int| from <= i < nul_from(s, from) ==> s[i] != 0,
    decreases s.len() - from,
{
    if from < s.len() && s[from] != 0 {
        lemma_path_len(s, from + 1);
    }
}

/// Scans the path once: where its base name starts, and where the path ends.
fn scan_path(path: &[u8]) -> (r: (usize, usize))
    ensures
        r.0 == spec_basename_offset(path@),
        r.1 == path_len(path@),
        r.0 <= r.1 <= path@.len(),
{
    let len = path.len();
    let mut start: usize = 0;
    let mut i: usize = 0;
    while i < len && path[i] != 0
        invariant
            len == path@.len(),
            0 <= i <= len,
            start == name_start(path@, i as int),
            start <= i,
            nul_from(path@, i as int) == path_len(path@),
        decreases len - i,
    {
        if path[i] == SEPARATOR {
            start = i + 1;
        }
        i = i + 1;
    }
    (start, i)
}

/// The offset at which the base name of `path` starts.
///
/// It is the offset behind the last `/` of the path, or 0 for a path that
/// holds none. For a path that ends in `/`, and for the empty path, it is the
/// length of the path: the base name is empty. No byte behind the end of
/// `path` is read.
pub fn basename_offset(path: &[u8]) -> (offset: usize)
    ensures
        offset == spec_basename_offset(path@),
        offset <= path_len(path@) <= path@.len(),
{
    scan_path(path).0
}

/// The base name of `path`: `sh` for `/usr/bin/sh` and for `sh`, nothing for
/// a path that ends in `/` and for the empty path.
pub fn basename(path: &[u8]) -> (name: &[u8])
    ensures
        name@ == spec_basename(path@),
{
    let (start, end) = scan_path(path);
    slice_subrange(path, start, end)
}

} // verus!
