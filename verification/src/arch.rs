//! The target architectures and what differs between them: the width of a
//! machine word and how a negative value looks in one.

use vstd::prelude::*;

verus! {

/// A target architecture of the traced process.
#[derive(Clone, Copy, Debug, PartialEq, Eq, Structural)]
pub enum Arch {
    X86,
    X86_64,
    Arm,
    Aarch64,
}

impl Arch {
    /// Whether a machine word has 64 bits (it has 32 otherwise).
    pub open spec fn is_64bit(self) -> bool {
        self == Arch::X86_64 || self == Arch::Aarch64
    }

    /// The number of bytes in a machine word.
    pub open spec fn spec_word_size(self) -> int {
        if self.is_64bit() {
            8
        } else {
            4
        }
    }

    /// The number of bytes that `words` machine words take.
    pub open spec fn spec_bytes_of(self, words: int) -> int {
        if self.is_64bit() {
            8 * words
        } else {
            4 * words
        }
    }

    /// The largest value of a machine word, which is also the word `-1`.
    pub open spec fn spec_word_max(self) -> u64 {
        if self.is_64bit() {
            0xffff_ffff_ffff_ffff
        } else {
            0xffff_ffff
        }
    }

    /// The smallest word that reads as negative when taken as signed.
    pub open spec fn spec_sign_bit(self) -> u64 {
        if self.is_64bit() {
            0x8000_0000_0000_0000
        } else {
            0x8000_0000
        }
    }

    /// The number of bytes in a machine word.
    pub fn word_size(self) -> (n: usize)
        ensures
            n == self.spec_word_size(),
    {
        match self {
            Arch::X86_64 | Arch::Aarch64 => 8,
            Arch::X86 | Arch::Arm => 4,
        }
    }

    /// The number of bytes that `words` machine words take. The words must
    /// fit the address space.
    pub fn bytes_of(self, words: usize) -> (n: usize)
        requires
            8 * words <= usize::MAX,
        ensures
            n == self.spec_bytes_of(words as int),
    {
        match self {
            Arch::X86_64 | Arch::Aarch64 => 8 * words,
            Arch::X86 | Arch::Arm => 4 * words,
        }
    }

    /// The largest value of a machine word.
    pub fn word_max(self) -> (w: u64)
        ensures
            w == self.spec_word_max(),
    {
        match self {
            Arch::X86_64 | Arch::Aarch64 => 0xffff_ffff_ffff_ffff,
            Arch::X86 | Arch::Arm => 0xffff_ffff,
        }
    }

    /// Whether `word`, taken as a signed machine word, is negative.
    pub open spec fn spec_is_negative(self, word: u64) -> bool {
        word >= self.spec_sign_bit()
    }

    /// Whether `word`, taken as a signed machine word, is negative: the way
    /// the kernel reports a failed call.
    pub fn is_negative(self, word: u64) -> (b: bool)
        ensures
            b == self.spec_is_negative(word),
    {
        match self {
            Arch::X86_64 | Arch::Aarch64 => word >= 0x8000_0000_0000_0000,
            Arch::X86 | Arch::Arm => word >= 0x8000_0000,
        }
    }
}

} // verus!
