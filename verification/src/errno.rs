//! Error numbers of the operating system.

use vstd::prelude::*;

verus! {

/// The number that stands for an error of unknown kind.
pub const UNKNOWN_ERRNO: i32 = 0;

/// The number of the error "invalid argument".
pub const EINVAL: i32 = 22;

/// An error number of the operating system, or [`UNKNOWN_ERRNO`].
///
/// The number is held as it is given. [`Errno::from_raw`] gives only numbers
/// that the platform has, which is what [`Errno::is_known`] says of a value.
#[derive(Clone, Copy, Debug, PartialEq, Eq, Structural)]
pub struct Errno {
    pub raw: i32,
}

/// The number of the error that `nix::errno::Errno::from_raw` gives for
/// `raw`: `raw` itself where the platform has an error of that number, and 0,
/// the number of `UnknownErrno`, where it has none.
pub uninterp spec fn errno_of_raw(raw: i32) -> i32;

/// The text that the `Display` of `nix::errno::Errno` gives for the error
/// that `nix::errno::Errno::from_raw` gives for `raw`: the name of the error
/// and what it means.
pub uninterp spec fn errno_text(raw: i32) -> Seq<char>;

/// Calls `nix::errno::Errno::from_raw` and reads the number of what it gave.
/// Trusted: the number depends on `raw` alone; it is `raw` itself or 0, the
/// number of `UnknownErrno`; and asked about that number again, the platform
/// gives the same error again.
#[verifier::external_body]
fn platform_errno(raw: i32) -> (known: i32)
    ensures
        known == errno_of_raw(raw),
        known == raw || known == UNKNOWN_ERRNO,
        errno_of_raw(known) == known,
{
    nix::errno::Errno::from_raw(raw) as i32
}

/// Calls `nix::errno::Errno::from_raw` and renders what it gave with its
/// `Display`. Trusted: the text depends on `raw` alone.
#[verifier::external_body]
fn platform_errno_text(raw: i32) -> (text: String)
    ensures
        text@ == errno_text(raw),
{
    format!("{}", nix::errno::Errno::from_raw(raw))
}

impl Errno {
    /// The error of unknown kind.
    pub fn unknown() -> (e: Errno)
        ensures
            e.raw == UNKNOWN_ERRNO,
    {
        Errno { raw: UNKNOWN_ERRNO }
    }

    /// Whether the platform has an error of this number, or the number is
    /// that of the unknown error.
    pub open spec fn is_known(self) -> bool {
        errno_of_raw(self.raw) == self.raw
    }

    /// The error with the number `raw`, or the unknown error where the
    /// platform has no error of that number.
    pub fn from_raw(raw: i32) -> (e: Errno)
        ensures
            e.raw == errno_of_raw(raw),
            e.raw == raw || e.raw == UNKNOWN_ERRNO,
            e.is_known(),
    {
        Errno { raw: platform_errno(raw) }
    }

    /// The name of the error and what it means, as the platform words it.
    pub fn desc(self) -> (text: String)
        ensures
            text@ == errno_text(self.raw),
    {
        platform_errno_text(self.raw)
    }
}

} // verus!
