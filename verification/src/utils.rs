//! The settings of a traced session.

use vstd::prelude::*;

verus! {

/// The switches of a session. They are set once, before the session starts,
/// and only read after that.
#[derive(Clone, Copy, Debug, PartialEq, Eq, Structural)]
pub struct Config {
    /// Make the traced process believe that it runs as the superuser.
    pub root_id: bool,
    /// Turn hard links into symbolic links.
    pub link2symlink: bool,
}

} // verus!
