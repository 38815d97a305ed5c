//! What a session is set up with, worked out from the values that the
//! command line gave.

use vstd::prelude::*;
use vstd::string::{StrSliceExecFns, StringExecFns};
use crate::errno::{Errno, EINVAL};
use crate::errors::Error;
use crate::utils::Config;

verus! {

/// The character that parts the host path of a binding from its guest path.
pub const BINDING_SEPARATOR: char = ':';

/// A path of the host made visible to the guest.
#[derive(Clone, Debug, PartialEq, Eq)]
pub struct Binding {
    pub host_path: String,
    pub guest_path: String,
}

/// The values that the command line gave, before anything is made of them.
#[derive(Clone, Debug, PartialEq, Eq)]
pub struct Arguments {
    /// The root of the guest's file system, if one was named.
    pub rootfs: Option<String>,
    /// The bindings as they were written: `host_path` or
    /// `host_path:guest_path`.
    pub bindings: Vec<String>,
    /// The working directory that the guest starts in, if one was named.
    pub cwd: Option<String>,
    pub root_id: bool,
    pub link2symlink: bool,
    /// The command to run, if one was given.
    pub command: Option<Vec<String>>,
}

/// The guest's view of the file system, as the session is to set it up.
#[derive(Clone, Debug, PartialEq, Eq)]
pub struct FileSystem {
    pub root: String,
    pub bindings: Vec<Binding>,
    pub cwd: String,
}

/// The index of the first separator at or after `from`; the length of `s` if
/// there is none.
pub open spec fn separator_from(s: Seq<char>, from: int) -> int
    decreases s.len() - from,
{
    if from < 0 || from >= s.len() {
        s.len() as int
    } else if s[from] == BINDING_SEPARATOR {
        from
    } else {
        separator_from(s, from + 1)
    }
}

/// The host path and the guest path that `raw` stands for.
///
/// `raw` falls into the pieces between its separators, where an empty piece
/// at the very end does not count. With exactly two pieces, they are the host
/// path and the guest path. Otherwise the first piece is both.
pub open spec fn binding_of(raw: Seq<char>) -> (Seq<char>, Seq<char>) {
    let first = separator_from(raw, 0);
    let host = raw.subrange(0, first);
    if first >= raw.len() {
        (host, host)
    } else {
        let second = separator_from(raw, first + 1);
        let guest = raw.subrange(first + 1, second);
        if (second >= raw.len() && guest.len() > 0) || second == raw.len() - 1 {
            (host, guest)
        } else {
            (host, host)
        }
    }
}

/// The command that runs where none was given.
pub open spec fn default_command() -> Seq<Seq<char>> {
    seq!["/bin/sh"@]
}

/// The characters of each string.
pub open spec fn views(v: Seq<String>) -> Seq<Seq<char>> {
    Seq::new(v.len(), |i: int| v[i]@)
}

impl Arguments {
    /// Whether no binding is written as the empty string.
    pub open spec fn bindings_named(self) -> bool {
        forall|i: int| 0 <= i < self.bindings@.len() ==> (#[trigger] self.bindings@[i])@.len() > 0
    }
}

impl FileSystem {
    /// The file system that a session has before anything is set: the host's
    /// root as root and as working directory, and no binding.
    pub fn new() -> (fs: FileSystem)
        ensures
            fs.root@ == "/"@,
            fs.cwd@ == "/"@,
            fs.bindings@.len() == 0,
    {
        FileSystem {
            root: String::from_str("/"),
            bindings: Vec::new(),
            cwd: String::from_str("/"),
        }
    }
}

/// The index of the first separator of `s` at or after `from`.
fn find_separator(s: &str, from: usize) -> (i: usize)
    requires
        from <= s@.len(),
    ensures
        i == separator_from(s@, from as int),
        from <= i <= s@.len(),
{
    let len = s.unicode_len();
    let mut i: usize = from;
    while i < len && s.get_char(i) != BINDING_SEPARATOR
        invariant
            len == s@.len(),
            from <= i <= len,
            separator_from(s@, i as int) == separator_from(s@, from as int),
        decreases len - i,
    {
        i = i + 1;
    }
    i
}

/// Reads a binding as it is written on the command line.
pub fn parse_binding(raw: &str) -> (binding: Binding)
    ensures
        (binding.host_path@, binding.guest_path@) == binding_of(raw@),
{
    let len = raw.unicode_len();
    let first = find_separator(raw, 0);
    let host = raw.substring_char(0, first);
    if first >= len {
        return Binding { host_path: String::from_str(host), guest_path: String::from_str(host) };
    }
    let second = find_separator(raw, first + 1);
    let guest = raw.substring_char(first + 1, second);
    if (second >= len && second > first + 1) || second == len - 1 {
        Binding { host_path: String::from_str(host), guest_path: String::from_str(guest) }
    } else {
        Binding { host_path: String::from_str(host), guest_path: String::from_str(host) }
    }
}

/// Works out the file system, the command and the switches of a session
/// from what the command line gave.
///
/// The root and the working directory are those that were named, and `/`
/// where none was. Every binding is read as [`binding_of`] says, in the order
/// in which they were written. The command is the one that was given, and
/// `/bin/sh` where none was. A binding written as the empty string names no
/// path: it is refused with the error number [`EINVAL`].
pub fn parse_config(args: Arguments) -> (r: Result<(FileSystem, Vec<String>, Config), Error>)
    ensures
        r is Ok <==> args.bindings_named(),
        r matches Ok((fs, command, config)) ==> {
            &&& fs.root@ == match args.rootfs {
                Some(root) => root@,
                None => "/"@,
            }
            &&& fs.cwd@ == match args.cwd {
                Some(cwd) => cwd@,
                None => "/"@,
            }
            &&& fs.bindings@.len() == args.bindings@.len()
            &&& forall|i: int|
                0 <= i < fs.bindings@.len() ==> (
                #[trigger] fs.bindings@[i].host_path@,
                fs.bindings@[i].guest_path@,
                ) == binding_of(args.bindings@[i]@)
            &&& views(command@) == match args.command {
                Some(given) => views(given@),
                None => default_command(),
            }
            &&& config == (Config { root_id: args.root_id, link2symlink: args.link2symlink })
        },
        r matches Err(e) ==> e.errno.raw == EINVAL && e.msg is Some && e.msg->0@
            == "a binding names no path"@ && e.source is None,
{
    let Arguments { rootfs, bindings, cwd, root_id, link2symlink, command } = args;
    let config = Config { root_id, link2symlink };
    let mut fs = FileSystem::new();
    match rootfs {
        Some(root) => {
            fs.root = root;
        },
        None => {},
    }
    let mut i: usize = 0;
    while i < bindings.len()
        invariant
            bindings == args.bindings,
            rootfs == args.rootfs,
            fs.cwd@ == "/"@,
            i <= bindings@.len(),
            fs.bindings@.len() == i,
            forall|j: int| 0 <= j < i ==> (#[trigger] bindings@[j])@.len() > 0,
            forall|j: int|
                0 <= j < i ==> (#[trigger] fs.bindings@[j].host_path@, fs.bindings@[j].guest_path@)
                    == binding_of(bindings@[j]@),
            fs.root@ == match rootfs {
                Some(root) => root@,
                None => "/"@,
            },
        decreases bindings@.len() - i,
    {
        let raw = bindings[i].as_str();
        if raw.unicode_len() == 0 {
            assert(args.bindings@[i as int]@.len() == 0);
            return Err(
                Error::errno_with_msg(
                    Errno { raw: EINVAL },
                    String::from_str("a binding names no path"),
                ),
            );
        }
        fs.bindings.push(parse_binding(raw));
        i = i + 1;
    }
    match cwd {
        Some(cwd) => {
            fs.cwd = cwd;
        },
        None => {},
    }
    let command = match command {
        Some(given) => given,
        None => {
            let mut shell: Vec<String> = Vec::new();
            shell.push(String::from_str("/bin/sh"));
            assert(views(shell@) =~= default_command());
            shell
        },
    };
    Ok((fs, command, config))
}

} // verus!
