//! The sockets among a process's open file descriptors.
//!
//! Each entry of `/proc/<pid>/fd` links to what the descriptor refers to; a
//! `stat` of it tells its file type and inode. The inode of a socket is what
//! the connection table names it by.

use vstd::prelude::*;

verus! {

/// The mask of the file-type bits of a mode (`S_IFMT` of `<sys/stat.h>`).
pub const S_IFMT: u32 = 0o170000;

/// The file-type bits of a socket (`S_IFSOCK` of `<sys/stat.h>`).
pub const S_IFSOCK: u32 = 0o140000;

#[verifier::external_type_specification]
#[verifier::external_body]
pub struct ExIoError(std::io::Error);

/// Relies on `std::io::Error::last_os_error`: the error that the last failed
/// system call left behind.
pub assume_specification[ std::io::Error::last_os_error ]() -> std::io::Error;

/// Turns the return value of a system call into an error when it is the
/// call's error value.
pub fn check(result: i32, error: i32) -> (r: Result<(), std::io::Error>)
    ensures
        r is Err <==> result == error,
{
    if result == error {
        Err(std::io::Error::last_os_error())
    } else {
        Ok(())
    }
}

/// Whether the file mode `mode` is that of a socket.
pub open spec fn is_socket_mode(mode: u32) -> bool {
    mode & S_IFMT == S_IFSOCK
}

/// Whether the file mode `mode` is that of a socket.
pub fn is_socket(mode: u32) -> (r: bool)
    ensures
        r == is_socket_mode(mode),
{
    mode & S_IFMT == S_IFSOCK
}

/// What was learnt of one open file descriptor of a process.
#[derive(Clone, Copy, Debug, PartialEq, Eq, Structural)]
pub enum FdEntry {
    /// The file the descriptor refers to: its mode bits and its inode.
    Status { mode: u32, inode: u64 },
    /// The descriptor could not be looked at (it was closed meanwhile, or
    /// access to it was denied).
    Unreadable,
}

/// The inode of the socket that `e` refers to, if it refers to one.
pub open spec fn socket_inode(e: FdEntry) -> Option<u64> {
    match e {
        FdEntry::Status { mode, inode } => if is_socket_mode(mode) {
            Some(inode)
        } else {
            None
        },
        FdEntry::Unreadable => None,
    }
}

/// The inodes of the sockets among `s`, in order.
pub open spec fn socket_inodes_of(s: Seq<FdEntry>) -> Seq<u64>
    decreases s.len(),
{
    if s.len() == 0 {
        seq![]
    } else {
        let rest = socket_inodes_of(s.drop_last());
        match socket_inode(s.last()) {
            Some(n) => rest.push(n),
            None => rest,
        }
    }
}

proof fn lemma_socket_inodes_of_contains(s: Seq<FdEntry>, x: u64)
    ensures
        socket_inodes_of(s).contains(x) <==> exists|i: int|
            0 <= i < s.len() && #[trigger] socket_inode(s[i]) == Some(x),
    decreases s.len(),
{
    if s.len() > 0 {
        let p = s.drop_last();
        lemma_socket_inodes_of_contains(p, x);
        let rest = socket_inodes_of(p);
        if socket_inodes_of(s).contains(x) {
            if rest.contains(x) {
                let i = choose|i: int| 0 <= i < p.len() && #[trigger] socket_inode(p[i]) == Some(x);
                assert(s[i] == p[i]);
            } else {
                match socket_inode(s.last()) {
                    Some(n) => {
                        let k = choose|k: int| 0 <= k < rest.push(n).len() && rest.push(n)[k] == x;
                        assert(k == rest.len());
                        assert(socket_inode(s[s.len() - 1]) == Some(x));
                    },
                    None => {},
                }
            }
        }
        if exists|i: int| 0 <= i < s.len() && #[trigger] socket_inode(s[i]) == Some(x) {
            let i = choose|i: int| 0 <= i < s.len() && #[trigger] socket_inode(s[i]) == Some(x);
            if i < s.len() - 1 {
                assert(p[i] == s[i]);
                let k = choose|k: int| 0 <= k < rest.len() && rest[k] == x;
                match socket_inode(s.last()) {
                    Some(n) => assert(rest.push(n)[k] == x),
                    None => {},
                }
            } else {
                assert(socket_inodes_of(s) == rest.push(x));
                assert(rest.push(x)[rest.len() as int] == x);
            }
        }
    }
}

/// The inodes of the sockets among the open file descriptors `entries`, in
/// their order; descriptors of other files, and those that could not be looked
/// at, are left out.
pub fn socket_inodes(entries: &Vec<FdEntry>) -> (r: Vec<u64>)
    ensures
        r@ == socket_inodes_of(entries@),
        forall|x: u64|
            r@.contains(x) <==> exists|i: int|
                0 <= i < entries@.len() && #[trigger] socket_inode(entries@[i]) == Some(x),
{
    let mut out: Vec<u64> = Vec::new();
    let mut i: usize = 0;
    while i < entries.len()
        invariant
            i <= entries@.len(),
            out@ == socket_inodes_of(entries@.take(i as int)),
        decreases entries@.len() - i,
    {
        let ghost before = entries@.take(i as int);
        assert(entries@.take(i + 1).drop_last() =~= before);
        match entries[i] {
            FdEntry::Status { mode, inode } => {
                if is_socket(mode) {
                    out.push(inode);
                }
            },
            FdEntry::Unreadable => {},
        }
        i = i + 1;
    }
    assert(entries@.take(i as int) =~= entries@);
    proof {
        assert forall|x: u64|
            out@.contains(x) <==> exists|i: int|
                0 <= i < entries@.len() && #[trigger] socket_inode(entries@[i]) == Some(x) by {
            lemma_socket_inodes_of_contains(entries@, x);
        }
    }
    out
}

} // verus!
