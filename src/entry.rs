//! The snapshot model: each entry of a directory listing, with the subtree
//! of every directory held in place.

use vstd::prelude::*;

verus! {

/// A modification time: whole seconds since the Unix epoch (negative before
/// it) and the nanoseconds past that second.
#[derive(Clone, Copy, Debug, PartialEq, Eq, Structural)]
pub struct Timestamp {
    pub secs: i64,
    pub nanos: u32,
}

/// `a` is strictly later than `b`.
pub open spec fn later(a: Timestamp, b: Timestamp) -> bool {
    a.secs > b.secs || (a.secs == b.secs && a.nanos > b.nanos)
}

impl Timestamp {
    pub fn is_later_than(&self, other: &Timestamp) -> (r: bool)
        ensures
            r == later(*self, *other),
    {
        self.secs > other.secs || (self.secs == other.secs && self.nanos > other.nanos)
    }
}

/// One entry of a directory listing.
#[derive(Debug)]
pub enum Entry {
    /// A regular file and its length in bytes.
    File { name: String, size: u64, modified: Timestamp },
    /// A subdirectory and the entries read from it.
    Directory { name: String, modified: Timestamp, children: Vec<Entry> },
    /// Anything else a listing yields (a symbolic link, a socket, ...).
    Other { name: String, modified: Timestamp },
}

pub open spec fn name_of(e: Entry) -> Seq<char> {
    match e {
        Entry::File { name, .. } => name@,
        Entry::Directory { name, .. } => name@,
        Entry::Other { name, .. } => name@,
    }
}

pub open spec fn modified_of(e: Entry) -> Timestamp {
    match e {
        Entry::File { modified, .. } => modified,
        Entry::Directory { modified, .. } => modified,
        Entry::Other { modified, .. } => modified,
    }
}

impl Entry {
    pub fn name(&self) -> (r: &String)
        ensures
            r@ == name_of(*self),
    {
        match self {
            Entry::File { name, .. } => name,
            Entry::Directory { name, .. } => name,
            Entry::Other { name, .. } => name,
        }
    }

    pub fn modified(&self) -> (r: Timestamp)
        ensures
            r == modified_of(*self),
    {
        match self {
            Entry::File { modified, .. } => *modified,
            Entry::Directory { modified, .. } => *modified,
            Entry::Other { modified, .. } => *modified,
        }
    }
}

/// The byte length of a regular file (0 for any other entry).
pub open spec fn file_size(e: Entry) -> int {
    match e {
        Entry::File { size, .. } => size as int,
        _ => 0,
    }
}

/// Number of regular files listed directly in `s`.
pub open spec fn count_files(s: Seq<Entry>) -> int
    decreases s.len(),
{
    if s.len() == 0 {
        0
    } else {
        count_files(s.drop_last()) + (if s.last() is File { 1int } else { 0int })
    }
}

/// Number of directories listed directly in `s`.
pub open spec fn count_dirs(s: Seq<Entry>) -> int
    decreases s.len(),
{
    if s.len() == 0 {
        0
    } else {
        count_dirs(s.drop_last()) + (if s.last() is Directory { 1int } else { 0int })
    }
}

/// Bytes held by the regular files listed directly in `s`.
pub open spec fn file_bytes(s: Seq<Entry>) -> int
    decreases s.len(),
{
    if s.len() == 0 {
        0
    } else {
        file_bytes(s.drop_last()) + file_size(s.last())
    }
}

/// Bytes held by the regular files of the subtree rooted at `e`.
pub open spec fn entry_size(e: Entry) -> int
    decreases e,
{
    match e {
        Entry::File { size, .. } => size as int,
        Entry::Directory { children, .. } => total_size(children@),
        Entry::Other { .. } => 0,
    }
}

/// Bytes held by the regular files of all the subtrees listed in `s`.
pub open spec fn total_size(s: Seq<Entry>) -> int
    decreases s,
{
    if s.len() == 0 {
        0
    } else {
        total_size(s.drop_last()) + entry_size(s.last())
    }
}

/// Every entry of the subtree rooted at `e`, `e` first, in listing order.
pub open spec fn entry_subtree(e: Entry) -> Seq<Entry>
    decreases e,
{
    seq![e] + match e {
        Entry::Directory { children, .. } => subtree_entries(children@),
        _ => Seq::empty(),
    }
}

/// Every entry of the subtrees listed in `s`, at any depth.
pub open spec fn subtree_entries(s: Seq<Entry>) -> Seq<Entry>
    decreases s,
{
    if s.len() == 0 {
        Seq::empty()
    } else {
        subtree_entries(s.drop_last()) + entry_subtree(s.last())
    }
}

/// The entries found below the directories listed in `s`, but not `s`'s
/// own entries.
pub open spec fn nested_entries(s: Seq<Entry>) -> Seq<Entry>
    decreases s,
{
    if s.len() == 0 {
        Seq::empty()
    } else {
        nested_entries(s.drop_last()) + match s.last() {
            Entry::Directory { children, .. } => subtree_entries(children@),
            _ => Seq::empty(),
        }
    }
}

} // verus!
