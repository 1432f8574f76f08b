//! The metadata scans over a directory snapshot.

use vstd::prelude::*;
use crate::entry::{
    Entry, Timestamp, count_dirs, count_files, entry_size, entry_subtree, file_bytes, file_size,
    later, modified_of, nested_entries, subtree_entries, total_size,
};

verus! {

broadcast use vstd::std_specs::vec::axiom_vec_index_decreases;

pub proof fn lemma_total_size_nonneg(s: Seq<Entry>)
    ensures
        total_size(s) >= 0,
    decreases s,
{
    if s.len() > 0 {
        lemma_total_size_nonneg(s.drop_last());
        lemma_entry_size_nonneg(s.last());
    }
}

pub proof fn lemma_entry_size_nonneg(e: Entry)
    ensures
        entry_size(e) >= 0,
    decreases e,
{
    if let Entry::Directory { children, .. } = e {
        lemma_total_size_nonneg(children@);
    }
}

/// A prefix of a listing never holds more bytes than the whole listing.
pub proof fn lemma_prefix_size_le(s: Seq<Entry>, k: int)
    requires
        0 <= k <= s.len(),
    ensures
        total_size(s.take(k)) <= total_size(s),
    decreases s.len(),
{
    if k < s.len() {
        lemma_prefix_size_le(s.drop_last(), k);
        assert(s.drop_last().take(k) =~= s.take(k));
        lemma_entry_size_nonneg(s.last());
    } else {
        assert(s.take(k) =~= s);
    }
}

/// Total bytes of the regular files anywhere below a directory whose entries
/// are `entries`; `None` when that total does not fit in a `u64`.
pub fn calculate_directory_size(entries: &Vec<Entry>) -> (r: Option<u64>)
    ensures
        r == (if total_size(entries@) <= u64::MAX {
            Some(total_size(entries@) as u64)
        } else {
            None::<u64>
        }),
    decreases entries,
{
    let mut total: u64 = 0;
    let mut i: usize = 0;
    while i < entries.len()
        invariant
            i <= entries.len(),
            total == total_size(entries@.take(i as int)),
        decreases entries.len() - i,
    {
        proof {
            assert(entries@.take(i + 1).drop_last() =~= entries@.take(i as int));
            assert(entries@.take(i + 1).last() == entries@[i as int]);
            assert(total_size(entries@.take(i + 1)) == total_size(entries@.take(i as int))
                + entry_size(entries@[i as int]));
            lemma_prefix_size_le(entries@, i + 1);
            lemma_total_size_nonneg(entries@.take(i as int));
            lemma_entry_size_nonneg(entries@[i as int]);
        }
        let part: Option<u64> = match &entries[i] {
            Entry::File { size, .. } => Some(*size),
            Entry::Directory { children, .. } => calculate_directory_size(children),
            Entry::Other { .. } => Some(0),
        };
        assert(part == (if entry_size(entries@[i as int]) <= u64::MAX {
            Some(entry_size(entries@[i as int]) as u64)
        } else {
            None::<u64>
        }));
        match part {
            None => {
                return None;
            },
            Some(p) => {
                if p > u64::MAX - total {
                    return None;
                }
                total = total + p;
            },
        }
        i = i + 1;
    }
    assert(entries@.take(i as int) =~= entries@);
    Some(total)
}

/// The numbers of regular files and of directories listed directly in
/// `entries`; other kinds of entry are counted in neither.
pub fn get_number_of_files_directories(entries: &Vec<Entry>) -> (r: (usize, usize))
    ensures
        r.0 == count_files(entries@),
        r.1 == count_dirs(entries@),
{
    let mut file_count: usize = 0;
    let mut directory_count: usize = 0;
    let mut i: usize = 0;
    while i < entries.len()
        invariant
            i <= entries.len(),
            file_count == count_files(entries@.take(i as int)),
            directory_count == count_dirs(entries@.take(i as int)),
            file_count + directory_count <= i,
        decreases entries.len() - i,
    {
        assert(entries@.take(i + 1).drop_last() =~= entries@.take(i as int));
        match &entries[i] {
            Entry::File { .. } => {
                file_count = file_count + 1;
            },
            Entry::Directory { .. } => {
                directory_count = directory_count + 1;
            },
            Entry::Other { .. } => {},
        }
        i = i + 1;
    }
    assert(entries@.take(i as int) =~= entries@);
    (file_count, directory_count)
}

/// `k` indexes a regular file of `s` that no file of `s` exceeds in size,
/// and every file after it is strictly smaller.
pub open spec fn is_last_largest_file(s: Seq<Entry>, k: int) -> bool {
    &&& 0 <= k < s.len()
    &&& s[k] is File
    &&& forall|j: int| 0 <= j < s.len() && #[trigger] s[j] is File ==> file_size(s[j]) <= file_size(s[k])
    &&& forall|j: int| k < j < s.len() && #[trigger] s[j] is File ==> file_size(s[j]) < file_size(s[k])
}

/// The position of the largest regular file listed directly in `entries`
/// (the last one among equals), or `None` when no file is listed.
pub fn get_largest_file(entries: &Vec<Entry>) -> (r: Option<usize>)
    ensures
        match r {
            None => forall|j: int| 0 <= j < entries@.len() ==> !(#[trigger] entries@[j] is File),
            Some(k) => is_last_largest_file(entries@, k as int),
        },
{
    let mut best: Option<usize> = None;
    let mut best_size: u64 = 0;
    let mut i: usize = 0;
    while i < entries.len()
        invariant
            i <= entries.len(),
            match best {
                None => forall|j: int| 0 <= j < i ==> !(#[trigger] entries@[j] is File),
                Some(k) => is_last_largest_file(entries@.take(i as int), k as int)
                    && best_size == file_size(entries@[k as int]),
            },
        decreases entries.len() - i,
    {
        if let Entry::File { size, .. } = &entries[i] {
            if best.is_none() || *size >= best_size {
                best = Some(i);
                best_size = *size;
            }
        }
        i = i + 1;
        assert(forall|j: int| 0 <= j < i ==> entries@.take(i as int)[j] == entries@[j]);
    }
    assert(entries@.take(i as int) =~= entries@);
    best
}

/// `k` indexes an entry of `s` that no entry of `s` is later than, and
/// every entry before it is strictly earlier.
pub open spec fn is_first_most_recent(s: Seq<Entry>, k: int) -> bool {
    &&& 0 <= k < s.len()
    &&& forall|j: int| 0 <= j < s.len() ==> !later(#[trigger] modified_of(s[j]), modified_of(s[k]))
    &&& forall|j: int| 0 <= j < k ==> later(modified_of(s[k]), #[trigger] modified_of(s[j]))
}

/// The position of the most recently modified entry listed directly in
/// `entries` (the first one among equals), or `None` for an empty listing.
pub fn get_most_recently_modified_file(entries: &Vec<Entry>) -> (r: Option<usize>)
    ensures
        match r {
            None => entries@.len() == 0,
            Some(k) => is_first_most_recent(entries@, k as int),
        },
{
    let mut best: Option<usize> = None;
    let mut best_time: Timestamp = Timestamp { secs: 0, nanos: 0 };
    let mut i: usize = 0;
    while i < entries.len()
        invariant
            i <= entries.len(),
            match best {
                None => i == 0,
                Some(k) => is_first_most_recent(entries@.take(i as int), k as int)
                    && best_time == modified_of(entries@[k as int]),
            },
        decreases entries.len() - i,
    {
        let t = entries[i].modified();
        if best.is_none() || t.is_later_than(&best_time) {
            best = Some(i);
            best_time = t;
        }
        i = i + 1;
        assert(forall|j: int| 0 <= j < i ==> entries@.take(i as int)[j] == entries@[j]);
    }
    assert(entries@.take(i as int) =~= entries@);
    best
}

proof fn lemma_concat_counts(a: Seq<Entry>, b: Seq<Entry>)
    ensures
        file_bytes(a + b) == file_bytes(a) + file_bytes(b),
        count_files(a + b) == count_files(a) + count_files(b),
        count_dirs(a + b) == count_dirs(a) + count_dirs(b),
    decreases b.len(),
{
    if b.len() == 0 {
        assert(a + b =~= a);
    } else {
        assert((a + b).drop_last() =~= a + b.drop_last());
        lemma_concat_counts(a, b.drop_last());
    }
}

proof fn lemma_single_counts(e: Entry)
    ensures
        file_bytes(seq![e]) == file_size(e),
        count_files(seq![e]) == (if e is File { 1int } else { 0int }),
        count_dirs(seq![e]) == (if e is Directory { 1int } else { 0int }),
{
    let one = seq![e];
    assert(one.drop_last() =~= Seq::<Entry>::empty());
    assert(one.last() == e);
    assert(file_bytes(one.drop_last()) == 0);
    assert(count_files(one.drop_last()) == 0);
    assert(count_dirs(one.drop_last()) == 0);
}

proof fn lemma_subtree_split(s: Seq<Entry>)
    ensures
        file_bytes(subtree_entries(s)) == file_bytes(s) + file_bytes(nested_entries(s)),
        count_files(subtree_entries(s)) == count_files(s) + count_files(nested_entries(s)),
        count_dirs(subtree_entries(s)) == count_dirs(s) + count_dirs(nested_entries(s)),
    decreases s.len(),
{
    if s.len() > 0 {
        let p = s.drop_last();
        let e = s.last();
        lemma_subtree_split(p);
        let below = match e {
            Entry::Directory { children, .. } => subtree_entries(children@),
            _ => Seq::<Entry>::empty(),
        };
        assert(entry_subtree(e) == seq![e] + below);
        lemma_concat_counts(subtree_entries(p), entry_subtree(e));
        lemma_concat_counts(seq![e], below);
        lemma_concat_counts(nested_entries(p), below);
        lemma_single_counts(e);
    }
}

proof fn lemma_total_is_subtree_bytes(s: Seq<Entry>)
    ensures
        total_size(s) == file_bytes(subtree_entries(s)),
    decreases s,
{
    if s.len() > 0 {
        let p = s.drop_last();
        let e = s.last();
        lemma_total_is_subtree_bytes(p);
        lemma_concat_counts(subtree_entries(p), entry_subtree(e));
        if let Entry::Directory { children, .. } = e {
            lemma_total_is_subtree_bytes(children@);
            lemma_concat_counts(seq![e], subtree_entries(children@));
        } else {
            lemma_concat_counts(seq![e], Seq::empty());
        }
        lemma_single_counts(e);
        assert(entry_size(e) == file_size(e) + (if let Entry::Directory { children, .. } = e {
            total_size(children@)
        } else {
            0
        }));
    }
}

/// A directory that lists regular files only: its recursive total is the
/// sum of those files' byte lengths, each entry counts as a file, and none
/// as a directory.
pub proof fn flat_directory_totals(s: Seq<Entry>)
    requires
        forall|i: int| 0 <= i < s.len() ==> #[trigger] s[i] is File,
    ensures
        total_size(s) == file_bytes(s),
        count_files(s) == s.len(),
        count_dirs(s) == 0,
    decreases s.len(),
{
    if s.len() > 0 {
        let p = s.drop_last();
        assert forall|i: int| 0 <= i < p.len() implies #[trigger] p[i] is File by {
            assert(p[i] == s[i]);
        }
        flat_directory_totals(p);
        assert(s.last() == s[s.len() - 1]);
        assert(entry_size(s.last()) == file_size(s.last()));
    }
}

/// The recursive total counts the regular files at every depth of the
/// subtree, while the file and directory counts see the direct children
/// only: the files and directories found below the direct children add to
/// the subtree's counts and bytes, and to nothing in the direct counts.
pub proof fn nested_directory_totals(s: Seq<Entry>)
    ensures
        total_size(s) == file_bytes(subtree_entries(s)),
        total_size(s) == file_bytes(s) + file_bytes(nested_entries(s)),
        count_files(subtree_entries(s)) == count_files(s) + count_files(nested_entries(s)),
        count_dirs(subtree_entries(s)) == count_dirs(s) + count_dirs(nested_entries(s)),
{
    lemma_total_is_subtree_bytes(s);
    lemma_subtree_split(s);
}

} // verus!
