//! The indented, depth-first tree listing of a directory snapshot.

use vstd::prelude::*;
use crate::entry::{Entry, name_of};

verus! {

broadcast use vstd::std_specs::vec::axiom_vec_index_decreases;

/// One printed line of the tree, and whether it names a directory.
pub struct TreeLine {
    pub text: String,
    pub is_directory: bool,
}

impl View for TreeLine {
    type V = (Seq<char>, bool);

    open spec fn view(&self) -> (Seq<char>, bool) {
        (self.text@, self.is_directory)
    }
}

pub open spec fn lines_view(s: Seq<TreeLine>) -> Seq<(Seq<char>, bool)> {
    s.map_values(|l: TreeLine| l@)
}

/// The connector glyph repeated once per level of depth.
pub open spec fn indent(depth: nat) -> Seq<char>
    decreases depth,
{
    if depth == 0 {
        Seq::empty()
    } else {
        indent((depth - 1) as nat) + seq!['│', ' ', ' ']
    }
}

/// The line naming `e` at `depth`: the indent, then a branch glyph that
/// tells directories from every other kind of entry, then the name.
pub open spec fn line_text(e: Entry, depth: nat) -> Seq<char> {
    indent(depth) + (if e is Directory {
        seq!['├', '─', ' ']
    } else {
        seq!['└', '─', ' ']
    }) + name_of(e)
}

/// The lines for `e` at `depth`: its own, then those of its subtree.
pub open spec fn entry_lines(e: Entry, depth: nat) -> Seq<(Seq<char>, bool)>
    decreases e,
{
    seq![(line_text(e, depth), e is Directory)] + match e {
        Entry::Directory { children, .. } => tree_text(children@, depth + 1),
        _ => Seq::empty(),
    }
}

/// The lines for the entries `s` at `depth`, in listing order, each
/// directory followed at once by its own subtree.
pub open spec fn tree_text(s: Seq<Entry>, depth: nat) -> Seq<(Seq<char>, bool)>
    decreases s,
{
    if s.len() == 0 {
        Seq::empty()
    } else {
        tree_text(s.drop_last(), depth) + entry_lines(s.last(), depth)
    }
}

fn push_tree_lines(
    entries: &Vec<Entry>,
    prefix: &String,
    depth: Ghost<nat>,
    out: &mut Vec<TreeLine>,
)
    requires
        prefix@ == indent(depth@),
    ensures
        lines_view(final(out)@) == lines_view(old(out)@) + tree_text(entries@, depth@),
    decreases entries,
{
    let ghost start = out@;
    let mut i: usize = 0;
    while i < entries.len()
        invariant
            i <= entries.len(),
            prefix@ == indent(depth@),
            lines_view(out@) == lines_view(start) + tree_text(entries@.take(i as int), depth@),
        decreases entries.len() - i,
    {
        assert(entries@.take(i + 1).drop_last() =~= entries@.take(i as int));
        assert(entries@.take(i + 1).last() == entries@[i as int]);
        proof {
            reveal_strlit("├─ ");
            reveal_strlit("└─ ");
            reveal_strlit("│  ");
        }
        let ghost before = out@;
        let e = &entries[i];
        let mut text = prefix.clone();
        let is_directory = matches!(e, Entry::Directory { .. });
        if is_directory {
            text.append("├─ ");
        } else {
            text.append("└─ ");
        }
        text.append(e.name().as_str());
        assert(text@ =~= line_text(*e, depth@));
        out.push(TreeLine { text, is_directory });
        assert(lines_view(out@) =~= lines_view(before) + seq![(line_text(*e, depth@), e is Directory)]);
        if let Entry::Directory { children, .. } = e {
            let mut inner = prefix.clone();
            inner.append("│  ");
            assert(inner@ =~= indent((depth@ + 1) as nat));
            push_tree_lines(children, &inner, Ghost(depth@ + 1), out);
        }
        assert(lines_view(out@) =~= lines_view(before) + entry_lines(*e, depth@));
        i = i + 1;
    }
    assert(entries@.take(i as int) =~= entries@);
}

/// The tree listing of a directory whose entries are `entries`, starting at
/// depth 0.
pub fn directory_tree(entries: &Vec<Entry>) -> (r: Vec<TreeLine>)
    ensures
        lines_view(r@) == tree_text(entries@, 0),
{
    let mut out: Vec<TreeLine> = Vec::new();
    let prefix = String::new();
    assert(lines_view(out@) =~= Seq::empty());
    push_tree_lines(entries, &prefix, Ghost(0), &mut out);
    assert(lines_view(out@) =~= tree_text(entries@, 0));
    out
}

} // verus!
