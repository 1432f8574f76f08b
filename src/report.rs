//! Assembling the report for a directory and rendering its header lines.

use vstd::prelude::*;
use crate::entry::{Entry, Timestamp, count_dirs, count_files, file_size, modified_of, name_of, total_size};
use crate::scan::{
    calculate_directory_size, get_largest_file, get_most_recently_modified_file,
    get_number_of_files_directories, is_first_most_recent, is_last_largest_file,
    lemma_total_size_nonneg,
};
use crate::text::{format_kb, format_time, decimal, decimal_text, kb_text, stamp_text};

verus! {

/// What is reported of one directory.
pub struct DirectoryReport {
    pub path: String,
    pub total_size_bytes: u64,
    pub file_count: usize,
    pub directory_count: usize,
    /// Name and byte length of the largest direct-child file.
    pub largest_file: Option<(String, u64)>,
    /// Name and modification time of the most recently modified direct child.
    pub most_recent_file: Option<(String, Timestamp)>,
}

/// `r` reports the directory at `path` whose entries are `s`.
pub open spec fn reports(r: DirectoryReport, path: Seq<char>, s: Seq<Entry>) -> bool {
    &&& r.path@ == path
    &&& r.total_size_bytes == total_size(s)
    &&& r.file_count == count_files(s)
    &&& r.directory_count == count_dirs(s)
    &&& match r.largest_file {
        None => forall|j: int| 0 <= j < s.len() ==> !(#[trigger] s[j] is File),
        Some(f) => exists|k: int|
            #![trigger s[k]]
            is_last_largest_file(s, k) && f.0@ == name_of(s[k]) && f.1 == file_size(s[k]),
    }
    &&& match r.most_recent_file {
        None => s.len() == 0,
        Some(f) => exists|k: int|
            #![trigger s[k]]
            is_first_most_recent(s, k) && f.0@ == name_of(s[k]) && f.1 == modified_of(s[k]),
    }
}

/// The report on the directory at `path` whose entries are `entries`;
/// `None` exactly when its total size does not fit in a `u64`.
pub fn build_report(path: &String, entries: &Vec<Entry>) -> (r: Option<DirectoryReport>)
    ensures
        match r {
            None => total_size(entries@) > u64::MAX,
            Some(rep) => reports(rep, path@, entries@),
        },
{
    proof {
        lemma_total_size_nonneg(entries@);
    }
    let total = match calculate_directory_size(entries) {
        Some(t) => t,
        None => {
            return None;
        },
    };
    let (file_count, directory_count) = get_number_of_files_directories(entries);
    let largest_file: Option<(String, u64)> = match get_largest_file(entries) {
        Some(k) => {
            let name = entries[k].name().clone();
            let size: u64 = match &entries[k] {
                Entry::File { size, .. } => *size,
                _ => 0,
            };
            assert(is_last_largest_file(entries@, k as int) && name@ == name_of(entries@[k as int])
                && size == file_size(entries@[k as int]));
            Some((name, size))
        },
        None => None,
    };
    let most_recent_file: Option<(String, Timestamp)> = match get_most_recently_modified_file(
        entries,
    ) {
        Some(k) => {
            let name = entries[k].name().clone();
            let modified = entries[k].modified();
            assert(is_first_most_recent(entries@, k as int) && name@ == name_of(entries@[k as int])
                && modified == modified_of(entries@[k as int]));
            Some((name, modified))
        },
        None => None,
    };
    Some(DirectoryReport {
        path: path.clone(),
        total_size_bytes: total,
        file_count,
        directory_count,
        largest_file,
        most_recent_file,
    })
}

pub open spec fn texts(s: Seq<String>) -> Seq<Seq<char>> {
    s.map_values(|x: String| x@)
}

/// The header of the printed report, from its first line to the line that
/// introduces the tree listing.
pub open spec fn header_text(r: DirectoryReport) -> Seq<Seq<char>> {
    seq![
        "Metadata for: "@ + r.path@,
        "Total folder size: "@ + kb_text(r.total_size_bytes as nat) + " kB"@,
        "Number of files: "@ + decimal_text(r.file_count as nat),
        "Number of directories: "@ + decimal_text(r.directory_count as nat),
    ] + match r.largest_file {
        Some(f) => seq!["Largest file: "@ + f.0@ + " ("@ + kb_text(f.1 as nat) + " kB)"@],
        None => Seq::empty(),
    } + match r.most_recent_file {
        Some(f) => seq![
            "Most recently modified file: "@ + f.0@ + " ("@ + stamp_text(f.1.secs as int)
                + ":UTC)"@,
        ],
        None => Seq::empty(),
    } + seq![Seq::empty(), "Directory tree:"@]
}

fn text_line(a: &str, b: &str) -> (r: String)
    ensures
        r@ == a@ + b@,
{
    let mut s = String::from_str(a);
    s.append(b);
    s
}

/// The header lines of the printed report on `report`.
pub fn report_lines(report: &DirectoryReport) -> (r: Vec<String>)
    ensures
        texts(r@) == header_text(*report),
{
    let mut lines: Vec<String> = Vec::new();
    lines.push(text_line("Metadata for: ", report.path.as_str()));
    let mut size = text_line("Total folder size: ", format_kb(report.total_size_bytes).as_str());
    size.append(" kB");
    lines.push(size);
    lines.push(text_line("Number of files: ", decimal(report.file_count as u64).as_str()));
    lines.push(
        text_line("Number of directories: ", decimal(report.directory_count as u64).as_str()),
    );
    let ghost fixed = lines@;
    match &report.largest_file {
        Some(f) => {
            let mut l = text_line("Largest file: ", f.0.as_str());
            l.append(" (");
            l.append(format_kb(f.1).as_str());
            l.append(" kB)");
            lines.push(l);
        },
        None => {},
    }
    match &report.most_recent_file {
        Some(f) => {
            let mut l = text_line("Most recently modified file: ", f.0.as_str());
            l.append(" (");
            l.append(format_time(f.1).as_str());
            l.append(":UTC)");
            lines.push(l);
        },
        None => {},
    }
    lines.push(String::new());
    lines.push(String::from_str("Directory tree:"));
    assert(texts(lines@) =~= header_text(*report));
    lines
}

} // verus!
