use rust_file_system_analyzer::cli::{inspect, parse_args, Command, InspectError, Target};
use rust_file_system_analyzer::entry::{Entry, Timestamp};
use rust_file_system_analyzer::report::{build_report, report_lines};
use rust_file_system_analyzer::scan::{
    calculate_directory_size, get_largest_file, get_most_recently_modified_file,
    get_number_of_files_directories,
};
use rust_file_system_analyzer::text::{decimal, format_kb, format_time, format_utc, UtcTime};
use rust_file_system_analyzer::tree::directory_tree;

fn at(secs: i64) -> Timestamp {
    Timestamp { secs, nanos: 0 }
}

fn file(name: &str, size: u64, secs: i64) -> Entry {
    Entry::File { name: name.to_string(), size, modified: at(secs) }
}

fn dir(name: &str, secs: i64, children: Vec<Entry>) -> Entry {
    Entry::Directory { name: name.to_string(), modified: at(secs), children }
}

fn other(name: &str, secs: i64) -> Entry {
    Entry::Other { name: name.to_string(), modified: at(secs) }
}

fn strings(v: &[&str]) -> Vec<String> {
    v.iter().map(|s| s.to_string()).collect()
}

#[test]
fn flat_directory_sums_file_sizes() {
    let entries = vec![file("a", 10, 1), file("b", 20, 2), file("c", 0, 3)];
    assert_eq!(calculate_directory_size(&entries), Some(30));
    assert_eq!(get_number_of_files_directories(&entries), (3, 0));
    let rep = build_report(&"root".to_string(), &entries).unwrap();
    assert_eq!(rep.total_size_bytes, 30);
    assert_eq!(rep.file_count, 3);
    assert_eq!(rep.directory_count, 0);
}

#[test]
fn nested_total_is_recursive_but_counts_are_direct() {
    let entries = vec![
        file("a", 5, 1),
        dir("sub", 2, vec![file("b", 7, 1), dir("deep", 1, vec![file("c", 11, 1)])]),
        other("link", 3),
    ];
    assert_eq!(calculate_directory_size(&entries), Some(23));
    assert_eq!(get_number_of_files_directories(&entries), (1, 1));
}

#[test]
fn empty_directory_reports_nothing() {
    let entries: Vec<Entry> = vec![];
    assert_eq!(calculate_directory_size(&entries), Some(0));
    assert_eq!(get_number_of_files_directories(&entries), (0, 0));
    assert_eq!(get_largest_file(&entries), None);
    assert_eq!(get_most_recently_modified_file(&entries), None);
    let rep = build_report(&"e".to_string(), &entries).unwrap();
    assert!(rep.largest_file.is_none());
    assert!(rep.most_recent_file.is_none());
}

#[test]
fn total_size_overflow_is_reported() {
    let entries = vec![file("a", u64::MAX, 1), file("b", 1, 1)];
    assert_eq!(calculate_directory_size(&entries), None);
    let r = inspect(&"big".to_string(), &Target::Directory(entries));
    assert!(matches!(r, Err(InspectError::TotalSizeOverflow)));
    let max_only = vec![dir("d", 1, vec![file("a", u64::MAX, 1)]), file("z", 0, 1)];
    assert_eq!(calculate_directory_size(&max_only), Some(u64::MAX));
}

#[test]
fn largest_file_is_a_maximal_file() {
    let entries = vec![file("a", 3, 1), file("b", 9, 1), dir("d", 1, vec![file("huge", 100, 1)]), file("c", 4, 1)];
    assert_eq!(get_largest_file(&entries), Some(1));
    let rep = build_report(&"r".to_string(), &entries).unwrap();
    assert_eq!(rep.largest_file, Some(("b".to_string(), 9)));
}

#[test]
fn largest_file_ties_go_to_the_last() {
    let entries = vec![file("a", 9, 1), file("b", 9, 1), other("x", 1)];
    assert_eq!(get_largest_file(&entries), Some(1));
}

#[test]
fn largest_file_absent_without_files() {
    let entries = vec![dir("d", 1, vec![file("f", 1, 1)]), other("l", 1)];
    assert_eq!(get_largest_file(&entries), None);
}

#[test]
fn most_recent_is_a_latest_child() {
    let entries = vec![
        file("a", 1, 100),
        dir("d", 300, vec![]),
        Entry::File { name: "b".to_string(), size: 1, modified: Timestamp { secs: 300, nanos: 5 } },
        other("l", 200),
    ];
    assert_eq!(get_most_recently_modified_file(&entries), Some(2));
    let rep = build_report(&"r".to_string(), &entries).unwrap();
    assert_eq!(rep.most_recent_file, Some(("b".to_string(), Timestamp { secs: 300, nanos: 5 })));
}

#[test]
fn most_recent_ties_go_to_the_first() {
    let entries = vec![file("a", 1, 50), dir("d", 50, vec![]), other("l", 50)];
    assert_eq!(get_most_recently_modified_file(&entries), Some(0));
}

#[test]
fn epoch_zero_formats_as_new_year_1970() {
    assert_eq!(format_time(at(0)), "01/01/1970 00:00:00");
    assert_eq!(format_time(Timestamp { secs: 0, nanos: 999_999_999 }), "01/01/1970 00:00:00");
}

#[test]
fn timestamps_format_in_utc() {
    assert_eq!(format_time(at(1_000_000_000)), "09/09/2001 01:46:40");
    assert_eq!(format_time(at(1_730_456_153)), "11/01/2024 10:15:53");
    assert_eq!(format_time(at(-1)), "12/31/1969 23:59:59");
    assert_eq!(format_time(at(i64::MAX)), "");
}

#[test]
fn utc_fields_format_with_padding() {
    let t = UtcTime { year: 987, month: 3, day: 4, hour: 5, minute: 6, second: 7 };
    assert_eq!(format_utc(&t), "03/04/0987 05:06:07");
    let t = UtcTime { year: 12345, month: 12, day: 31, hour: 23, minute: 59, second: 58 };
    assert_eq!(format_utc(&t), "12/31/+12345 23:59:58");
    let t = UtcTime { year: -1, month: 1, day: 1, hour: 0, minute: 0, second: 0 };
    assert_eq!(format_utc(&t), "01/01/-0001 00:00:00");
}

#[test]
fn kilobytes_have_one_decimal() {
    assert_eq!(format_kb(0), "0.0");
    assert_eq!(format_kb(49), "0.0");
    assert_eq!(format_kb(50), "0.1");
    assert_eq!(format_kb(1234), "1.2");
    assert_eq!(format_kb(1250), "1.3");
    assert_eq!(format_kb(999_950), "1000.0");
    assert_eq!(format_kb(u64::MAX), "18446744073709551.6");
}

#[test]
fn decimal_digits() {
    assert_eq!(decimal(0), "0");
    assert_eq!(decimal(7), "7");
    assert_eq!(decimal(1024), "1024");
    assert_eq!(decimal(u64::MAX), "18446744073709551615");
}

#[test]
fn tree_lists_subdirectories_one_level_deeper() {
    let entries = vec![file("a.txt", 1, 1), dir("sub", 1, vec![file("b.txt", 2, 1)])];
    let lines = directory_tree(&entries);
    let texts: Vec<&str> = lines.iter().map(|l| l.text.as_str()).collect();
    assert_eq!(texts, vec!["└─ a.txt", "├─ sub", "│  └─ b.txt"]);
    let dirs: Vec<bool> = lines.iter().map(|l| l.is_directory).collect();
    assert_eq!(dirs, vec![false, true, false]);
}

#[test]
fn tree_is_depth_first() {
    let entries = vec![
        dir("x", 1, vec![dir("y", 1, vec![other("z", 1)])]),
        file("w", 1, 1),
    ];
    let texts: Vec<String> = directory_tree(&entries).into_iter().map(|l| l.text).collect();
    assert_eq!(texts, strings(&["├─ x", "│  ├─ y", "│  │  └─ z", "└─ w"]));
}

#[test]
fn report_header_lines() {
    let entries = vec![
        Entry::File { name: "big.bin".to_string(), size: 2500, modified: at(0) },
        file("s", 100, 1_000_000_000),
        dir("d", 5, vec![file("in", 400, 1)]),
    ];
    let rep = build_report(&"/tmp/x".to_string(), &entries).unwrap();
    assert_eq!(
        report_lines(&rep),
        strings(&[
            "Metadata for: /tmp/x",
            "Total folder size: 3.0 kB",
            "Number of files: 2",
            "Number of directories: 1",
            "Largest file: big.bin (2.5 kB)",
            "Most recently modified file: s (09/09/2001 01:46:40:UTC)",
            "",
            "Directory tree:",
        ])
    );
}

#[test]
fn report_header_without_optional_lines() {
    let rep = build_report(&"e".to_string(), &vec![]).unwrap();
    assert_eq!(
        report_lines(&rep),
        strings(&[
            "Metadata for: e",
            "Total folder size: 0.0 kB",
            "Number of files: 0",
            "Number of directories: 0",
            "",
            "Directory tree:",
        ])
    );
}

#[test]
fn nonexistent_path_gives_only_the_message() {
    let path = "/no/such/dir".to_string();
    let r = inspect(&path, &Target::Missing);
    assert!(matches!(r, Err(InspectError::PathNotFound)));
    assert_eq!(InspectError::PathNotFound.message(&path), "Directory does not exist");
}

#[test]
fn regular_file_path_is_not_a_directory() {
    let path = "notes.txt".to_string();
    let r = inspect(&path, &Target::NotADirectory);
    assert!(matches!(r, Err(InspectError::NotADirectory)));
    assert_eq!(InspectError::NotADirectory.message(&path), "notes.txt is not a directory");
}

#[test]
fn directory_target_gives_a_report() {
    let r = inspect(&"r".to_string(), &Target::Directory(vec![file("a", 1, 1)]));
    let rep = r.unwrap();
    assert_eq!(rep.path, "r");
    assert_eq!(rep.file_count, 1);
}

#[test]
fn arguments_select_the_command() {
    assert!(matches!(parse_args(&strings(&["prog"])), Err(InspectError::MissingArgument)));
    assert_eq!(
        InspectError::MissingArgument.message(&String::new()),
        "Please provide a directory path"
    );
    assert!(matches!(parse_args(&strings(&["prog", "-h"])), Ok(Command::Help)));
    assert!(matches!(parse_args(&strings(&["prog", "--help", "x"])), Ok(Command::Help)));
    match parse_args(&strings(&["prog", "some/dir", "-h"])) {
        Ok(Command::Inspect(p)) => assert_eq!(p, "some/dir"),
        _ => panic!("expected a path"),
    }
}
