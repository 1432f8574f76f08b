//! The decisions of the command line: what the arguments ask for, and what
//! becomes of the path they name.

use vstd::prelude::*;
use crate::entry::{Entry, total_size};
use crate::report::{DirectoryReport, build_report, reports};

verus! {

/// What an invocation asks for.
pub enum Command {
    /// Print the usage text.
    Help,
    /// Inspect the directory at this path.
    Inspect(String),
}

/// Why an invocation ends with a message instead of a report.
#[derive(Clone, Copy, Debug, PartialEq, Eq, Structural)]
pub enum InspectError {
    /// No path was given.
    MissingArgument,
    /// The path does not exist or its metadata cannot be read.
    PathNotFound,
    /// The path exists but is not a directory.
    NotADirectory,
    /// The directory holds more bytes than a `u64` counts.
    TotalSizeOverflow,
}

/// `a` is one of the two spellings of the help flag.
pub open spec fn is_help_flag(a: Seq<char>) -> bool {
    a == "-h"@ || a == "--help"@
}

/// The command asked for by `args`, whose first element is the program
/// name: the help flag or a path as first argument; an error without one.
pub fn parse_args(args: &Vec<String>) -> (r: Result<Command, InspectError>)
    ensures
        args@.len() < 2 ==> r == Err::<Command, InspectError>(InspectError::MissingArgument),
        args@.len() >= 2 && is_help_flag(args@[1]@) ==> r is Ok && r->Ok_0 is Help,
        args@.len() >= 2 && !is_help_flag(args@[1]@) ==> r is Ok && r->Ok_0 is Inspect
            && r->Ok_0->Inspect_0@ == args@[1]@,
{
    if args.len() < 2 {
        return Err(InspectError::MissingArgument);
    }
    let first = &args[1];
    let short = String::from_str("-h");
    let long = String::from_str("--help");
    if *first == short || *first == long {
        Ok(Command::Help)
    } else {
        Ok(Command::Inspect(first.clone()))
    }
}

/// What was found at the path to inspect.
pub enum Target {
    /// Nothing, or nothing whose metadata could be read.
    Missing,
    /// Something other than a directory.
    NotADirectory,
    /// A directory, with the entries read from it.
    Directory(Vec<Entry>),
}

/// The report on `path`, or the reason there is none.
pub fn inspect(path: &String, target: &Target) -> (r: Result<DirectoryReport, InspectError>)
    ensures
        match target {
            Target::Missing => r == Err::<DirectoryReport, InspectError>(InspectError::PathNotFound),
            Target::NotADirectory => r == Err::<DirectoryReport, InspectError>(
                InspectError::NotADirectory,
            ),
            Target::Directory(entries) => match r {
                Ok(rep) => reports(rep, path@, entries@),
                Err(e) => e == InspectError::TotalSizeOverflow && total_size(entries@) > u64::MAX,
            },
        },
{
    match target {
        Target::Missing => Err(InspectError::PathNotFound),
        Target::NotADirectory => Err(InspectError::NotADirectory),
        Target::Directory(entries) => match build_report(path, entries) {
            Some(rep) => Ok(rep),
            None => Err(InspectError::TotalSizeOverflow),
        },
    }
}

pub open spec fn error_text(e: InspectError, path: Seq<char>) -> Seq<char> {
    match e {
        InspectError::MissingArgument => "Please provide a directory path"@,
        InspectError::PathNotFound => "Directory does not exist"@,
        InspectError::NotADirectory => path + " is not a directory"@,
        InspectError::TotalSizeOverflow => path + " holds more bytes than can be counted"@,
    }
}

impl InspectError {
    /// The message printed for this error about `path`.
    pub fn message(&self, path: &String) -> (r: String)
        ensures
            r@ == error_text(*self, path@),
    {
        match self {
            InspectError::MissingArgument => String::from_str("Please provide a directory path"),
            InspectError::PathNotFound => String::from_str("Directory does not exist"),
            InspectError::NotADirectory => {
                let mut s = path.clone();
                s.append(" is not a directory");
                s
            },
            InspectError::TotalSizeOverflow => {
                let mut s = path.clone();
                s.append(" holds more bytes than can be counted");
                s
            },
        }
    }
}

} // verus!
