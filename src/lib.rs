//! A directory inspector: a snapshot of a directory tree is summarised
//! (recursive byte total, direct-child counts, largest and most recently
//! modified direct child) and rendered as a text report with a tree listing.

pub mod entry;
pub mod scan;
pub mod text;
pub mod tree;
pub mod report;
pub mod cli;
