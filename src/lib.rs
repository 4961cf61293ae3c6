//! Classification of the entries of one directory and their human-readable
//! sizes, as plain values that a presentation layer renders without touching
//! the file system again.

pub mod size;
pub mod text;
pub mod paint;
pub mod entry;
pub mod report;
