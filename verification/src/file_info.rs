//! A plain summary of one directory entry.

use vstd::prelude::*;
use crate::dir_entry::{ATTR_DIRECTORY, ATTR_HIDDEN, ATTR_READ_ONLY, ATTR_SYSTEM, DirEntry};

verus! {

/// The facts about a file or directory that a caller usually wants, taken
/// from its directory entry.
#[derive(Debug, Clone)]
pub struct FileInfo {
    pub name: Vec<u8>,
    pub is_directory: bool,
    pub is_read_only: bool,
    pub is_hidden: bool,
    pub is_system: bool,
    pub first_cluster: u32,
    pub size: u32,
}

impl FileInfo {
    /// Summarizes a directory entry.
    pub fn from_dir_entry(entry: &DirEntry) -> (r: FileInfo)
        ensures
            r.name@ == entry.name@,
            r.is_directory == (entry.attributes & ATTR_DIRECTORY != 0),
            r.is_read_only == (entry.attributes & ATTR_READ_ONLY != 0),
            r.is_hidden == (entry.attributes & ATTR_HIDDEN != 0),
            r.is_system == (entry.attributes & ATTR_SYSTEM != 0),
            r.first_cluster == entry.spec_first_cluster(),
            r.size == entry.file_size,
    {
        FileInfo {
            name: entry.get_name(),
            is_directory: entry.is_directory(),
            is_read_only: entry.is_read_only(),
            is_hidden: entry.is_hidden(),
            is_system: entry.is_system(),
            first_cluster: entry.first_cluster(),
            size: entry.file_size,
        }
    }
}

} // verus!
