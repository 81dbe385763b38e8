//! Plain data records of the surrounding application shell: drive
//! statistics and the size-cache scaffolding.  The transform pipeline
//! neither reads nor writes them; they are carried here only as data.

use vstd::prelude::*;

verus! {

/// A snapshot of one drive's capacity.
#[derive(Debug)]
pub struct DiskInfo {
    pub drive: String,
    pub drive_type: String,
    pub total_space: u64,
    pub free_space: u64,
    pub used_space: u64,
}

/// A cached size measurement of one file on a drive.
#[derive(Debug, Clone)]
pub struct DiskSizeInfo {
    pub drive: String,
    pub file_size: u64,
    pub last_modified: u64,
    pub last_scanned: u64,
}

/// A cached size measurement of one folder.
#[derive(Debug)]
pub struct CachedFolderInfo {
    pub size: u64,
    pub last_modified: u64,
    pub last_scanned: u64,
}

/// A snapshot of one file-system entry.
#[derive(Debug)]
pub struct FileInfo {
    pub name: String,
    pub path: String,
    pub size: u64,
    pub is_directory: bool,
    pub modified_time: u64,
}

} // verus!
