use vstd::prelude::*;

verus! {

/// Result of an image read: where the image file was materialized, its
/// dimensions, and its on-disk byte size.
#[derive(Debug)]
pub struct ReadImage {
    pub path: String,
    pub width: u32,
    pub height: u32,
    pub size: u64,
}

/// One entry of a file-list read: a path and its probed byte size (zero when
/// the file is missing or unreadable).
#[derive(Debug)]
pub struct FileItem {
    pub path: String,
    pub size: u64,
}

/// Result of a file-list read: the entries in clipboard order, and their
/// aggregate size.
#[derive(Debug)]
pub struct ReadFiles {
    pub files: Vec<FileItem>,
    pub size: u64,
}

} // verus!
