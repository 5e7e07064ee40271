//! Local file reading, indexing and watching results.
use vstd::prelude::*;

verus! {

/// Stable identifier for one active filesystem watch registration.
#[derive(Debug, PartialEq, Eq, PartialOrd, Ord, Hash)]
pub struct FileWatchId(pub String);

impl FileWatchId {
    pub fn new(value: &str) -> (r: Self)
        ensures
            r.0@ == value@,
    {
        FileWatchId(value.to_owned())
    }
}

impl Clone for FileWatchId {
    fn clone(&self) -> (r: Self)
        ensures
            r == *self,
    {
        FileWatchId(self.0.clone())
    }
}

#[derive(Debug, Clone, Copy, PartialEq, Eq, Structural)]
pub enum FileChangeKind {
    Created,
    Modified,
    Removed,
    Other,
}

#[derive(Debug, PartialEq, Eq)]
pub struct FileChange {
    pub watch_id: FileWatchId,
    pub path: String,
    pub kind: FileChangeKind,
}

impl Clone for FileChange {
    fn clone(&self) -> (r: Self)
        ensures
            r == *self,
    {
        FileChange { watch_id: self.watch_id.clone(), path: self.path.clone(), kind: self.kind }
    }
}

#[derive(Debug, PartialEq, Eq)]
pub struct FileEntry {
    pub path: String,
    pub name: String,
    pub extension: Option<String>,
    pub size_bytes: u64,
    pub modified_at_unix_ms: Option<u64>,
    pub is_directory: bool,
}

impl Clone for FileEntry {
    fn clone(&self) -> (r: Self)
        ensures
            r == *self,
    {
        let extension = match &self.extension {
            Some(extension) => Some(extension.clone()),
            None => None,
        };
        FileEntry {
            path: self.path.clone(),
            name: self.name.clone(),
            extension,
            size_bytes: self.size_bytes,
            modified_at_unix_ms: self.modified_at_unix_ms,
            is_directory: self.is_directory,
        }
    }
}

#[derive(Debug, PartialEq, Eq)]
pub struct FileReadResult {
    pub entry: FileEntry,
    pub content: String,
    pub from_cache: bool,
}

#[derive(Debug, PartialEq, Eq)]
pub struct FileIndex {
    pub root: String,
    pub entries: Vec<FileEntry>,
    pub scanned_at_unix_ms: u64,
    pub truncated: bool,
}

#[derive(Debug, PartialEq, Eq)]
pub struct FileWatch {
    pub id: FileWatchId,
    pub root: String,
    pub recursive: bool,
}

} // verus!
