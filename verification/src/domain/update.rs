//! Update metadata and download progress.
use vstd::prelude::*;

verus! {

/// Public update metadata; download URLs and signatures never appear here.
#[derive(Debug, PartialEq, Eq)]
pub struct UpdateInfo {
    pub current_version: String,
    pub version: String,
    pub notes: Option<String>,
    pub published_at_unix_seconds: Option<i64>,
    pub target: String,
}

/// Ordered download progress.
#[derive(Debug, Clone, Copy, PartialEq, Eq, Structural)]
pub enum UpdateProgress {
    Started { content_length: Option<u64> },
    Progress { chunk_length: u64, downloaded: u64, content_length: Option<u64> },
    Finished { downloaded: u64 },
}

#[derive(Debug, Clone, Copy, PartialEq, Eq, Structural)]
pub struct UpdateInstallResult {
    pub installed: bool,
    pub restart_requested: bool,
}

} // verus!
