//! Batch image compression requests, progress and results.
use vstd::prelude::*;

verus! {

#[derive(Debug, PartialEq, Eq)]
pub struct CompressImagesRequest {
    pub items: Vec<String>,
    pub output_dir: String,
    pub quality: u8,
}

#[derive(Debug, Clone, Copy, PartialEq, Eq, Structural)]
pub enum CompressionStatus {
    Processing,
    Completed,
    Skipped,
    Failed,
}

#[derive(Debug, PartialEq, Eq)]
pub struct CompressionProgress {
    pub index: usize,
    pub total: usize,
    pub file_name: String,
    pub status: CompressionStatus,
    pub original_bytes: u64,
    pub compressed_bytes: u64,
    pub error: Option<String>,
}

#[derive(Debug, PartialEq, Eq)]
pub struct CompressImagesResult {
    pub total: usize,
    pub succeeded: usize,
    pub skipped: usize,
    pub failed: usize,
    pub total_original_bytes: u64,
    pub total_compressed_bytes: u64,
    pub output_dir: String,
}

} // verus!
