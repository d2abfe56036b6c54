//! Progress tracking for file operations
//!
//! - [`Progress`]: a snapshot of how far a transfer has come
//! - [`ProgressCallback`]: what receives progress updates

use vstd::prelude::*;

verus! {

/// Progress information for a file operation
#[derive(Debug, Clone, Copy)]
pub struct Progress {
    /// Bytes transferred so far
    pub bytes_transferred: u64,
    /// Total bytes to transfer (if known)
    pub total_bytes: Option<u64>,
}

impl Progress {
    /// Create a new Progress instance
    pub fn new(bytes_transferred: u64, total_bytes: Option<u64>) -> (p: Self)
        ensures
            p.bytes_transferred == bytes_transferred,
            p.total_bytes == total_bytes,
    {
        Self { bytes_transferred, total_bytes }
    }
}

/// Receives progress updates during file operations.
pub trait ProgressCallback: Send + Sync {
    /// Called when progress is made during a file operation
    fn on_progress(&self, progress: &Progress);
}

} // verus!
