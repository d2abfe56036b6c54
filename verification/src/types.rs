//! Entities shared by the file and folder operations, and pagination.

use vstd::prelude::*;
use std::collections::HashMap;
use crate::external::{header_text, header_value_text};

verus! {

/// A file or folder as the API describes it.
#[derive(Debug, Clone, Default)]
pub struct FileEntity {
    /// Full path of the file or folder
    pub path: Option<String>,
    /// Name shown for the entry
    pub display_name: Option<String>,
    /// `file` or `directory` (`type` on the wire)
    pub file_type: Option<String>,
    /// Size in bytes
    pub size: Option<i64>,
    /// Creation time
    pub created_at: Option<String>,
    /// Modification time
    pub mtime: Option<String>,
    /// Modification time given by the uploader
    pub provided_mtime: Option<String>,
    /// CRC32 checksum
    pub crc32: Option<String>,
    /// MD5 checksum
    pub md5: Option<String>,
    /// MIME type
    pub mime_type: Option<String>,
    /// Storage region
    pub region: Option<String>,
    /// Permissions of the current user on the entry
    pub permissions: Option<String>,
    /// Whether subfolders are locked
    pub subfolders_locked: Option<bool>,
    /// Whether the entry is locked
    pub is_locked: Option<bool>,
    /// URL the content can be downloaded from
    pub download_uri: Option<String>,
    /// Priority color
    pub priority_color: Option<String>,
}

/// A folder as the API describes it.
#[derive(Debug, Clone)]
pub struct FolderEntity {
    /// Full path of the folder
    pub path: Option<String>,
    /// Name shown for the folder
    pub display_name: Option<String>,
    /// `directory` (`type` on the wire)
    pub file_type: Option<String>,
    /// Creation time
    pub created_at: Option<String>,
    /// Modification time
    pub mtime: Option<String>,
    /// Permissions of the current user on the folder
    pub permissions: Option<String>,
    /// Whether subfolders are locked
    pub subfolders_locked: Option<bool>,
    /// Priority color
    pub priority_color: Option<String>,
}

/// One part of an upload, as returned when an upload begins.
#[derive(Debug, Clone, Default)]
pub struct FileUploadPartEntity {
    /// The action of the upload (`put` or `multipart`)
    pub action: Option<String>,
    /// Whether the client should ask before overwriting
    pub ask_about_overwrites: Option<bool>,
    /// Number of parts available
    pub available_parts: Option<i64>,
    /// When the upload URL expires
    pub expires: Option<String>,
    /// Headers to send with the transfer
    pub headers: Option<HashMap<String, String>>,
    /// HTTP method of the transfer
    pub http_method: Option<String>,
    /// Size of the next part
    pub next_partsize: Option<i64>,
    /// Whether parts may be sent in parallel
    pub parallel_parts: Option<bool>,
    /// Whether parts may be retried
    pub retry_parts: Option<bool>,
    /// Number of this part
    pub part_number: Option<i64>,
    /// Size of this part
    pub partsize: Option<i64>,
    /// Destination path
    pub path: Option<String>,
    /// Reference that identifies the upload when it is finished (`ref` on the wire)
    pub ref_: Option<String>,
    /// URL the data is sent to
    pub upload_uri: Option<String>,
}

/// Name of the response header that carries the cursor of the next page.
pub const CURSOR_NEXT_HEADER: &'static str = "X-Files-Cursor-Next";

/// Name of the response header that carries the cursor of the previous page.
pub const CURSOR_PREV_HEADER: &'static str = "X-Files-Cursor-Prev";

/// Cursors of the neighbouring pages of a listing.
#[derive(Debug, Clone)]
pub struct PaginationInfo {
    /// Cursor of the next page, if there is one
    pub cursor_next: Option<String>,
    /// Cursor of the previous page, if there is one
    pub cursor_prev: Option<String>,
}

impl PaginationInfo {
    /// The pagination of a response whose cursor headers held `next` and `prev`
    /// (each absent when the header is missing or not text).
    pub fn from_header_values(next: Option<&str>, prev: Option<&str>) -> (p: Self)
        ensures
            p.cursor_next is Some <==> next is Some,
            next matches Some(n) ==> p.cursor_next.unwrap()@ == n@,
            p.cursor_prev is Some <==> prev is Some,
            prev matches Some(v) ==> p.cursor_prev.unwrap()@ == v@,
    {
        let cursor_next = match next {
            Some(n) => Some(String::from_str(n)),
            None => None,
        };
        let cursor_prev = match prev {
            Some(v) => Some(String::from_str(v)),
            None => None,
        };
        PaginationInfo { cursor_next, cursor_prev }
    }

    /// The pagination of a response with `headers`: the cursors of the
    /// `CURSOR_NEXT_HEADER` and `CURSOR_PREV_HEADER` headers.
    pub fn from_headers(headers: &http::HeaderMap) -> (p: Self)
        ensures
            header_text(*headers, CURSOR_NEXT_HEADER@) == match p.cursor_next {
                Some(c) => Some(c@),
                None => None::<Seq<char>>,
            },
            header_text(*headers, CURSOR_PREV_HEADER@) == match p.cursor_prev {
                Some(c) => Some(c@),
                None => None::<Seq<char>>,
            },
    {
        let cursor_next = header_value_text(headers, CURSOR_NEXT_HEADER);
        let cursor_prev = header_value_text(headers, CURSOR_PREV_HEADER);
        PaginationInfo { cursor_next, cursor_prev }
    }

    /// Whether there is a next page.
    pub fn has_next(&self) -> (b: bool)
        ensures
            b <==> self.cursor_next is Some,
    {
        self.cursor_next.is_some()
    }
}

} // verus!
