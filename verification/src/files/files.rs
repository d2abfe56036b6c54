//! File operations
//!
//! Download, upload, update and delete files. Uploads take three stages: the
//! upload is begun (see `FileActionHandler::begin_upload_request`), the data is
//! sent to the URL that the first part names, and the upload is finished with a
//! form posted to the file's path.

use vstd::prelude::*;
use std::collections::HashMap;
use crate::client::{pairs_view, FilesClient, Method};
use crate::error::FilesError;
use crate::external::{to_upper, upper_text};
use crate::request::{
    opt_field, opt_str_map_field, opt_string_field, ApiCall, JsonBody, ParamsView,
};
use crate::text::{chars_of, concat, string_from_chars, text_eq};
use crate::types::{FileEntity, FileUploadPartEntity};
use crate::utils::{encode_path, encoded_path};

verus! {

/// The HTTP method with which upload data is sent.
#[derive(Debug, Clone, Copy, PartialEq, Eq, Structural)]
pub enum TransferMethod {
    Put,
    Post,
}

/// Where and how the data of an upload is sent.
#[derive(Debug, Clone)]
pub struct UploadTransfer {
    /// The HTTP method of the transfer
    pub method: TransferMethod,
    /// The URL the data is sent to
    pub uri: String,
}

/// What remains to be done once an upload has begun: the transfer of the data,
/// when the part names a URL, and the request that finishes the upload.
#[derive(Debug)]
pub struct UploadPlan {
    /// The transfer of the data, if the first part names a URL
    pub transfer: Option<UploadTransfer>,
    /// The request that finishes the upload
    pub finish: ApiCall,
}

/// The transfer method for an upper-cased method name: `POST` stays a POST,
/// every other name is sent as a PUT.
pub open spec fn transfer_method_of_upper(upper: Seq<char>) -> TransferMethod {
    if upper == "POST"@ {
        TransferMethod::Post
    } else {
        TransferMethod::Put
    }
}

/// The transfer method for the method a part names (`PUT` when it names none),
/// compared without regard to case.
pub open spec fn transfer_method_for(http_method: Option<String>) -> TransferMethod {
    match http_method {
        Some(m) => transfer_method_of_upper(upper_text(m@)),
        None => TransferMethod::Put,
    }
}

/// `t` is the transfer that `part` asks for: none when it names no URL,
/// otherwise to its URL with the method it names.
pub open spec fn is_transfer_of(t: Option<UploadTransfer>, part: FileUploadPartEntity) -> bool {
    match part.upload_uri {
        None => t is None,
        Some(u) => t matches Some(x) && x.uri@ == u@ && x.method == transfer_method_for(part.http_method),
    }
}

/// The form that finishes an upload: `action=end`, then the reference of the
/// upload when the part carries one.
pub open spec fn finish_form(ref_: Option<String>) -> ParamsView {
    seq![("action"@, "end"@)] + match ref_ {
        Some(r) => seq![("ref"@, r@)],
        None => Seq::empty(),
    }
}

/// The API path of the file at `path`.
pub open spec fn file_endpoint(path: &str) -> Seq<char> {
    "/files"@ + encoded_path(path)
}

/// `s` without the `/` characters at its end.
pub open spec fn trim_trailing_slashes(s: Seq<char>) -> Seq<char>
    decreases s.len(),
{
    if s.len() > 0 && s.last() == '/' {
        trim_trailing_slashes(s.drop_last())
    } else {
        s
    }
}

/// `s` with every `\` turned into `/`.
pub open spec fn forward_slashes(s: Seq<char>) -> Seq<char> {
    s.map_values(|c: char| if c == '\\' { '/' } else { c })
}

/// The remote path of a file found at `relative` below a local directory that
/// is uploaded to `remote`.
pub open spec fn remote_file(remote: Seq<char>, relative: Seq<char>) -> Seq<char> {
    trim_trailing_slashes(remote) + "/"@ + forward_slashes(relative)
}

/// The transfer method for an upper-cased method name.
pub fn transfer_method_from_upper(upper: &str) -> (t: TransferMethod)
    ensures
        t == transfer_method_of_upper(upper@),
{
    if text_eq(upper, "POST") {
        TransferMethod::Post
    } else {
        TransferMethod::Put
    }
}

/// The transfer method for the method a part names.
pub fn transfer_method(http_method: &Option<String>) -> (t: TransferMethod)
    ensures
        t == transfer_method_for(*http_method),
{
    match http_method {
        Some(m) => {
            let upper = to_upper(m.as_str());
            transfer_method_from_upper(upper.as_str())
        },
        None => TransferMethod::Put,
    }
}

/// The transfer that an upload part asks for.
pub fn transfer_of(part: &FileUploadPartEntity) -> (t: Option<UploadTransfer>)
    ensures
        is_transfer_of(t, *part),
{
    match &part.upload_uri {
        Some(u) => Some(UploadTransfer { method: transfer_method(&part.http_method), uri: u.clone() }),
        None => None,
    }
}

/// The transfer of a directory upload for the parts of one file: that of the
/// first part, none when there are no parts.
pub fn directory_transfer(parts: &Vec<FileUploadPartEntity>) -> (t: Option<UploadTransfer>)
    ensures
        parts.len() == 0 ==> t is None,
        parts.len() > 0 ==> is_transfer_of(t, parts@[0]),
{
    if parts.len() == 0 {
        None
    } else {
        transfer_of(&parts[0])
    }
}

/// Drops the `/` characters at the end of `s`.
fn trim_slashes(s: &str) -> (r: String)
    ensures
        r@ == trim_trailing_slashes(s@),
{
    let mut cs = chars_of(s);
    while cs.len() > 0 && cs[cs.len() - 1] == '/'
        invariant
            trim_trailing_slashes(cs@) == trim_trailing_slashes(s@),
        decreases cs.len(),
    {
        let ghost before = cs@;
        cs.pop();
        proof {
            assert(cs@ =~= before.drop_last());
        }
    }
    string_from_chars(&cs)
}

/// Turns every `\` of `s` into `/`.
fn slashes_forward(s: &str) -> (r: String)
    ensures
        r@ == forward_slashes(s@),
{
    let cs = chars_of(s);
    let mut out: Vec<char> = Vec::new();
    let mut i: usize = 0;
    while i < cs.len()
        invariant
            cs@ == s@,
            0 <= i <= cs.len(),
            out@ == forward_slashes(cs@.take(i as int)),
        decreases cs.len() - i,
    {
        let c = cs[i];
        out.push(if c == '\\' { '/' } else { c });
        proof {
            assert(forward_slashes(cs@.take(i + 1)) =~= forward_slashes(cs@.take(i as int)).push(
                if c == '\\' { '/' } else { c },
            ));
        }
        i = i + 1;
    }
    proof {
        assert(cs@.take(cs.len() as int) =~= cs@);
    }
    string_from_chars(&out)
}

/// The remote path of a file found at `relative` below a local directory that
/// is uploaded to `remote_path`: the remote path without trailing slashes, a
/// slash, and the relative path with forward slashes.
pub fn remote_file_path(remote_path: &str, relative: &str) -> (r: String)
    ensures
        r@ == remote_file(remote_path@, relative@),
{
    let mut out = trim_slashes(remote_path);
    out.append("/");
    let rel = slashes_forward(relative);
    out.append(rel.as_str());
    out
}

/// The error of an upload that began without parts.
pub open spec fn is_no_parts_error(e: FilesError) -> bool {
    e matches FilesError::ApiError { code, message, endpoint: None }
        && code == 500 && message@ == "No upload parts returned from begin_upload"@
}

/// Handler for file operations
pub struct FileHandler {
    client: FilesClient,
}

impl FileHandler {
    /// The client the handler sends its requests with.
    pub closed spec fn spec_client(&self) -> FilesClient {
        self.client
    }

    /// Creates a new handler
    pub fn new(client: FilesClient) -> (h: Self)
        ensures
            h.spec_client() == client,
    {
        Self { client }
    }

    /// The client the handler sends its requests with.
    pub fn client(&self) -> (c: &FilesClient)
        ensures
            *c == self.spec_client(),
    {
        &self.client
    }

    /// The path of the file at `path` below the API root.
    pub fn file_path(path: &str) -> (p: String)
        ensures
            p@ == file_endpoint(path),
    {
        let enc = encode_path(path);
        concat("/files", enc.as_str())
    }

    /// The request that gets the metadata of a file, with its download URL.
    pub fn download_file_request(path: &str) -> (c: ApiCall)
        ensures
            c.is_plain(Method::Get, file_endpoint(path)),
    {
        ApiCall::plain(Method::Get, Self::file_path(path))
    }

    /// The URL to download the file described by `file` from; a not-found error
    /// for the file at `path` when the description names none.
    pub fn download_uri(file: &FileEntity, path: &str) -> (r: Result<String, FilesError>)
        ensures
            file.download_uri matches Some(u) ==> (r matches Ok(x) && x@ == u@),
            file.download_uri is None ==> (r matches Err(FilesError::NotFound {
                message,
                resource_type: Some(t),
                path: Some(p),
            }) && message@ == "No download URI available"@ && t@ == "file"@ && p@ == path@),
    {
        match &file.download_uri {
            Some(u) => Ok(u.clone()),
            None => Err(
                FilesError::NotFound {
                    message: String::from_str("No download URI available"),
                    resource_type: Some(String::from_str("file")),
                    path: Some(String::from_str(path)),
                },
            ),
        }
    }

    /// The request that finishes an upload to `path` whose first part is `part`.
    pub fn finish_upload_request(path: &str, part: &FileUploadPartEntity) -> (c: ApiCall)
        ensures
            c.has_form(Method::Post, file_endpoint(path), finish_form(part.ref_)),
    {
        let mut form: Vec<(String, String)> = Vec::new();
        form.push((String::from_str("action"), String::from_str("end")));
        match &part.ref_ {
            Some(r) => form.push((String::from_str("ref"), r.clone())),
            None => {},
        }
        proof {
            assert(pairs_view(form@) =~= finish_form(part.ref_));
        }
        ApiCall::with_form(Method::Post, Self::file_path(path), form)
    }

    /// What remains of an upload to `path` once it has begun with `parts`: the
    /// transfer and finishing request of the first part; an API error (500)
    /// when no part came back.
    pub fn plan_upload(path: &str, parts: &Vec<FileUploadPartEntity>) -> (r: Result<UploadPlan, FilesError>)
        ensures
            parts.len() == 0 ==> (r matches Err(e) && is_no_parts_error(e)),
            parts.len() > 0 ==> (r matches Ok(plan) && is_transfer_of(plan.transfer, parts@[0])
                && plan.finish.has_form(Method::Post, file_endpoint(path), finish_form(parts@[0].ref_))),
    {
        if parts.len() == 0 {
            return Err(
                FilesError::ApiError {
                    code: 500,
                    message: String::from_str("No upload parts returned from begin_upload"),
                    endpoint: None,
                },
            );
        }
        let part = &parts[0];
        Ok(UploadPlan { transfer: transfer_of(part), finish: Self::finish_upload_request(path, part) })
    }

    /// The request that updates the metadata of a file; only the given fields change.
    pub fn update_file_request(
        path: &str,
        custom_metadata: Option<HashMap<String, String>>,
        provided_mtime: Option<String>,
        priority_color: Option<String>,
    ) -> (c: ApiCall)
        ensures
            c.has_fields(Method::Patch, file_endpoint(path),
                opt_field("custom_metadata"@, opt_str_map_field(custom_metadata))
                    + opt_field("provided_mtime"@, opt_string_field(provided_mtime))
                    + opt_field("priority_color"@, opt_string_field(priority_color))),
    {
        let mut json = JsonBody::new();
        json.set_opt_str_map("custom_metadata", custom_metadata);
        json.set_opt_string("provided_mtime", provided_mtime);
        json.set_opt_string("priority_color", priority_color);
        ApiCall::with_fields(Method::Patch, Self::file_path(path), json)
    }

    /// The request that deletes a file (its contents too when `recursive`).
    pub fn delete_file_request(path: &str, recursive: bool) -> (c: ApiCall)
        ensures
            c.is_plain(Method::Delete,
                file_endpoint(path) + if recursive { "?recursive=true"@ } else { Seq::empty() }),
    {
        let mut endpoint = Self::file_path(path);
        if recursive {
            endpoint.append("?recursive=true");
        }
        proof {
            if !recursive {
                assert(endpoint@ =~= file_endpoint(path) + Seq::<char>::empty());
            }
        }
        ApiCall::plain(Method::Delete, endpoint)
    }
}

/// Where an entry found while walking a local directory lies, relative to it.
#[derive(Debug, Clone)]
pub enum EntryPath {
    /// The path below the directory, as text
    Relative(String),
    /// The entry is not below the directory; the text of the error that said so
    NotBelow(String),
    /// The path below the directory is not UTF-8; the entry's path as displayed
    NotUtf8(String),
}

/// The steps of uploading a local directory to `remote_path`: each file found
/// is uploaded to its remote path, other entries are skipped, and after each
/// file the count of uploaded files and the total are reported.
pub struct DirectoryUpload {
    remote_path: String,
    total: usize,
    uploaded: Vec<String>,
}

/// The error of an entry whose relative path cannot be had.
pub open spec fn is_entry_error(e: FilesError, entry: EntryPath) -> bool {
    match entry {
        EntryPath::Relative(_) => false,
        EntryPath::NotBelow(t) => e matches FilesError::IoError(m) && m@ == "Failed to strip prefix: "@ + t@,
        EntryPath::NotUtf8(d) => e matches FilesError::IoError(m) && m@ == "Invalid UTF-8 in path: "@ + d@,
    }
}

impl DirectoryUpload {
    /// The remote directory the files go to.
    pub closed spec fn spec_remote_path(&self) -> Seq<char> {
        self.remote_path@
    }

    /// The number of files the directory holds.
    pub closed spec fn spec_total(&self) -> usize {
        self.total
    }

    /// The remote paths of the files uploaded so far, in order.
    pub closed spec fn spec_uploaded(&self) -> Seq<Seq<char>> {
        self.uploaded@.map_values(|p: String| p@)
    }

    /// An upload of a directory holding `total` files to `remote_path`, before
    /// its first file.
    pub fn new(remote_path: &str, total: usize) -> (d: Self)
        ensures
            d.spec_remote_path() == remote_path@,
            d.spec_total() == total,
            d.spec_uploaded() == Seq::<Seq<char>>::empty(),
    {
        let d = DirectoryUpload { remote_path: String::from_str(remote_path), total, uploaded: Vec::new() };
        proof {
            assert(d.spec_uploaded() =~= Seq::<Seq<char>>::empty());
        }
        d
    }

    /// What to do with an entry of the directory: nothing when it is not a
    /// file; upload it to the remote path of its relative path when it is; an
    /// I/O error when its relative path cannot be had.
    pub fn plan_entry(&self, is_file: bool, entry: EntryPath) -> (r: Result<Option<String>, FilesError>)
        ensures
            !is_file ==> r matches Ok(None),
            is_file ==> match entry {
                EntryPath::Relative(rel) => r matches Ok(Some(p))
                    && p@ == remote_file(self.spec_remote_path(), rel@),
                _ => r matches Err(e) && is_entry_error(e, entry),
            },
    {
        if !is_file {
            return Ok(None);
        }
        match entry {
            EntryPath::Relative(rel) => Ok(Some(remote_file_path(self.remote_path.as_str(), rel.as_str()))),
            EntryPath::NotBelow(t) => Err(FilesError::IoError(concat("Failed to strip prefix: ", t.as_str()))),
            EntryPath::NotUtf8(d) => Err(FilesError::IoError(concat("Invalid UTF-8 in path: ", d.as_str()))),
        }
    }

    /// The number of files uploaded so far.
    pub fn count(&self) -> (n: usize)
        ensures
            n == self.spec_uploaded().len(),
    {
        self.uploaded.len()
    }

    /// Records the upload of a file to `remote_file` and gives the progress to
    /// report: the number of files uploaded so far and the total.
    pub fn record(&mut self, remote_file: String) -> (progress: (usize, usize))
        requires
            old(self).spec_uploaded().len() < usize::MAX,
        ensures
            final(self).spec_remote_path() == old(self).spec_remote_path(),
            final(self).spec_total() == old(self).spec_total(),
            final(self).spec_uploaded() == old(self).spec_uploaded().push(remote_file@),
            progress == (final(self).spec_uploaded().len() as usize, old(self).spec_total()),
    {
        let ghost before = self.uploaded@;
        self.uploaded.push(remote_file);
        proof {
            assert(self.uploaded@.map_values(|p: String| p@) =~= before.map_values(|p: String| p@).push(
                remote_file@,
            ));
        }
        (self.uploaded.len(), self.total)
    }

    /// The remote paths of the uploaded files, in order.
    pub fn finish(self) -> (paths: Vec<String>)
        ensures
            paths@.map_values(|p: String| p@) == self.spec_uploaded(),
    {
        self.uploaded
    }
}

} // verus!
