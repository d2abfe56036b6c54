//! File action operations
//!
//! Begin upload (the first stage of the upload process), copy, move and metadata.

use vstd::prelude::*;
use crate::client::{FilesClient, Method};
use crate::utils::{encode_path, encoded_path};
use crate::request::{opt_field, opt_int_field, ApiCall, FieldSpec, JsonBody, JsonField};

verus! {

/// Handler for file actions
pub struct FileActionHandler {
    client: FilesClient,
}

impl FileActionHandler {
    /// The client the handler sends its requests with.
    pub closed spec fn spec_client(&self) -> FilesClient {
        self.client
    }

    /// Creates a new handler
    pub fn new(client: FilesClient) -> (h: Self)
        ensures
            h.spec_client() == client,
    {
        Self { client }
    }

    /// The client the handler sends its requests with.
    pub fn client(&self) -> (c: &FilesClient)
        ensures
            *c == self.spec_client(),
    {
        &self.client
    }

    /// The request that begins an upload to `path` (the first stage of every
    /// upload); the path is percent-encoded in the URL.
    pub fn begin_upload_request(path: &str, size: Option<i64>, mkdir_parents: bool) -> (c: ApiCall)
        ensures
            c.has_fields(Method::Post, "/file_actions/begin_upload"@ + encoded_path(path),
                seq![("mkdir_parents"@, FieldSpec::Bool(mkdir_parents))]
                    + opt_field("size"@, opt_int_field(size))),
    {
        let mut json = JsonBody::new();
        json.set("mkdir_parents", JsonField::Bool(mkdir_parents));
        json.set_opt_int("size", size);
        let mut endpoint = String::from("/file_actions/begin_upload");
        endpoint.append(encode_path(path).as_str());
        proof {
            assert(json.spec_fields() =~= seq![("mkdir_parents"@, FieldSpec::Bool(mkdir_parents))]
                + opt_field("size"@, opt_int_field(size)));
        }
        ApiCall::with_fields(Method::Post, endpoint, json)
    }

    /// The request that begins an upload to `path` in `parts` parts.
    pub fn begin_multipart_upload_request(
        path: &str,
        size: i64,
        parts: i32,
        mkdir_parents: bool,
    ) -> (c: ApiCall)
        ensures
            c.has_fields(Method::Post, "/file_actions/begin_upload"@ + encoded_path(path),
                seq![("size"@, FieldSpec::Int(size as int))]
                    + seq![("parts"@, FieldSpec::Int(parts as int))]
                    + seq![("mkdir_parents"@, FieldSpec::Bool(mkdir_parents))]),
    {
        let mut json = JsonBody::new();
        json.set("size", JsonField::Int(size));
        json.set("parts", JsonField::Int(parts as i64));
        json.set("mkdir_parents", JsonField::Bool(mkdir_parents));
        let mut endpoint = String::from("/file_actions/begin_upload");
        endpoint.append(encode_path(path).as_str());
        proof {
            assert(json.spec_fields() =~= seq![("size"@, FieldSpec::Int(size as int))]
                + seq![("parts"@, FieldSpec::Int(parts as int))]
                + seq![("mkdir_parents"@, FieldSpec::Bool(mkdir_parents))]);
        }
        ApiCall::with_fields(Method::Post, endpoint, json)
    }

    /// The request that copies `path` to `destination`.
    pub fn copy_file_request(path: &str, destination: &str) -> (c: ApiCall)
        ensures
            c.has_fields(Method::Post, "/file_actions/copy"@ + encoded_path(path),
                seq![("destination"@, FieldSpec::Str(destination@))]),
    {
        let mut json = JsonBody::new();
        json.set("destination", JsonField::Str(String::from(destination)));
        let mut endpoint = String::from("/file_actions/copy");
        endpoint.append(encode_path(path).as_str());
        proof {
            assert(json.spec_fields() =~= seq![("destination"@, FieldSpec::Str(destination@))]);
        }
        ApiCall::with_fields(Method::Post, endpoint, json)
    }

    /// The request that moves `path` to `destination`.
    pub fn move_file_request(path: &str, destination: &str) -> (c: ApiCall)
        ensures
            c.has_fields(Method::Post, "/file_actions/move"@ + encoded_path(path),
                seq![("destination"@, FieldSpec::Str(destination@))]),
    {
        let mut json = JsonBody::new();
        json.set("destination", JsonField::Str(String::from(destination)));
        let mut endpoint = String::from("/file_actions/move");
        endpoint.append(encode_path(path).as_str());
        proof {
            assert(json.spec_fields() =~= seq![("destination"@, FieldSpec::Str(destination@))]);
        }
        ApiCall::with_fields(Method::Post, endpoint, json)
    }

    /// The request that gets the metadata of `path`.
    pub fn get_metadata_request(path: &str) -> (c: ApiCall)
        ensures
            c.has_fields(Method::Post, "/file_actions/metadata"@ + encoded_path(path),
                Seq::<(Seq<char>, FieldSpec)>::empty()),
    {
        let mut json = JsonBody::new();
        let mut endpoint = String::from("/file_actions/metadata");
        endpoint.append(encode_path(path).as_str());
        ApiCall::with_fields(Method::Post, endpoint, json)
    }
}

} // verus!
