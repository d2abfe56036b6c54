//! SFTP host key management.

use vstd::prelude::*;
use crate::client::{pairs_view, FilesClient, Method};
use crate::request::{
    opt_int_view, opt_param, opt_string_view, push_opt_int, push_opt_string,
    query_string, query_suffix, ApiCall,
};
use crate::text::{i64_text, int_decimal};

verus! {

#[derive(Debug, Clone)]
pub struct SftpHostKeyEntity {
    pub id: Option<i64>,
    pub data: serde_json::Map<String, serde_json::Value>,
}

/// Handler for SFTP host keys
pub struct SftpHostKeyHandler {
    client: FilesClient,
}

impl SftpHostKeyHandler {
    /// The client the handler sends its requests with.
    pub closed spec fn spec_client(&self) -> FilesClient {
        self.client
    }

    /// Creates a new handler
    pub fn new(client: FilesClient) -> (h: Self)
        ensures
            h.spec_client() == client,
    {
        Self { client }
    }

    /// The client the handler sends its requests with.
    pub fn client(&self) -> (c: &FilesClient)
        ensures
            *c == self.spec_client(),
    {
        &self.client
    }

    /// The request that lists SFTP host keys (answered with cursor headers).
    pub fn list_request(cursor: Option<String>, per_page: Option<i64>) -> (c: ApiCall)
        ensures
            c.is_plain(Method::Get, "/sftp_host_keys"@ + query_suffix(
                opt_param("cursor"@, opt_string_view(cursor))
                    + opt_param("per_page"@, opt_int_view(per_page)),
            )),
    {
        let mut params: Vec<(String, String)> = Vec::new();
        push_opt_string(&mut params, "cursor", cursor);
        push_opt_int(&mut params, "per_page", per_page);
        let mut endpoint = String::from("/sftp_host_keys");
        endpoint.append(query_string(&params).as_str());
        proof {
            assert(pairs_view(params@) =~= opt_param("cursor"@, opt_string_view(cursor))
                + opt_param("per_page"@, opt_int_view(per_page)));
        }
        ApiCall::plain(Method::Get, endpoint)
    }

    /// The request that gets one SFTP host key.
    pub fn get_request(id: i64) -> (c: ApiCall)
        ensures
            c.is_plain(Method::Get, "/sftp_host_keys/"@ + int_decimal(id as int)),
    {
        let mut endpoint = String::from("/sftp_host_keys/");
        endpoint.append(i64_text(id).as_str());
        ApiCall::plain(Method::Get, endpoint)
    }

    /// The request that creates an SFTP host key.
    pub fn create_request(params: serde_json::Value) -> (c: ApiCall)
        ensures
            c.has_document(Method::Post, "/sftp_host_keys"@, params),
    {
        ApiCall::with_document(Method::Post, String::from("/sftp_host_keys"), params)
    }

    /// The request that updates an SFTP host key.
    pub fn update_request(id: i64, params: serde_json::Value) -> (c: ApiCall)
        ensures
            c.has_document(Method::Patch, "/sftp_host_keys/"@ + int_decimal(id as int), params),
    {
        let mut endpoint = String::from("/sftp_host_keys/");
        endpoint.append(i64_text(id).as_str());
        ApiCall::with_document(Method::Patch, endpoint, params)
    }

    /// The request that deletes an SFTP host key.
    pub fn delete_request(id: i64) -> (c: ApiCall)
        ensures
            c.is_plain(Method::Delete, "/sftp_host_keys/"@ + int_decimal(id as int)),
    {
        let mut endpoint = String::from("/sftp_host_keys/");
        endpoint.append(i64_text(id).as_str());
        ApiCall::plain(Method::Delete, endpoint)
    }
}

} // verus!
