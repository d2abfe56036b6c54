//! The API key in use.

use vstd::prelude::*;
use crate::client::{FilesClient, Method};
use crate::request::{ApiCall};

verus! {

#[derive(Debug, Clone)]
pub struct ApiKeyCurrentEntity {
    pub data: serde_json::Map<String, serde_json::Value>,
}

/// Handler for the current API key
pub struct ApiKeyCurrentHandler {
    client: FilesClient,
}

impl ApiKeyCurrentHandler {
    /// The client the handler sends its requests with.
    pub closed spec fn spec_client(&self) -> FilesClient {
        self.client
    }

    /// Creates a new handler
    pub fn new(client: FilesClient) -> (h: Self)
        ensures
            h.spec_client() == client,
    {
        Self { client }
    }

    /// The client the handler sends its requests with.
    pub fn client(&self) -> (c: &FilesClient)
        ensures
            *c == self.spec_client(),
    {
        &self.client
    }

    /// The request that gets the current API key.
    pub fn get_current_request() -> (c: ApiCall)
        ensures
            c.is_plain(Method::Get, "/api_key"@),
    {
        ApiCall::plain(Method::Get, String::from("/api_key"))
    }

    /// The request that updates the current API key.
    pub fn update_request(params: serde_json::Value) -> (c: ApiCall)
        ensures
            c.has_document(Method::Patch, "/api_key"@, params),
    {
        ApiCall::with_document(Method::Patch, String::from("/api_key"), params)
    }

    /// The request that deletes the current API key.
    pub fn delete_request() -> (c: ApiCall)
        ensures
            c.is_plain(Method::Delete, "/api_key"@),
    {
        ApiCall::plain(Method::Delete, String::from("/api_key"))
    }
}

} // verus!
