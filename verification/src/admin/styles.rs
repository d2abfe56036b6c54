//! Styles of folders.

use vstd::prelude::*;
use crate::client::{FilesClient, Method};
use crate::request::{ApiCall};

verus! {

#[derive(Debug, Clone)]
pub struct StyleEntity {
    pub data: serde_json::Map<String, serde_json::Value>,
}

/// Handler for styles
pub struct StyleHandler {
    client: FilesClient,
}

impl StyleHandler {
    /// The client the handler sends its requests with.
    pub closed spec fn spec_client(&self) -> FilesClient {
        self.client
    }

    /// Creates a new handler
    pub fn new(client: FilesClient) -> (h: Self)
        ensures
            h.spec_client() == client,
    {
        Self { client }
    }

    /// The client the handler sends its requests with.
    pub fn client(&self) -> (c: &FilesClient)
        ensures
            *c == self.spec_client(),
    {
        &self.client
    }

    /// The request that gets the style of a path.
    pub fn get_request(path: &str) -> (c: ApiCall)
        ensures
            c.is_plain(Method::Get, "/styles/"@ + path@),
    {
        let mut endpoint = String::from("/styles/");
        endpoint.append(path);
        ApiCall::plain(Method::Get, endpoint)
    }

    /// The request that updates the style of a path.
    pub fn update_request(path: &str, params: serde_json::Value) -> (c: ApiCall)
        ensures
            c.has_document(Method::Patch, "/styles/"@ + path@, params),
    {
        let mut endpoint = String::from("/styles/");
        endpoint.append(path);
        ApiCall::with_document(Method::Patch, endpoint, params)
    }

    /// The request that deletes the style of a path.
    pub fn delete_request(path: &str) -> (c: ApiCall)
        ensures
            c.is_plain(Method::Delete, "/styles/"@ + path@),
    {
        let mut endpoint = String::from("/styles/");
        endpoint.append(path);
        ApiCall::plain(Method::Delete, endpoint)
    }
}

} // verus!
