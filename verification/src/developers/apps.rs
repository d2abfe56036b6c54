//! Apps.

use vstd::prelude::*;
use crate::client::{FilesClient, Method};
use crate::request::{ApiCall};

verus! {

#[derive(Debug, Clone)]
pub struct AppEntity {
    pub data: serde_json::Map<String, serde_json::Value>,
}

/// Handler for apps
pub struct AppHandler {
    client: FilesClient,
}

impl AppHandler {
    /// The client the handler sends its requests with.
    pub closed spec fn spec_client(&self) -> FilesClient {
        self.client
    }

    /// Creates a new handler
    pub fn new(client: FilesClient) -> (h: Self)
        ensures
            h.spec_client() == client,
    {
        Self { client }
    }

    /// The client the handler sends its requests with.
    pub fn client(&self) -> (c: &FilesClient)
        ensures
            *c == self.spec_client(),
    {
        &self.client
    }

    /// The request that lists apps.
    pub fn list_request() -> (c: ApiCall)
        ensures
            c.is_plain(Method::Get, "/apps"@),
    {
        ApiCall::plain(Method::Get, String::from("/apps"))
    }
}

} // verus!
