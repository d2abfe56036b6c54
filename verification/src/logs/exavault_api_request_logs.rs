//! ExaVault API request logs.

use vstd::prelude::*;
use crate::client::{FilesClient, Method};
use crate::request::{ApiCall};

verus! {

#[derive(Debug, Clone)]
pub struct ExavaultApiRequestLogEntity {
    pub data: serde_json::Map<String, serde_json::Value>,
}

/// Handler for ExaVault API request logs
pub struct ExavaultApiRequestLogHandler {
    client: FilesClient,
}

impl ExavaultApiRequestLogHandler {
    /// The client the handler sends its requests with.
    pub closed spec fn spec_client(&self) -> FilesClient {
        self.client
    }

    /// Creates a new handler
    pub fn new(client: FilesClient) -> (h: Self)
        ensures
            h.spec_client() == client,
    {
        Self { client }
    }

    /// The client the handler sends its requests with.
    pub fn client(&self) -> (c: &FilesClient)
        ensures
            *c == self.spec_client(),
    {
        &self.client
    }

    /// The request that lists ExaVault API request logs.
    pub fn list_request() -> (c: ApiCall)
        ensures
            c.is_plain(Method::Get, "/exavault_api_request_logs"@),
    {
        ApiCall::plain(Method::Get, String::from("/exavault_api_request_logs"))
    }
}

} // verus!
