//! File migrations.

use vstd::prelude::*;
use crate::client::{FilesClient, Method};
use crate::request::{ApiCall};
use crate::text::{i64_text, int_decimal};

verus! {

#[derive(Debug, Clone)]
pub struct FileMigrationEntity {
    pub data: serde_json::Map<String, serde_json::Value>,
}

/// Handler for file migrations
pub struct FileMigrationHandler {
    client: FilesClient,
}

impl FileMigrationHandler {
    /// The client the handler sends its requests with.
    pub closed spec fn spec_client(&self) -> FilesClient {
        self.client
    }

    /// Creates a new handler
    pub fn new(client: FilesClient) -> (h: Self)
        ensures
            h.spec_client() == client,
    {
        Self { client }
    }

    /// The client the handler sends its requests with.
    pub fn client(&self) -> (c: &FilesClient)
        ensures
            *c == self.spec_client(),
    {
        &self.client
    }

    /// The request that gets one file migration.
    pub fn get_request(id: i64) -> (c: ApiCall)
        ensures
            c.is_plain(Method::Get, "/file_migrations/"@ + int_decimal(id as int)),
    {
        let mut endpoint = String::from("/file_migrations/");
        endpoint.append(i64_text(id).as_str());
        ApiCall::plain(Method::Get, endpoint)
    }
}

} // verus!
