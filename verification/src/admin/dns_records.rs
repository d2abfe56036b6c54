//! DNS records of the site.

use vstd::prelude::*;
use crate::client::{FilesClient, Method};
use crate::request::{ApiCall};

verus! {

#[derive(Debug, Clone)]
pub struct DnsRecordEntity {
    pub data: serde_json::Map<String, serde_json::Value>,
}

/// Handler for DNS records
pub struct DnsRecordHandler {
    client: FilesClient,
}

impl DnsRecordHandler {
    /// The client the handler sends its requests with.
    pub closed spec fn spec_client(&self) -> FilesClient {
        self.client
    }

    /// Creates a new handler
    pub fn new(client: FilesClient) -> (h: Self)
        ensures
            h.spec_client() == client,
    {
        Self { client }
    }

    /// The client the handler sends its requests with.
    pub fn client(&self) -> (c: &FilesClient)
        ensures
            *c == self.spec_client(),
    {
        &self.client
    }

    /// The request that lists DNS records.
    pub fn list_request() -> (c: ApiCall)
        ensures
            c.is_plain(Method::Get, "/dns_records"@),
    {
        ApiCall::plain(Method::Get, String::from("/dns_records"))
    }
}

} // verus!
