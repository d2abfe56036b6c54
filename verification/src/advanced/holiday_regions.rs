//! Holiday regions.

use vstd::prelude::*;
use crate::client::{FilesClient, Method};
use crate::request::{ApiCall};

verus! {

#[derive(Debug, Clone)]
pub struct HolidayRegionEntity {
    pub data: serde_json::Map<String, serde_json::Value>,
}

/// Handler for holiday regions
pub struct HolidayRegionHandler {
    client: FilesClient,
}

impl HolidayRegionHandler {
    /// The client the handler sends its requests with.
    pub closed spec fn spec_client(&self) -> FilesClient {
        self.client
    }

    /// Creates a new handler
    pub fn new(client: FilesClient) -> (h: Self)
        ensures
            h.spec_client() == client,
    {
        Self { client }
    }

    /// The client the handler sends its requests with.
    pub fn client(&self) -> (c: &FilesClient)
        ensures
            *c == self.spec_client(),
    {
        &self.client
    }

    /// The request that lists holiday regions.
    pub fn list_request() -> (c: ApiCall)
        ensures
            c.is_plain(Method::Get, "/holiday_regions"@),
    {
        ApiCall::plain(Method::Get, String::from("/holiday_regions"))
    }
}

} // verus!
