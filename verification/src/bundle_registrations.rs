//! Registrations of bundles.

use vstd::prelude::*;
use crate::client::{FilesClient, Method};
use crate::request::{ApiCall};

verus! {

#[derive(Debug, Clone)]
pub struct BundleRegistrationEntity {
    pub data: serde_json::Map<String, serde_json::Value>,
}

/// Handler for bundle registrations
pub struct BundleRegistrationHandler {
    client: FilesClient,
}

impl BundleRegistrationHandler {
    /// The client the handler sends its requests with.
    pub closed spec fn spec_client(&self) -> FilesClient {
        self.client
    }

    /// Creates a new handler
    pub fn new(client: FilesClient) -> (h: Self)
        ensures
            h.spec_client() == client,
    {
        Self { client }
    }

    /// The client the handler sends its requests with.
    pub fn client(&self) -> (c: &FilesClient)
        ensures
            *c == self.spec_client(),
    {
        &self.client
    }

    /// The request that lists bundle registrations.
    pub fn list_request() -> (c: ApiCall)
        ensures
            c.is_plain(Method::Get, "/bundle_registrations"@),
    {
        ApiCall::plain(Method::Get, String::from("/bundle_registrations"))
    }
}

} // verus!
