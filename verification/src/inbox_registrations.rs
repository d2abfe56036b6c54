//! Inbox registrations.

use vstd::prelude::*;
use crate::client::{FilesClient, Method};
use crate::request::{ApiCall};

verus! {

#[derive(Debug, Clone)]
pub struct InboxRegistrationEntity2 {
    pub data: serde_json::Map<String, serde_json::Value>,
}

/// Handler for inbox registrations
pub struct InboxRegistrationHandler2 {
    client: FilesClient,
}

impl InboxRegistrationHandler2 {
    /// The client the handler sends its requests with.
    pub closed spec fn spec_client(&self) -> FilesClient {
        self.client
    }

    /// Creates a new handler
    pub fn new(client: FilesClient) -> (h: Self)
        ensures
            h.spec_client() == client,
    {
        Self { client }
    }

    /// The client the handler sends its requests with.
    pub fn client(&self) -> (c: &FilesClient)
        ensures
            *c == self.spec_client(),
    {
        &self.client
    }

    /// The request that lists inbox registrations.
    pub fn list_request() -> (c: ApiCall)
        ensures
            c.is_plain(Method::Get, "/inbox_registrations"@),
    {
        ApiCall::plain(Method::Get, String::from("/inbox_registrations"))
    }
}

} // verus!
