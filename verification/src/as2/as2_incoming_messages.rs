//! Incoming AS2 messages.

use vstd::prelude::*;
use crate::client::{FilesClient, Method};
use crate::request::{ApiCall};

verus! {

#[derive(Debug, Clone)]
pub struct As2IncomingMessageEntity {
    pub data: serde_json::Map<String, serde_json::Value>,
}

/// Handler for incoming AS2 messages
pub struct As2IncomingMessageHandler {
    client: FilesClient,
}

impl As2IncomingMessageHandler {
    /// The client the handler sends its requests with.
    pub closed spec fn spec_client(&self) -> FilesClient {
        self.client
    }

    /// Creates a new handler
    pub fn new(client: FilesClient) -> (h: Self)
        ensures
            h.spec_client() == client,
    {
        Self { client }
    }

    /// The client the handler sends its requests with.
    pub fn client(&self) -> (c: &FilesClient)
        ensures
            *c == self.spec_client(),
    {
        &self.client
    }

    /// The request that lists incoming AS2 messages.
    pub fn list_request() -> (c: ApiCall)
        ensures
            c.is_plain(Method::Get, "/as2_incoming_messages"@),
    {
        ApiCall::plain(Method::Get, String::from("/as2_incoming_messages"))
    }
}

} // verus!
