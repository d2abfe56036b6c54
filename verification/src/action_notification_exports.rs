//! Action notification exports.

use vstd::prelude::*;
use crate::client::{FilesClient, Method};
use crate::request::{ApiCall};
use crate::text::{i64_text, int_decimal};

verus! {

#[derive(Debug, Clone)]
pub struct ActionNotificationExportEntity {
    pub data: serde_json::Map<String, serde_json::Value>,
}

/// Handler for action notification exports
pub struct ActionNotificationExportHandler {
    client: FilesClient,
}

impl ActionNotificationExportHandler {
    /// The client the handler sends its requests with.
    pub closed spec fn spec_client(&self) -> FilesClient {
        self.client
    }

    /// Creates a new handler
    pub fn new(client: FilesClient) -> (h: Self)
        ensures
            h.spec_client() == client,
    {
        Self { client }
    }

    /// The client the handler sends its requests with.
    pub fn client(&self) -> (c: &FilesClient)
        ensures
            *c == self.spec_client(),
    {
        &self.client
    }

    /// The request that gets one action notification export.
    pub fn get_request(id: i64) -> (c: ApiCall)
        ensures
            c.is_plain(Method::Get, "/action_notification_exports/"@ + int_decimal(id as int)),
    {
        let mut endpoint = String::from("/action_notification_exports/");
        endpoint.append(i64_text(id).as_str());
        ApiCall::plain(Method::Get, endpoint)
    }

    /// The request that creates an action notification export.
    pub fn create_request(params: serde_json::Value) -> (c: ApiCall)
        ensures
            c.has_document(Method::Post, "/action_notification_exports"@, params),
    {
        ApiCall::with_document(Method::Post, String::from("/action_notification_exports"), params)
    }
}

} // verus!
