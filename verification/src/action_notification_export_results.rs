//! Results of action notification exports.

use vstd::prelude::*;
use crate::client::{FilesClient, Method};
use crate::request::{ApiCall};
use crate::text::{i64_text, int_decimal};

verus! {

#[derive(Debug, Clone)]
pub struct ActionNotificationExportResultEntity {
    pub data: serde_json::Map<String, serde_json::Value>,
}

/// Handler for action notification export results
pub struct ActionNotificationExportResultHandler {
    client: FilesClient,
}

impl ActionNotificationExportResultHandler {
    /// The client the handler sends its requests with.
    pub closed spec fn spec_client(&self) -> FilesClient {
        self.client
    }

    /// Creates a new handler
    pub fn new(client: FilesClient) -> (h: Self)
        ensures
            h.spec_client() == client,
    {
        Self { client }
    }

    /// The client the handler sends its requests with.
    pub fn client(&self) -> (c: &FilesClient)
        ensures
            *c == self.spec_client(),
    {
        &self.client
    }

    /// The request that gets one action notification export result.
    pub fn get_request(id: i64) -> (c: ApiCall)
        ensures
            c.is_plain(Method::Get, "/action_notification_export_results/"@ + int_decimal(id as int)),
    {
        let mut endpoint = String::from("/action_notification_export_results/");
        endpoint.append(i64_text(id).as_str());
        ApiCall::plain(Method::Get, endpoint)
    }
}

} // verus!
