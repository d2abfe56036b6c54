//! Remote bandwidth snapshots.

use vstd::prelude::*;
use crate::client::{FilesClient, Method};
use crate::request::{ApiCall};

verus! {

#[derive(Debug, Clone)]
pub struct RemoteBandwidthSnapshotEntity {
    pub data: serde_json::Map<String, serde_json::Value>,
}

/// Handler for remote bandwidth snapshots
pub struct RemoteBandwidthSnapshotHandler {
    client: FilesClient,
}

impl RemoteBandwidthSnapshotHandler {
    /// The client the handler sends its requests with.
    pub closed spec fn spec_client(&self) -> FilesClient {
        self.client
    }

    /// Creates a new handler
    pub fn new(client: FilesClient) -> (h: Self)
        ensures
            h.spec_client() == client,
    {
        Self { client }
    }

    /// The client the handler sends its requests with.
    pub fn client(&self) -> (c: &FilesClient)
        ensures
            *c == self.spec_client(),
    {
        &self.client
    }

    /// The request that lists remote bandwidth snapshots.
    pub fn list_request() -> (c: ApiCall)
        ensures
            c.is_plain(Method::Get, "/remote_bandwidth_snapshots"@),
    {
        ApiCall::plain(Method::Get, String::from("/remote_bandwidth_snapshots"))
    }
}

} // verus!
