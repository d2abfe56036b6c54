//! Reactions to file comments.

use vstd::prelude::*;
use crate::client::{FilesClient, Method};
use crate::request::{ApiCall};
use crate::text::{i64_text, int_decimal};

verus! {

#[derive(Debug, Clone)]
pub struct FileCommentReactionEntity {
    pub data: serde_json::Map<String, serde_json::Value>,
}

/// Handler for file comment reactions
pub struct FileCommentReactionHandler {
    client: FilesClient,
}

impl FileCommentReactionHandler {
    /// The client the handler sends its requests with.
    pub closed spec fn spec_client(&self) -> FilesClient {
        self.client
    }

    /// Creates a new handler
    pub fn new(client: FilesClient) -> (h: Self)
        ensures
            h.spec_client() == client,
    {
        Self { client }
    }

    /// The client the handler sends its requests with.
    pub fn client(&self) -> (c: &FilesClient)
        ensures
            *c == self.spec_client(),
    {
        &self.client
    }

    /// The request that creates a reaction.
    pub fn create_request(params: serde_json::Value) -> (c: ApiCall)
        ensures
            c.has_document(Method::Post, "/file_comment_reactions"@, params),
    {
        ApiCall::with_document(Method::Post, String::from("/file_comment_reactions"), params)
    }

    /// The request that deletes a reaction.
    pub fn delete_request(id: i64) -> (c: ApiCall)
        ensures
            c.is_plain(Method::Delete, "/file_comment_reactions/"@ + int_decimal(id as int)),
    {
        let mut endpoint = String::from("/file_comment_reactions/");
        endpoint.append(i64_text(id).as_str());
        ApiCall::plain(Method::Delete, endpoint)
    }
}

} // verus!
