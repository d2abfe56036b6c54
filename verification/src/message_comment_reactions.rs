//! Reactions to message comments.

use vstd::prelude::*;
use crate::client::{pairs_view, FilesClient, Method};
use crate::request::{
    opt_int_view, opt_param, opt_string_view, push_opt_int, push_opt_string,
    push_param, query_string, query_suffix, ApiCall,
};
use crate::text::{i64_text, int_decimal};

verus! {

#[derive(Debug, Clone)]
pub struct MessageCommentReactionEntity {
    pub data: serde_json::Map<String, serde_json::Value>,
}

/// Handler for message comment reactions
pub struct MessageCommentReactionHandler {
    client: FilesClient,
}

impl MessageCommentReactionHandler {
    /// The client the handler sends its requests with.
    pub closed spec fn spec_client(&self) -> FilesClient {
        self.client
    }

    /// Creates a new handler
    pub fn new(client: FilesClient) -> (h: Self)
        ensures
            h.spec_client() == client,
    {
        Self { client }
    }

    /// The client the handler sends its requests with.
    pub fn client(&self) -> (c: &FilesClient)
        ensures
            *c == self.spec_client(),
    {
        &self.client
    }

    /// The request that lists the reactions to a message comment (answered with cursor headers).
    pub fn list_request(
        message_comment_id: i64,
        cursor: Option<String>,
        per_page: Option<i64>,
    ) -> (c: ApiCall)
        ensures
            c.is_plain(Method::Get, "/message_comment_reactions"@ + query_suffix(
                seq![("message_comment_id"@, int_decimal(message_comment_id as int))]
                    + opt_param("cursor"@, opt_string_view(cursor))
                    + opt_param("per_page"@, opt_int_view(per_page)),
            )),
    {
        let mut params: Vec<(String, String)> = Vec::new();
        push_param(&mut params, "message_comment_id", i64_text(message_comment_id).as_str());
        push_opt_string(&mut params, "cursor", cursor);
        push_opt_int(&mut params, "per_page", per_page);
        let mut endpoint = String::from("/message_comment_reactions");
        endpoint.append(query_string(&params).as_str());
        proof {
            assert(pairs_view(params@) =~= seq![("message_comment_id"@, int_decimal(message_comment_id as int))]
                + opt_param("cursor"@, opt_string_view(cursor))
                + opt_param("per_page"@, opt_int_view(per_page)));
        }
        ApiCall::plain(Method::Get, endpoint)
    }

    /// The request that gets one reaction.
    pub fn get_request(id: i64) -> (c: ApiCall)
        ensures
            c.is_plain(Method::Get, "/message_comment_reactions/"@ + int_decimal(id as int)),
    {
        let mut endpoint = String::from("/message_comment_reactions/");
        endpoint.append(i64_text(id).as_str());
        ApiCall::plain(Method::Get, endpoint)
    }

    /// The request that creates a reaction.
    pub fn create_request(params: serde_json::Value) -> (c: ApiCall)
        ensures
            c.has_document(Method::Post, "/message_comment_reactions"@, params),
    {
        ApiCall::with_document(Method::Post, String::from("/message_comment_reactions"), params)
    }

    /// The request that deletes a reaction.
    pub fn delete_request(id: i64) -> (c: ApiCall)
        ensures
            c.is_plain(Method::Delete, "/message_comment_reactions/"@ + int_decimal(id as int)),
    {
        let mut endpoint = String::from("/message_comment_reactions/");
        endpoint.append(i64_text(id).as_str());
        ApiCall::plain(Method::Delete, endpoint)
    }
}

} // verus!
