//! Message operations
//!
//! Messages are part of the project management features: messages posted by
//! users to projects.

use vstd::prelude::*;
use crate::client::{pairs_view, FilesClient, Method};
use crate::request::{
    opt_field, opt_int_view, opt_param, opt_str_field, opt_view, push_opt_int, push_opt_str,
    query_string, query_suffix, ApiCall, FieldSpec, JsonBody, JsonField,
};
use crate::text::{i64_text, int_decimal};

verus! {

/// A Message Comment entity
#[derive(Debug, Clone)]
pub struct MessageCommentEntity {
    /// Comment ID
    pub id: Option<i64>,
    /// Comment body
    pub body: Option<String>,
    /// Reactions to this comment
    pub reactions: Option<Vec<serde_json::Value>>,
}

/// A Message entity
#[derive(Debug, Clone)]
pub struct MessageEntity {
    /// Message ID
    pub id: Option<i64>,
    /// Message subject
    pub subject: Option<String>,
    /// Message body
    pub body: Option<String>,
    /// Comments on this message
    pub comments: Option<Vec<MessageCommentEntity>>,
}

/// Handler for messages
pub struct MessageHandler {
    client: FilesClient,
}

impl MessageHandler {
    /// The client the handler sends its requests with.
    pub closed spec fn spec_client(&self) -> FilesClient {
        self.client
    }

    /// Creates a new handler
    pub fn new(client: FilesClient) -> (h: Self)
        ensures
            h.spec_client() == client,
    {
        Self { client }
    }

    /// The client the handler sends its requests with.
    pub fn client(&self) -> (c: &FilesClient)
        ensures
            *c == self.spec_client(),
    {
        &self.client
    }

    /// The request that lists messages.
    pub fn list_request(
        cursor: Option<&str>,
        per_page: Option<i64>,
        project_id: Option<i64>,
    ) -> (c: ApiCall)
        ensures
            c.is_plain(Method::Get, "/messages"@ + query_suffix(
                opt_param("cursor"@, opt_view(cursor))
                    + opt_param("per_page"@, opt_int_view(per_page))
                    + opt_param("project_id"@, opt_int_view(project_id)),
            )),
    {
        let mut params: Vec<(String, String)> = Vec::new();
        push_opt_str(&mut params, "cursor", cursor);
        push_opt_int(&mut params, "per_page", per_page);
        push_opt_int(&mut params, "project_id", project_id);
        let mut endpoint = String::from("/messages");
        endpoint.append(query_string(&params).as_str());
        proof {
            assert(pairs_view(params@) =~= opt_param("cursor"@, opt_view(cursor))
                + opt_param("per_page"@, opt_int_view(per_page))
                + opt_param("project_id"@, opt_int_view(project_id)));
        }
        ApiCall::plain(Method::Get, endpoint)
    }

    /// The request that gets one message.
    pub fn get_request(id: i64) -> (c: ApiCall)
        ensures
            c.is_plain(Method::Get, "/messages/"@ + int_decimal(id as int)),
    {
        let mut endpoint = String::from("/messages/");
        endpoint.append(i64_text(id).as_str());
        ApiCall::plain(Method::Get, endpoint)
    }

    /// The request that posts a message to a project.
    pub fn create_request(project_id: i64, subject: &str, body: &str) -> (c: ApiCall)
        ensures
            c.has_fields(Method::Post, "/messages"@,
                seq![("project_id"@, FieldSpec::Int(project_id as int))]
                    + seq![("subject"@, FieldSpec::Str(subject@))]
                    + seq![("body"@, FieldSpec::Str(body@))]),
    {
        let mut json = JsonBody::new();
        json.set("project_id", JsonField::Int(project_id));
        json.set("subject", JsonField::Str(String::from(subject)));
        json.set("body", JsonField::Str(String::from(body)));
        proof {
            assert(json.spec_fields() =~= seq![("project_id"@, FieldSpec::Int(project_id as int))]
                + seq![("subject"@, FieldSpec::Str(subject@))]
                + seq![("body"@, FieldSpec::Str(body@))]);
        }
        ApiCall::with_fields(Method::Post, String::from("/messages"), json)
    }

    /// The request that updates a message; only the given fields change.
    pub fn update_request(id: i64, subject: Option<&str>, body: Option<&str>) -> (c: ApiCall)
        ensures
            c.has_fields(Method::Patch, "/messages/"@ + int_decimal(id as int),
                opt_field("subject"@, opt_str_field(subject))
                    + opt_field("body"@, opt_str_field(body))),
    {
        let mut json = JsonBody::new();
        json.set_opt_str("subject", subject);
        json.set_opt_str("body", body);
        let mut endpoint = String::from("/messages/");
        endpoint.append(i64_text(id).as_str());
        proof {
            assert(json.spec_fields() =~= opt_field("subject"@, opt_str_field(subject))
                + opt_field("body"@, opt_str_field(body)));
        }
        ApiCall::with_fields(Method::Patch, endpoint, json)
    }

    /// The request that deletes a message.
    pub fn delete_request(id: i64) -> (c: ApiCall)
        ensures
            c.is_plain(Method::Delete, "/messages/"@ + int_decimal(id as int)),
    {
        let mut endpoint = String::from("/messages/");
        endpoint.append(i64_text(id).as_str());
        ApiCall::plain(Method::Delete, endpoint)
    }
}

} // verus!
