//! File comment operations
//!
//! Comments on files, and reactions to comments.

use vstd::prelude::*;
use crate::client::{FilesClient, Method};
use crate::utils::{encode_path, encoded_path};
use crate::request::{ApiCall, FieldSpec, JsonBody, JsonField};
use crate::text::{i64_text, int_decimal};

verus! {

/// Represents a comment on a file
#[derive(Debug, Clone)]
pub struct FileCommentEntity {
    /// File comment ID
    pub id: Option<i64>,
    /// Comment body text
    pub body: Option<String>,
    /// Reactions to this comment
    pub reactions: Option<Vec<FileCommentReactionEntity>>,
}

/// Represents a reaction to a file comment
#[derive(Debug, Clone)]
pub struct FileCommentReactionEntity {
    /// Reaction ID
    pub id: Option<i64>,
    /// Emoji used for the reaction
    pub emoji: Option<String>,
}

/// Handler for file comments
pub struct FileCommentHandler {
    client: FilesClient,
}

impl FileCommentHandler {
    /// The client the handler sends its requests with.
    pub closed spec fn spec_client(&self) -> FilesClient {
        self.client
    }

    /// Creates a new handler
    pub fn new(client: FilesClient) -> (h: Self)
        ensures
            h.spec_client() == client,
    {
        Self { client }
    }

    /// The client the handler sends its requests with.
    pub fn client(&self) -> (c: &FilesClient)
        ensures
            *c == self.spec_client(),
    {
        &self.client
    }

    /// The request that lists the comments on the file at `path` (percent-encoded
    /// in the URL).
    pub fn list_request(path: &str) -> (c: ApiCall)
        ensures
            c.is_plain(Method::Get, "/file_comments/files"@ + encoded_path(path)),
    {
        let mut endpoint = String::from("/file_comments/files");
        endpoint.append(encode_path(path).as_str());
        ApiCall::plain(Method::Get, endpoint)
    }

    /// The request that comments on the file at `path`.
    pub fn create_request(path: &str, body: &str) -> (c: ApiCall)
        ensures
            c.has_fields(Method::Post, "/file_comments"@,
                seq![("body"@, FieldSpec::Str(body@))]
                    + seq![("path"@, FieldSpec::Str(path@))]),
    {
        let mut json = JsonBody::new();
        json.set("body", JsonField::Str(String::from(body)));
        json.set("path", JsonField::Str(String::from(path)));
        proof {
            assert(json.spec_fields() =~= seq![("body"@, FieldSpec::Str(body@))]
                + seq![("path"@, FieldSpec::Str(path@))]);
        }
        ApiCall::with_fields(Method::Post, String::from("/file_comments"), json)
    }

    /// The request that changes the text of a comment.
    pub fn update_request(id: i64, body: &str) -> (c: ApiCall)
        ensures
            c.has_fields(Method::Patch, "/file_comments/"@ + int_decimal(id as int),
                seq![("body"@, FieldSpec::Str(body@))]),
    {
        let mut json = JsonBody::new();
        json.set("body", JsonField::Str(String::from(body)));
        let mut endpoint = String::from("/file_comments/");
        endpoint.append(i64_text(id).as_str());
        proof {
            assert(json.spec_fields() =~= seq![("body"@, FieldSpec::Str(body@))]);
        }
        ApiCall::with_fields(Method::Patch, endpoint, json)
    }

    /// The request that deletes a comment.
    pub fn delete_request(id: i64) -> (c: ApiCall)
        ensures
            c.is_plain(Method::Delete, "/file_comments/"@ + int_decimal(id as int)),
    {
        let mut endpoint = String::from("/file_comments/");
        endpoint.append(i64_text(id).as_str());
        ApiCall::plain(Method::Delete, endpoint)
    }

    /// The request that reacts to a comment with an emoji.
    pub fn add_reaction_request(file_comment_id: i64, emoji: &str) -> (c: ApiCall)
        ensures
            c.has_fields(Method::Post, "/file_comment_reactions"@,
                seq![("file_comment_id"@, FieldSpec::Int(file_comment_id as int))]
                    + seq![("emoji"@, FieldSpec::Str(emoji@))]),
    {
        let mut json = JsonBody::new();
        json.set("file_comment_id", JsonField::Int(file_comment_id));
        json.set("emoji", JsonField::Str(String::from(emoji)));
        proof {
            assert(json.spec_fields() =~= seq![("file_comment_id"@, FieldSpec::Int(file_comment_id as int))]
                + seq![("emoji"@, FieldSpec::Str(emoji@))]);
        }
        ApiCall::with_fields(Method::Post, String::from("/file_comment_reactions"), json)
    }

    /// The request that deletes a reaction.
    pub fn delete_reaction_request(id: i64) -> (c: ApiCall)
        ensures
            c.is_plain(Method::Delete, "/file_comment_reactions/"@ + int_decimal(id as int)),
    {
        let mut endpoint = String::from("/file_comment_reactions/");
        endpoint.append(i64_text(id).as_str());
        ApiCall::plain(Method::Delete, endpoint)
    }
}

} // verus!
