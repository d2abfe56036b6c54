//! API Key management operations
//!
//! List, create, update and delete API keys, the recommended authentication method
//! for programmatic access.

use vstd::prelude::*;
use crate::client::{pairs_view, FilesClient, Method};
use crate::request::{
    opt_field, opt_i32_view, opt_int_view, opt_param, opt_str_field, opt_string_view, push_opt_i32,
    push_opt_int, push_opt_string, trailing_params, trailing_query, ApiCall, JsonBody,
};
use crate::text::{i64_text, int_decimal};

verus! {

/// API Key entity from Files.com API
#[derive(Debug, Clone)]
pub struct ApiKeyEntity {
    /// API Key ID
    pub id: Option<i64>,
    /// API Key name
    pub name: Option<String>,
    /// API Key description
    pub description: Option<String>,
    /// Descriptive label
    pub descriptive_label: Option<String>,
    /// The actual API key (only returned on creation)
    pub key: Option<String>,
    /// User ID this key belongs to
    pub user_id: Option<i64>,
    /// Platform this key is for
    pub platform: Option<String>,
    /// Permission set for this key
    pub permission_set: Option<String>,
    /// URL this key is associated with
    pub url: Option<String>,
    /// Created at timestamp
    pub created_at: Option<String>,
    /// Expires at timestamp
    pub expires_at: Option<String>,
    /// Last use at timestamp
    pub last_use_at: Option<String>,
}

/// Handler for API key operations
pub struct ApiKeyHandler {
    client: FilesClient,
}

impl ApiKeyHandler {
    /// The client the handler sends its requests with.
    pub closed spec fn spec_client(&self) -> FilesClient {
        self.client
    }

    /// Creates a new ApiKeyHandler
    pub fn new(client: FilesClient) -> (h: Self)
        ensures
            h.spec_client() == client,
    {
        Self { client }
    }

    /// The client the handler sends its requests with.
    pub fn client(&self) -> (c: &FilesClient)
        ensures
            *c == self.spec_client(),
    {
        &self.client
    }

    /// The request that lists API keys, optionally of one user.
    pub fn list_request(
        user_id: Option<i64>,
        cursor: Option<String>,
        per_page: Option<i32>,
    ) -> (c: ApiCall)
        ensures
            c.is_plain(Method::Get, "/api_keys?"@ + trailing_params(
                opt_param("user_id"@, opt_int_view(user_id))
                    + opt_param("cursor"@, opt_string_view(cursor))
                    + opt_param("per_page"@, opt_i32_view(per_page)),
            )),
    {
        let mut params: Vec<(String, String)> = Vec::new();
        push_opt_int(&mut params, "user_id", user_id);
        push_opt_string(&mut params, "cursor", cursor);
        push_opt_i32(&mut params, "per_page", per_page);
        let endpoint = trailing_query("/api_keys?", &params);
        proof {
            assert(pairs_view(params@) =~= opt_param("user_id"@, opt_int_view(user_id))
                + opt_param("cursor"@, opt_string_view(cursor))
                + opt_param("per_page"@, opt_i32_view(per_page)));
        }
        ApiCall::plain(Method::Get, endpoint)
    }

    /// The request that gets one API key.
    pub fn get_request(id: i64) -> (c: ApiCall)
        ensures
            c.is_plain(Method::Get, "/api_keys/"@ + int_decimal(id as int)),
    {
        let mut endpoint = String::from("/api_keys/");
        endpoint.append(i64_text(id).as_str());
        ApiCall::plain(Method::Get, endpoint)
    }

    /// The request that creates an API key.
    pub fn create_request(
        name: Option<&str>,
        description: Option<&str>,
        expires_at: Option<&str>,
        permission_set: Option<&str>,
    ) -> (c: ApiCall)
        ensures
            c.has_fields(Method::Post, "/api_keys"@,
                opt_field("name"@, opt_str_field(name))
                    + opt_field("description"@, opt_str_field(description))
                    + opt_field("expires_at"@, opt_str_field(expires_at))
                    + opt_field("permission_set"@, opt_str_field(permission_set))),
    {
        let mut json = JsonBody::new();
        json.set_opt_str("name", name);
        json.set_opt_str("description", description);
        json.set_opt_str("expires_at", expires_at);
        json.set_opt_str("permission_set", permission_set);
        proof {
            assert(json.spec_fields() =~= opt_field("name"@, opt_str_field(name))
                + opt_field("description"@, opt_str_field(description))
                + opt_field("expires_at"@, opt_str_field(expires_at))
                + opt_field("permission_set"@, opt_str_field(permission_set)));
        }
        ApiCall::with_fields(Method::Post, String::from("/api_keys"), json)
    }

    /// The request that updates an API key; only the given fields change.
    pub fn update_request(
        id: i64,
        name: Option<&str>,
        description: Option<&str>,
        expires_at: Option<&str>,
    ) -> (c: ApiCall)
        ensures
            c.has_fields(Method::Patch, "/api_keys/"@ + int_decimal(id as int),
                opt_field("name"@, opt_str_field(name))
                    + opt_field("description"@, opt_str_field(description))
                    + opt_field("expires_at"@, opt_str_field(expires_at))),
    {
        let mut json = JsonBody::new();
        json.set_opt_str("name", name);
        json.set_opt_str("description", description);
        json.set_opt_str("expires_at", expires_at);
        let mut endpoint = String::from("/api_keys/");
        endpoint.append(i64_text(id).as_str());
        proof {
            assert(json.spec_fields() =~= opt_field("name"@, opt_str_field(name))
                + opt_field("description"@, opt_str_field(description))
                + opt_field("expires_at"@, opt_str_field(expires_at)));
        }
        ApiCall::with_fields(Method::Patch, endpoint, json)
    }

    /// The request that deletes an API key.
    pub fn delete_request(id: i64) -> (c: ApiCall)
        ensures
            c.is_plain(Method::Delete, "/api_keys/"@ + int_decimal(id as int)),
    {
        let mut endpoint = String::from("/api_keys/");
        endpoint.append(i64_text(id).as_str());
        ApiCall::plain(Method::Delete, endpoint)
    }
}

} // verus!
