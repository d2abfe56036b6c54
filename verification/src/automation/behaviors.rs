//! Behavior operations
//!
//! Behaviors are automated actions attached to folders: webhooks, encryption,
//! retention, and others.

use vstd::prelude::*;
use crate::client::{pairs_view, FilesClient, Method};
use crate::request::{
    opt_bool_field, opt_field, opt_int_view, opt_json_view, opt_param, opt_str_field,
    opt_string_view, opt_value_field, opt_value_text, opt_view, push_opt_int, push_opt_str,
    push_opt_string, query_string, query_suffix, ApiCall, FieldSpec, JsonBody, JsonField,
};
use crate::text::{i64_text, int_decimal};

verus! {

/// A Behavior entity
#[derive(Debug, Clone)]
pub struct BehaviorEntity {
    /// Behavior ID
    pub id: Option<i64>,
    /// Folder path where behavior applies
    pub path: Option<String>,
    /// URL for attached file (if applicable)
    pub attachment_url: Option<String>,
    /// Behavior type (e.g., webhook, auto_encrypt, file_expiration)
    pub behavior: Option<String>,
    /// Description of this behavior
    pub description: Option<String>,
    /// Name of the behavior
    pub name: Option<String>,
    /// Behavior configuration value (hash/object)
    pub value: Option<serde_json::Value>,
    /// Disable parent folder behavior
    pub disable_parent_folder_behavior: Option<bool>,
    /// Apply recursively to subfolders
    pub recursive: Option<bool>,
}

/// Handler for behavior operations
pub struct BehaviorHandler {
    client: FilesClient,
}

impl BehaviorHandler {
    /// The client the handler sends its requests with.
    pub closed spec fn spec_client(&self) -> FilesClient {
        self.client
    }

    /// Creates a new BehaviorHandler
    pub fn new(client: FilesClient) -> (h: Self)
        ensures
            h.spec_client() == client,
    {
        Self { client }
    }

    /// The client the handler sends its requests with.
    pub fn client(&self) -> (c: &FilesClient)
        ensures
            *c == self.spec_client(),
    {
        &self.client
    }

    /// The request that lists behaviors; `sort_by` and `filter` are sent as their JSON text.
    pub fn list_request(
        cursor: Option<&str>,
        per_page: Option<i64>,
        sort_by: Option<serde_json::Value>,
        filter: Option<serde_json::Value>,
        filter_prefix: Option<&str>,
    ) -> (c: ApiCall)
        ensures
            c.is_plain(Method::Get, "/behaviors"@ + query_suffix(
                opt_param("cursor"@, opt_view(cursor))
                    + opt_param("per_page"@, opt_int_view(per_page))
                    + opt_param("sort_by"@, opt_json_view(sort_by))
                    + opt_param("filter"@, opt_json_view(filter))
                    + opt_param("filter_prefix"@, opt_view(filter_prefix)),
            )),
    {
        let sort_text = opt_value_text(&sort_by);
        let filter_text = opt_value_text(&filter);
        Self::list_request_from_texts(cursor, per_page, sort_text, filter_text, filter_prefix)
    }

    /// The request that lists behaviors, given the JSON text of `sort_by` and `filter`.
    pub fn list_request_from_texts(
        cursor: Option<&str>,
        per_page: Option<i64>,
        sort_by: Option<String>,
        filter: Option<String>,
        filter_prefix: Option<&str>,
    ) -> (c: ApiCall)
        ensures
            c.is_plain(Method::Get, "/behaviors"@ + query_suffix(
                opt_param("cursor"@, opt_view(cursor))
                    + opt_param("per_page"@, opt_int_view(per_page))
                    + opt_param("sort_by"@, opt_string_view(sort_by))
                    + opt_param("filter"@, opt_string_view(filter))
                    + opt_param("filter_prefix"@, opt_view(filter_prefix)),
            )),
    {
        let mut params: Vec<(String, String)> = Vec::new();
        push_opt_str(&mut params, "cursor", cursor);
        push_opt_int(&mut params, "per_page", per_page);
        push_opt_string(&mut params, "sort_by", sort_by);
        push_opt_string(&mut params, "filter", filter);
        push_opt_str(&mut params, "filter_prefix", filter_prefix);
        let mut endpoint = String::from("/behaviors");
        endpoint.append(query_string(&params).as_str());
        proof {
            assert(pairs_view(params@) =~= opt_param("cursor"@, opt_view(cursor))
                + opt_param("per_page"@, opt_int_view(per_page))
                + opt_param("sort_by"@, opt_string_view(sort_by))
                + opt_param("filter"@, opt_string_view(filter))
                + opt_param("filter_prefix"@, opt_view(filter_prefix)));
        }
        ApiCall::plain(Method::Get, endpoint)
    }

    /// The request that lists the behaviors of a folder.
    pub fn list_for_folder_request(
        path: &str,
        cursor: Option<&str>,
        per_page: Option<i64>,
    ) -> (c: ApiCall)
        ensures
            c.is_plain(Method::Get, "/behaviors/folders/"@ + path@ + query_suffix(
                opt_param("cursor"@, opt_view(cursor))
                    + opt_param("per_page"@, opt_int_view(per_page)),
            )),
    {
        let mut params: Vec<(String, String)> = Vec::new();
        push_opt_str(&mut params, "cursor", cursor);
        push_opt_int(&mut params, "per_page", per_page);
        let mut endpoint = String::from("/behaviors/folders/");
        endpoint.append(path);
        endpoint.append(query_string(&params).as_str());
        proof {
            assert(pairs_view(params@) =~= opt_param("cursor"@, opt_view(cursor))
                + opt_param("per_page"@, opt_int_view(per_page)));
        }
        ApiCall::plain(Method::Get, endpoint)
    }

    /// The request that gets one behavior.
    pub fn get_request(id: i64) -> (c: ApiCall)
        ensures
            c.is_plain(Method::Get, "/behaviors/"@ + int_decimal(id as int)),
    {
        let mut endpoint = String::from("/behaviors/");
        endpoint.append(i64_text(id).as_str());
        ApiCall::plain(Method::Get, endpoint)
    }

    /// The request that creates a behavior on a folder.
    pub fn create_request(
        path: &str,
        behavior: &str,
        value: Option<serde_json::Value>,
        name: Option<&str>,
        recursive: Option<bool>,
    ) -> (c: ApiCall)
        ensures
            c.has_fields(Method::Post, "/behaviors"@,
                seq![("path"@, FieldSpec::Str(path@))]
                    + seq![("behavior"@, FieldSpec::Str(behavior@))]
                    + opt_field("value"@, opt_value_field(value))
                    + opt_field("name"@, opt_str_field(name))
                    + opt_field("recursive"@, opt_bool_field(recursive))),
    {
        let mut json = JsonBody::new();
        json.set("path", JsonField::Str(String::from(path)));
        json.set("behavior", JsonField::Str(String::from(behavior)));
        json.set_opt_value("value", value);
        json.set_opt_str("name", name);
        json.set_opt_bool("recursive", recursive);
        proof {
            assert(json.spec_fields() =~= seq![("path"@, FieldSpec::Str(path@))]
                + seq![("behavior"@, FieldSpec::Str(behavior@))]
                + opt_field("value"@, opt_value_field(value))
                + opt_field("name"@, opt_str_field(name))
                + opt_field("recursive"@, opt_bool_field(recursive)));
        }
        ApiCall::with_fields(Method::Post, String::from("/behaviors"), json)
    }

    /// The request that updates a behavior; only the given fields change.
    pub fn update_request(
        id: i64,
        value: Option<serde_json::Value>,
        name: Option<&str>,
        disable_parent_folder_behavior: Option<bool>,
    ) -> (c: ApiCall)
        ensures
            c.has_fields(Method::Patch, "/behaviors/"@ + int_decimal(id as int),
                opt_field("value"@, opt_value_field(value))
                    + opt_field("name"@, opt_str_field(name))
                    + opt_field("disable_parent_folder_behavior"@, opt_bool_field(disable_parent_folder_behavior))),
    {
        let mut json = JsonBody::new();
        json.set_opt_value("value", value);
        json.set_opt_str("name", name);
        json.set_opt_bool("disable_parent_folder_behavior", disable_parent_folder_behavior);
        let mut endpoint = String::from("/behaviors/");
        endpoint.append(i64_text(id).as_str());
        proof {
            assert(json.spec_fields() =~= opt_field("value"@, opt_value_field(value))
                + opt_field("name"@, opt_str_field(name))
                + opt_field("disable_parent_folder_behavior"@, opt_bool_field(disable_parent_folder_behavior)));
        }
        ApiCall::with_fields(Method::Patch, endpoint, json)
    }

    /// The request that deletes a behavior.
    pub fn delete_request(id: i64) -> (c: ApiCall)
        ensures
            c.is_plain(Method::Delete, "/behaviors/"@ + int_decimal(id as int)),
    {
        let mut endpoint = String::from("/behaviors/");
        endpoint.append(i64_text(id).as_str());
        ApiCall::plain(Method::Delete, endpoint)
    }

    /// The request that tests a webhook.
    pub fn test_webhook_request(
        url: &str,
        method: Option<&str>,
        encoding: Option<&str>,
        headers: Option<serde_json::Value>,
        body: Option<serde_json::Value>,
    ) -> (c: ApiCall)
        ensures
            c.has_fields(Method::Post, "/behaviors/webhook/test"@,
                seq![("url"@, FieldSpec::Str(url@))]
                    + opt_field("method"@, opt_str_field(method))
                    + opt_field("encoding"@, opt_str_field(encoding))
                    + opt_field("headers"@, opt_value_field(headers))
                    + opt_field("body"@, opt_value_field(body))),
    {
        let mut json = JsonBody::new();
        json.set("url", JsonField::Str(String::from(url)));
        json.set_opt_str("method", method);
        json.set_opt_str("encoding", encoding);
        json.set_opt_value("headers", headers);
        json.set_opt_value("body", body);
        proof {
            assert(json.spec_fields() =~= seq![("url"@, FieldSpec::Str(url@))]
                + opt_field("method"@, opt_str_field(method))
                + opt_field("encoding"@, opt_str_field(encoding))
                + opt_field("headers"@, opt_value_field(headers))
                + opt_field("body"@, opt_value_field(body)));
        }
        ApiCall::with_fields(Method::Post, String::from("/behaviors/webhook/test"), json)
    }
}

} // verus!
