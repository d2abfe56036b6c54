//! History operations
//!
//! History represents activity logs and audit trails. History queries must be
//! exported for processing.

use vstd::prelude::*;
use crate::client::{pairs_view, FilesClient, Method};
use crate::request::{
    opt_field, opt_int_view, opt_param, opt_str_field, opt_view, push_opt_int, push_opt_str,
    query_string, query_suffix, ApiCall, JsonBody,
};
use crate::text::{i64_text, int_decimal};

verus! {

/// A History Export entity
#[derive(Debug, Clone)]
pub struct HistoryExportEntity {
    /// History Export ID
    pub id: Option<i64>,
    /// Version of the history for the export
    pub history_version: Option<String>,
    /// Start date/time of export range
    pub start_at: Option<String>,
    /// End date/time of export range
    pub end_at: Option<String>,
    /// Status (building, ready, failed)
    pub status: Option<String>,
    /// Filter by action type
    pub query_action: Option<String>,
    /// Filter by interface type
    pub query_interface: Option<String>,
    /// Filter by user ID
    pub query_user_id: Option<String>,
    /// Filter by file ID
    pub query_file_id: Option<String>,
    /// Filter by parent folder ID
    pub query_parent_id: Option<String>,
    /// Filter by path pattern
    pub query_path: Option<String>,
    /// Filter by folder pattern
    pub query_folder: Option<String>,
    /// Filter by source pattern (for moves)
    pub query_src: Option<String>,
    /// Filter by destination pattern (for moves)
    pub query_destination: Option<String>,
    /// Filter by IP address
    pub query_ip: Option<String>,
    /// Filter by username
    pub query_username: Option<String>,
    /// Filter by failure type (for login failures)
    pub query_failure_type: Option<String>,
    /// Filter by target object ID
    pub query_target_id: Option<String>,
    /// Filter by target object name
    pub query_target_name: Option<String>,
    /// Filter by target permission level
    pub query_target_permission: Option<String>,
    /// Filter by target user ID
    pub query_target_user_id: Option<String>,
    /// Filter by target username
    pub query_target_username: Option<String>,
    /// Filter by target platform
    pub query_target_platform: Option<String>,
    /// Filter by target permission set
    pub query_target_permission_set: Option<String>,
    /// Results download URL (when ready)
    pub results_url: Option<String>,
}

/// A History Export Result entity
#[derive(Debug, Clone)]
pub struct HistoryExportResultEntity {
    /// ID of the export this result belongs to
    pub history_export_id: Option<i64>,
    /// Result data (varies by export type)
    pub result: Option<serde_json::Value>,
}

/// Handler for history operations
pub struct HistoryHandler {
    client: FilesClient,
}

impl HistoryHandler {
    /// The client the handler sends its requests with.
    pub closed spec fn spec_client(&self) -> FilesClient {
        self.client
    }

    /// Creates a new history handler
    pub fn new(client: FilesClient) -> (h: Self)
        ensures
            h.spec_client() == client,
    {
        Self { client }
    }

    /// The client the handler sends its requests with.
    pub fn client(&self) -> (c: &FilesClient)
        ensures
            *c == self.spec_client(),
    {
        &self.client
    }

    /// The request that lists the history of a file.
    pub fn list_for_file_request(
        path: &str,
        cursor: Option<&str>,
        per_page: Option<i64>,
    ) -> (c: ApiCall)
        ensures
            c.is_plain(Method::Get, "/history/files/"@ + path@ + query_suffix(
                opt_param("cursor"@, opt_view(cursor))
                    + opt_param("per_page"@, opt_int_view(per_page)),
            )),
    {
        let mut params: Vec<(String, String)> = Vec::new();
        push_opt_str(&mut params, "cursor", cursor);
        push_opt_int(&mut params, "per_page", per_page);
        let mut endpoint = String::from("/history/files/");
        endpoint.append(path);
        endpoint.append(query_string(&params).as_str());
        proof {
            assert(pairs_view(params@) =~= opt_param("cursor"@, opt_view(cursor))
                + opt_param("per_page"@, opt_int_view(per_page)));
        }
        ApiCall::plain(Method::Get, endpoint)
    }

    /// The request that lists the history of a folder.
    pub fn list_for_folder_request(
        path: &str,
        cursor: Option<&str>,
        per_page: Option<i64>,
    ) -> (c: ApiCall)
        ensures
            c.is_plain(Method::Get, "/history/folders/"@ + path@ + query_suffix(
                opt_param("cursor"@, opt_view(cursor))
                    + opt_param("per_page"@, opt_int_view(per_page)),
            )),
    {
        let mut params: Vec<(String, String)> = Vec::new();
        push_opt_str(&mut params, "cursor", cursor);
        push_opt_int(&mut params, "per_page", per_page);
        let mut endpoint = String::from("/history/folders/");
        endpoint.append(path);
        endpoint.append(query_string(&params).as_str());
        proof {
            assert(pairs_view(params@) =~= opt_param("cursor"@, opt_view(cursor))
                + opt_param("per_page"@, opt_int_view(per_page)));
        }
        ApiCall::plain(Method::Get, endpoint)
    }

    /// The request that lists the history of a user.
    pub fn list_for_user_request(
        user_id: i64,
        cursor: Option<&str>,
        per_page: Option<i64>,
    ) -> (c: ApiCall)
        ensures
            c.is_plain(Method::Get, "/history/users/"@ + int_decimal(user_id as int) + query_suffix(
                opt_param("cursor"@, opt_view(cursor))
                    + opt_param("per_page"@, opt_int_view(per_page)),
            )),
    {
        let mut params: Vec<(String, String)> = Vec::new();
        push_opt_str(&mut params, "cursor", cursor);
        push_opt_int(&mut params, "per_page", per_page);
        let mut endpoint = String::from("/history/users/");
        endpoint.append(i64_text(user_id).as_str());
        endpoint.append(query_string(&params).as_str());
        proof {
            assert(pairs_view(params@) =~= opt_param("cursor"@, opt_view(cursor))
                + opt_param("per_page"@, opt_int_view(per_page)));
        }
        ApiCall::plain(Method::Get, endpoint)
    }

    /// The request that lists login history.
    pub fn list_logins_request(cursor: Option<&str>, per_page: Option<i64>) -> (c: ApiCall)
        ensures
            c.is_plain(Method::Get, "/history/login"@ + query_suffix(
                opt_param("cursor"@, opt_view(cursor))
                    + opt_param("per_page"@, opt_int_view(per_page)),
            )),
    {
        let mut params: Vec<(String, String)> = Vec::new();
        push_opt_str(&mut params, "cursor", cursor);
        push_opt_int(&mut params, "per_page", per_page);
        let mut endpoint = String::from("/history/login");
        endpoint.append(query_string(&params).as_str());
        proof {
            assert(pairs_view(params@) =~= opt_param("cursor"@, opt_view(cursor))
                + opt_param("per_page"@, opt_int_view(per_page)));
        }
        ApiCall::plain(Method::Get, endpoint)
    }

    /// The request that creates a history export.
    pub fn create_export_request(
        start_at: Option<&str>,
        end_at: Option<&str>,
        query_action: Option<&str>,
        query_user_id: Option<&str>,
        query_folder: Option<&str>,
    ) -> (c: ApiCall)
        ensures
            c.has_fields(Method::Post, "/history_exports"@,
                opt_field("start_at"@, opt_str_field(start_at))
                    + opt_field("end_at"@, opt_str_field(end_at))
                    + opt_field("query_action"@, opt_str_field(query_action))
                    + opt_field("query_user_id"@, opt_str_field(query_user_id))
                    + opt_field("query_folder"@, opt_str_field(query_folder))),
    {
        let mut json = JsonBody::new();
        json.set_opt_str("start_at", start_at);
        json.set_opt_str("end_at", end_at);
        json.set_opt_str("query_action", query_action);
        json.set_opt_str("query_user_id", query_user_id);
        json.set_opt_str("query_folder", query_folder);
        proof {
            assert(json.spec_fields() =~= opt_field("start_at"@, opt_str_field(start_at))
                + opt_field("end_at"@, opt_str_field(end_at))
                + opt_field("query_action"@, opt_str_field(query_action))
                + opt_field("query_user_id"@, opt_str_field(query_user_id))
                + opt_field("query_folder"@, opt_str_field(query_folder)));
        }
        ApiCall::with_fields(Method::Post, String::from("/history_exports"), json)
    }

    /// The request that gets one history export.
    pub fn get_export_request(id: i64) -> (c: ApiCall)
        ensures
            c.is_plain(Method::Get, "/history_exports/"@ + int_decimal(id as int)),
    {
        let mut endpoint = String::from("/history_exports/");
        endpoint.append(i64_text(id).as_str());
        ApiCall::plain(Method::Get, endpoint)
    }

    /// The request that lists the results of history exports.
    pub fn get_export_results_request(
        cursor: Option<&str>,
        per_page: Option<i64>,
        history_export_id: Option<i64>,
    ) -> (c: ApiCall)
        ensures
            c.is_plain(Method::Get, "/history_export_results"@ + query_suffix(
                opt_param("cursor"@, opt_view(cursor))
                    + opt_param("per_page"@, opt_int_view(per_page))
                    + opt_param("history_export_id"@, opt_int_view(history_export_id)),
            )),
    {
        let mut params: Vec<(String, String)> = Vec::new();
        push_opt_str(&mut params, "cursor", cursor);
        push_opt_int(&mut params, "per_page", per_page);
        push_opt_int(&mut params, "history_export_id", history_export_id);
        let mut endpoint = String::from("/history_export_results");
        endpoint.append(query_string(&params).as_str());
        proof {
            assert(pairs_view(params@) =~= opt_param("cursor"@, opt_view(cursor))
                + opt_param("per_page"@, opt_int_view(per_page))
                + opt_param("history_export_id"@, opt_int_view(history_export_id)));
        }
        ApiCall::plain(Method::Get, endpoint)
    }
}

} // verus!
