//! Automation operations
//!
//! Automations enable scheduled or event-driven file operations without manual
//! intervention: workflows that process files on schedules, file events or webhooks.

use vstd::prelude::*;
use crate::client::{pairs_view, FilesClient, Method};
use crate::request::{
    opt_bool_field, opt_field, opt_int_view, opt_param, opt_str_field, opt_str_list_field, opt_view,
    push_opt_int, push_opt_str, query_string, query_suffix, ApiCall, FieldSpec, JsonBody, JsonField,
};
use crate::text::{i64_text, int_decimal};

verus! {

/// Automation type enum
#[derive(Debug, Clone)]
pub enum AutomationType {
    CreateFolder,
    DeleteFile,
    CopyFile,
    MoveFile,
    As2Send,
    RunSync,
    ImportFile,
}

/// Automation trigger type
#[derive(Debug, Clone)]
pub enum AutomationTrigger {
    Daily,
    Custom,
    Webhook,
    Email,
    Action,
    Interval,
}

/// An Automation entity
#[derive(Debug, Clone)]
pub struct AutomationEntity {
    /// Automation ID
    pub id: Option<i64>,
    /// Force automation runs to be serialized
    pub always_serialize_jobs: Option<bool>,
    /// Always overwrite files with matching size
    pub always_overwrite_size_matching_files: Option<bool>,
    /// Automation type
    pub automation: Option<String>,
    /// Indicates if the automation has been deleted
    pub deleted: Option<bool>,
    /// Description for this Automation
    pub description: Option<String>,
    /// String to replace in destination path
    pub destination_replace_from: Option<String>,
    /// Replacement string for destination path
    pub destination_replace_to: Option<String>,
    /// Destination paths
    pub destinations: Option<Vec<String>>,
    /// If true, this automation will not run
    pub disabled: Option<bool>,
    /// Glob pattern to exclude files
    pub exclude_pattern: Option<String>,
    /// Flatten destination folder structure
    pub flatten_destination_structure: Option<bool>,
    /// Group IDs associated with automation
    pub group_ids: Option<Vec<i64>>,
    /// Holiday region for scheduling
    pub holiday_region: Option<String>,
    /// Human readable schedule description
    pub human_readable_schedule: Option<String>,
    /// Ignore locked folders
    pub ignore_locked_folders: Option<bool>,
    /// URLs to import from
    pub import_urls: Option<Vec<serde_json::Value>>,
    /// Automation interval (day, week, month, etc.)
    pub interval: Option<String>,
    /// Last modification time
    pub last_modified_at: Option<String>,
    /// Use legacy folder matching
    pub legacy_folder_matching: Option<bool>,
    /// Legacy sync IDs
    pub legacy_sync_ids: Option<Vec<i64>>,
    /// Automation name
    pub name: Option<String>,
    /// Overwrite existing files
    pub overwrite_files: Option<bool>,
    /// Path on which this Automation runs
    pub path: Option<String>,
    /// Path timezone
    pub path_time_zone: Option<String>,
    /// Recurring day of interval
    pub recurring_day: Option<i64>,
    /// Retry interval on failure (minutes)
    pub retry_on_failure_interval_in_minutes: Option<i64>,
    /// Number of retry attempts on failure
    pub retry_on_failure_number_of_attempts: Option<i64>,
    /// Custom schedule configuration
    pub schedule: Option<serde_json::Value>,
    /// Days of week for schedule
    pub schedule_days_of_week: Option<Vec<i64>>,
    /// Schedule timezone
    pub schedule_time_zone: Option<String>,
    /// Times of day for schedule
    pub schedule_times_of_day: Option<Vec<String>>,
    /// Source path/glob
    pub source: Option<String>,
    /// Sync IDs
    pub sync_ids: Option<Vec<i64>>,
    /// Trigger type
    pub trigger: Option<String>,
    /// Actions that trigger this automation
    pub trigger_actions: Option<Vec<String>>,
    /// User ID that owns this automation
    pub user_id: Option<i64>,
    /// User IDs associated with automation
    pub user_ids: Option<Vec<i64>>,
    /// Automation value/configuration
    pub value: Option<serde_json::Value>,
    /// Webhook URL
    pub webhook_url: Option<String>,
}

/// Handler for automation operations
pub struct AutomationHandler {
    client: FilesClient,
}

impl AutomationHandler {
    /// The client the handler sends its requests with.
    pub closed spec fn spec_client(&self) -> FilesClient {
        self.client
    }

    /// Create a new automation handler
    pub fn new(client: FilesClient) -> (h: Self)
        ensures
            h.spec_client() == client,
    {
        Self { client }
    }

    /// The client the handler sends its requests with.
    pub fn client(&self) -> (c: &FilesClient)
        ensures
            *c == self.spec_client(),
    {
        &self.client
    }

    /// The request that lists automations, optionally filtered by automation type.
    pub fn list_request(
        cursor: Option<&str>,
        per_page: Option<i64>,
        automation: Option<&str>,
    ) -> (c: ApiCall)
        ensures
            c.is_plain(Method::Get, "/automations"@ + query_suffix(
                opt_param("cursor"@, opt_view(cursor))
                    + opt_param("per_page"@, opt_int_view(per_page))
                    + opt_param("automation"@, opt_view(automation)),
            )),
    {
        let mut params: Vec<(String, String)> = Vec::new();
        push_opt_str(&mut params, "cursor", cursor);
        push_opt_int(&mut params, "per_page", per_page);
        push_opt_str(&mut params, "automation", automation);
        let mut endpoint = String::from("/automations");
        endpoint.append(query_string(&params).as_str());
        proof {
            assert(pairs_view(params@) =~= opt_param("cursor"@, opt_view(cursor))
                + opt_param("per_page"@, opt_int_view(per_page))
                + opt_param("automation"@, opt_view(automation)));
        }
        ApiCall::plain(Method::Get, endpoint)
    }

    /// The request that gets one automation.
    pub fn get_request(id: i64) -> (c: ApiCall)
        ensures
            c.is_plain(Method::Get, "/automations/"@ + int_decimal(id as int)),
    {
        let mut endpoint = String::from("/automations/");
        endpoint.append(i64_text(id).as_str());
        ApiCall::plain(Method::Get, endpoint)
    }

    /// The request that creates an automation.
    pub fn create_request(
        automation: &str,
        source: Option<&str>,
        destination: Option<&str>,
        destinations: Option<Vec<String>>,
        interval: Option<&str>,
        path: Option<&str>,
        trigger: Option<&str>,
    ) -> (c: ApiCall)
        ensures
            c.has_fields(Method::Post, "/automations"@,
                seq![("automation"@, FieldSpec::Str(automation@))]
                    + opt_field("source"@, opt_str_field(source))
                    + opt_field("destination"@, opt_str_field(destination))
                    + opt_field("destinations"@, opt_str_list_field(destinations))
                    + opt_field("interval"@, opt_str_field(interval))
                    + opt_field("path"@, opt_str_field(path))
                    + opt_field("trigger"@, opt_str_field(trigger))),
    {
        let mut json = JsonBody::new();
        json.set("automation", JsonField::Str(String::from(automation)));
        json.set_opt_str("source", source);
        json.set_opt_str("destination", destination);
        json.set_opt_str_list("destinations", destinations);
        json.set_opt_str("interval", interval);
        json.set_opt_str("path", path);
        json.set_opt_str("trigger", trigger);
        proof {
            assert(json.spec_fields() =~= seq![("automation"@, FieldSpec::Str(automation@))]
                + opt_field("source"@, opt_str_field(source))
                + opt_field("destination"@, opt_str_field(destination))
                + opt_field("destinations"@, opt_str_list_field(destinations))
                + opt_field("interval"@, opt_str_field(interval))
                + opt_field("path"@, opt_str_field(path))
                + opt_field("trigger"@, opt_str_field(trigger)));
        }
        ApiCall::with_fields(Method::Post, String::from("/automations"), json)
    }

    /// The request that updates an automation; only the given fields change.
    pub fn update_request(
        id: i64,
        source: Option<&str>,
        destination: Option<&str>,
        interval: Option<&str>,
        disabled: Option<bool>,
    ) -> (c: ApiCall)
        ensures
            c.has_fields(Method::Patch, "/automations/"@ + int_decimal(id as int),
                opt_field("source"@, opt_str_field(source))
                    + opt_field("destination"@, opt_str_field(destination))
                    + opt_field("interval"@, opt_str_field(interval))
                    + opt_field("disabled"@, opt_bool_field(disabled))),
    {
        let mut json = JsonBody::new();
        json.set_opt_str("source", source);
        json.set_opt_str("destination", destination);
        json.set_opt_str("interval", interval);
        json.set_opt_bool("disabled", disabled);
        let mut endpoint = String::from("/automations/");
        endpoint.append(i64_text(id).as_str());
        proof {
            assert(json.spec_fields() =~= opt_field("source"@, opt_str_field(source))
                + opt_field("destination"@, opt_str_field(destination))
                + opt_field("interval"@, opt_str_field(interval))
                + opt_field("disabled"@, opt_bool_field(disabled)));
        }
        ApiCall::with_fields(Method::Patch, endpoint, json)
    }

    /// The request that deletes an automation.
    pub fn delete_request(id: i64) -> (c: ApiCall)
        ensures
            c.is_plain(Method::Delete, "/automations/"@ + int_decimal(id as int)),
    {
        let mut endpoint = String::from("/automations/");
        endpoint.append(i64_text(id).as_str());
        ApiCall::plain(Method::Delete, endpoint)
    }

    /// The request that runs an automation now.
    pub fn manual_run_request(id: i64) -> (c: ApiCall)
        ensures
            c.has_fields(Method::Post, "/automations/"@ + int_decimal(id as int) + "/manual_run"@,
                Seq::<(Seq<char>, FieldSpec)>::empty()),
    {
        let mut json = JsonBody::new();
        let mut endpoint = String::from("/automations/");
        endpoint.append(i64_text(id).as_str());
        endpoint.append("/manual_run");
        ApiCall::with_fields(Method::Post, endpoint, json)
    }
}

} // verus!
