//! Notification operations
//!
//! Notifications send emails when specific actions occur in folders, in batches at
//! configured intervals (5 min, 15 min, hourly, daily).

use vstd::prelude::*;
use crate::client::{pairs_view, FilesClient, Method};
use crate::request::{
    opt_bool_field, opt_field, opt_int_field, opt_int_view, opt_param, opt_str_field, opt_view,
    push_opt_int, push_opt_str, query_string, query_suffix, ApiCall, JsonBody,
};
use crate::text::{i64_text, int_decimal};

verus! {

/// Notification send interval enum
#[derive(Debug, Clone)]
pub enum SendInterval {
    /// Every 5 minutes
    FiveMinutes,
    /// Every 15 minutes
    FifteenMinutes,
    /// Hourly
    Hourly,
    /// Daily
    Daily,
}

/// Unsubscribe reason enum
#[derive(Debug, Clone)]
pub enum UnsubscribedReason {
    /// Not unsubscribed (`none` on the wire)
    NoReason,
    /// User clicked unsubscribe link
    UnsubscribeLinkClicked,
    /// Mail bounced
    MailBounced,
    /// Mail marked as spam
    MailMarkedAsSpam,
}

/// A Notification entity
#[derive(Debug, Clone)]
pub struct NotificationEntity {
    /// Notification ID
    pub id: Option<i64>,
    /// Folder path to notify on
    pub path: Option<String>,
    /// Group ID to receive notifications
    pub group_id: Option<i64>,
    /// Group name
    pub group_name: Option<String>,
    /// Only notify on actions by these groups
    pub triggering_group_ids: Option<Vec<i64>>,
    /// Only notify on actions by these users
    pub triggering_user_ids: Option<Vec<i64>>,
    /// Notify on share recipient actions?
    pub trigger_by_share_recipients: Option<bool>,
    /// Send notifications about user's own activity?
    pub notify_user_actions: Option<bool>,
    /// Trigger on file copy?
    pub notify_on_copy: Option<bool>,
    /// Trigger on file delete?
    pub notify_on_delete: Option<bool>,
    /// Trigger on file download?
    pub notify_on_download: Option<bool>,
    /// Trigger on file move?
    pub notify_on_move: Option<bool>,
    /// Trigger on file upload/update?
    pub notify_on_upload: Option<bool>,
    /// Apply recursively to subfolders?
    pub recursive: Option<bool>,
    /// Email send interval
    pub send_interval: Option<String>,
    /// Custom message in notification emails
    pub message: Option<String>,
    /// Filenames to trigger on (with wildcards)
    pub triggering_filenames: Option<Vec<String>>,
    /// Is user unsubscribed?
    pub unsubscribed: Option<bool>,
    /// Unsubscribe reason
    pub unsubscribed_reason: Option<String>,
    /// User ID
    pub user_id: Option<i64>,
    /// Username
    pub username: Option<String>,
    /// Email suppressed due to bounce/spam?
    pub suppressed_email: Option<bool>,
}

/// Handler for notifications
pub struct NotificationHandler {
    client: FilesClient,
}

impl NotificationHandler {
    /// The client the handler sends its requests with.
    pub closed spec fn spec_client(&self) -> FilesClient {
        self.client
    }

    /// Creates a new handler
    pub fn new(client: FilesClient) -> (h: Self)
        ensures
            h.spec_client() == client,
    {
        Self { client }
    }

    /// The client the handler sends its requests with.
    pub fn client(&self) -> (c: &FilesClient)
        ensures
            *c == self.spec_client(),
    {
        &self.client
    }

    /// The request that lists notifications.
    pub fn list_request(
        cursor: Option<&str>,
        per_page: Option<i64>,
        path: Option<&str>,
        group_id: Option<i64>,
    ) -> (c: ApiCall)
        ensures
            c.is_plain(Method::Get, "/notifications"@ + query_suffix(
                opt_param("cursor"@, opt_view(cursor))
                    + opt_param("per_page"@, opt_int_view(per_page))
                    + opt_param("path"@, opt_view(path))
                    + opt_param("group_id"@, opt_int_view(group_id)),
            )),
    {
        let mut params: Vec<(String, String)> = Vec::new();
        push_opt_str(&mut params, "cursor", cursor);
        push_opt_int(&mut params, "per_page", per_page);
        push_opt_str(&mut params, "path", path);
        push_opt_int(&mut params, "group_id", group_id);
        let mut endpoint = String::from("/notifications");
        endpoint.append(query_string(&params).as_str());
        proof {
            assert(pairs_view(params@) =~= opt_param("cursor"@, opt_view(cursor))
                + opt_param("per_page"@, opt_int_view(per_page))
                + opt_param("path"@, opt_view(path))
                + opt_param("group_id"@, opt_int_view(group_id)));
        }
        ApiCall::plain(Method::Get, endpoint)
    }

    /// The request that gets one notification.
    pub fn get_request(id: i64) -> (c: ApiCall)
        ensures
            c.is_plain(Method::Get, "/notifications/"@ + int_decimal(id as int)),
    {
        let mut endpoint = String::from("/notifications/");
        endpoint.append(i64_text(id).as_str());
        ApiCall::plain(Method::Get, endpoint)
    }

    /// The request that creates a notification.
    pub fn create_request(
        path: Option<&str>,
        group_id: Option<i64>,
        notify_on_upload: Option<bool>,
        notify_on_download: Option<bool>,
        notify_on_delete: Option<bool>,
        send_interval: Option<&str>,
        recursive: Option<bool>,
        message: Option<&str>,
    ) -> (c: ApiCall)
        ensures
            c.has_fields(Method::Post, "/notifications"@,
                opt_field("path"@, opt_str_field(path))
                    + opt_field("group_id"@, opt_int_field(group_id))
                    + opt_field("notify_on_upload"@, opt_bool_field(notify_on_upload))
                    + opt_field("notify_on_download"@, opt_bool_field(notify_on_download))
                    + opt_field("notify_on_delete"@, opt_bool_field(notify_on_delete))
                    + opt_field("send_interval"@, opt_str_field(send_interval))
                    + opt_field("recursive"@, opt_bool_field(recursive))
                    + opt_field("message"@, opt_str_field(message))),
    {
        let mut json = JsonBody::new();
        json.set_opt_str("path", path);
        json.set_opt_int("group_id", group_id);
        json.set_opt_bool("notify_on_upload", notify_on_upload);
        json.set_opt_bool("notify_on_download", notify_on_download);
        json.set_opt_bool("notify_on_delete", notify_on_delete);
        json.set_opt_str("send_interval", send_interval);
        json.set_opt_bool("recursive", recursive);
        json.set_opt_str("message", message);
        proof {
            assert(json.spec_fields() =~= opt_field("path"@, opt_str_field(path))
                + opt_field("group_id"@, opt_int_field(group_id))
                + opt_field("notify_on_upload"@, opt_bool_field(notify_on_upload))
                + opt_field("notify_on_download"@, opt_bool_field(notify_on_download))
                + opt_field("notify_on_delete"@, opt_bool_field(notify_on_delete))
                + opt_field("send_interval"@, opt_str_field(send_interval))
                + opt_field("recursive"@, opt_bool_field(recursive))
                + opt_field("message"@, opt_str_field(message)));
        }
        ApiCall::with_fields(Method::Post, String::from("/notifications"), json)
    }

    /// The request that updates a notification; only the given fields change.
    pub fn update_request(
        id: i64,
        notify_on_upload: Option<bool>,
        notify_on_download: Option<bool>,
        notify_on_delete: Option<bool>,
        send_interval: Option<&str>,
    ) -> (c: ApiCall)
        ensures
            c.has_fields(Method::Patch, "/notifications/"@ + int_decimal(id as int),
                opt_field("notify_on_upload"@, opt_bool_field(notify_on_upload))
                    + opt_field("notify_on_download"@, opt_bool_field(notify_on_download))
                    + opt_field("notify_on_delete"@, opt_bool_field(notify_on_delete))
                    + opt_field("send_interval"@, opt_str_field(send_interval))),
    {
        let mut json = JsonBody::new();
        json.set_opt_bool("notify_on_upload", notify_on_upload);
        json.set_opt_bool("notify_on_download", notify_on_download);
        json.set_opt_bool("notify_on_delete", notify_on_delete);
        json.set_opt_str("send_interval", send_interval);
        let mut endpoint = String::from("/notifications/");
        endpoint.append(i64_text(id).as_str());
        proof {
            assert(json.spec_fields() =~= opt_field("notify_on_upload"@, opt_bool_field(notify_on_upload))
                + opt_field("notify_on_download"@, opt_bool_field(notify_on_download))
                + opt_field("notify_on_delete"@, opt_bool_field(notify_on_delete))
                + opt_field("send_interval"@, opt_str_field(send_interval)));
        }
        ApiCall::with_fields(Method::Patch, endpoint, json)
    }

    /// The request that deletes a notification.
    pub fn delete_request(id: i64) -> (c: ApiCall)
        ensures
            c.is_plain(Method::Delete, "/notifications/"@ + int_decimal(id as int)),
    {
        let mut endpoint = String::from("/notifications/");
        endpoint.append(i64_text(id).as_str());
        ApiCall::plain(Method::Delete, endpoint)
    }
}

} // verus!
