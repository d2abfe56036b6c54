//! Inbox upload operations
//!
//! Uploads received through inboxes, and the registrations of their senders.

use vstd::prelude::*;
use crate::client::{pairs_view, FilesClient, Method};
use crate::request::{
    opt_int_view, opt_json_view, opt_param, opt_string_view, opt_value_text, opt_view,
    push_opt_int, push_opt_str, push_opt_string, query_string, query_suffix, ApiCall,
};

verus! {

/// An Inbox Registration entity (embedded in InboxUpload)
#[derive(Debug, Clone)]
pub struct InboxRegistrationEntity {
    /// Registration code
    pub code: Option<String>,
    /// Registrant name
    pub name: Option<String>,
    /// Registrant company
    pub company: Option<String>,
    /// Registrant email
    pub email: Option<String>,
    /// Registrant IP address
    pub ip: Option<String>,
    /// Clickwrap agreement body
    pub clickwrap_body: Option<String>,
    /// Form field set ID
    pub form_field_set_id: Option<i64>,
    /// Form field data
    pub form_field_data: Option<serde_json::Value>,
    /// Inbox ID
    pub inbox_id: Option<i64>,
    /// Inbox recipient ID
    pub inbox_recipient_id: Option<i64>,
    /// Inbox title
    pub inbox_title: Option<String>,
    /// Registration creation time
    pub created_at: Option<String>,
}

/// An Inbox Upload entity
#[derive(Debug, Clone)]
pub struct InboxUploadEntity {
    /// Inbox registration details
    pub inbox_registration: Option<InboxRegistrationEntity>,
    /// Upload path
    pub path: Option<String>,
    /// Upload date/time
    pub created_at: Option<String>,
}

/// Handler for inbox uploads
pub struct InboxUploadHandler {
    client: FilesClient,
}

impl InboxUploadHandler {
    /// The client the handler sends its requests with.
    pub closed spec fn spec_client(&self) -> FilesClient {
        self.client
    }

    /// Creates a new InboxUploadHandler
    pub fn new(client: FilesClient) -> (h: Self)
        ensures
            h.spec_client() == client,
    {
        Self { client }
    }

    /// The client the handler sends its requests with.
    pub fn client(&self) -> (c: &FilesClient)
        ensures
            *c == self.spec_client(),
    {
        &self.client
    }

    /// The request that lists inbox uploads; `sort_by` and `filter` are sent as their JSON text.
    pub fn list_request(
        cursor: Option<&str>,
        per_page: Option<i64>,
        sort_by: Option<serde_json::Value>,
        filter: Option<serde_json::Value>,
        inbox_registration_id: Option<i64>,
        inbox_id: Option<i64>,
    ) -> (c: ApiCall)
        ensures
            c.is_plain(Method::Get, "/inbox_uploads"@ + query_suffix(
                opt_param("cursor"@, opt_view(cursor))
                    + opt_param("per_page"@, opt_int_view(per_page))
                    + opt_param("sort_by"@, opt_json_view(sort_by))
                    + opt_param("filter"@, opt_json_view(filter))
                    + opt_param("inbox_registration_id"@, opt_int_view(inbox_registration_id))
                    + opt_param("inbox_id"@, opt_int_view(inbox_id)),
            )),
    {
        let sort_text = opt_value_text(&sort_by);
        let filter_text = opt_value_text(&filter);
        Self::list_request_from_texts(cursor, per_page, sort_text, filter_text, inbox_registration_id, inbox_id)
    }

    /// The request that lists inbox uploads, given the JSON text of `sort_by` and `filter`.
    pub fn list_request_from_texts(
        cursor: Option<&str>,
        per_page: Option<i64>,
        sort_by: Option<String>,
        filter: Option<String>,
        inbox_registration_id: Option<i64>,
        inbox_id: Option<i64>,
    ) -> (c: ApiCall)
        ensures
            c.is_plain(Method::Get, "/inbox_uploads"@ + query_suffix(
                opt_param("cursor"@, opt_view(cursor))
                    + opt_param("per_page"@, opt_int_view(per_page))
                    + opt_param("sort_by"@, opt_string_view(sort_by))
                    + opt_param("filter"@, opt_string_view(filter))
                    + opt_param("inbox_registration_id"@, opt_int_view(inbox_registration_id))
                    + opt_param("inbox_id"@, opt_int_view(inbox_id)),
            )),
    {
        let mut params: Vec<(String, String)> = Vec::new();
        push_opt_str(&mut params, "cursor", cursor);
        push_opt_int(&mut params, "per_page", per_page);
        push_opt_string(&mut params, "sort_by", sort_by);
        push_opt_string(&mut params, "filter", filter);
        push_opt_int(&mut params, "inbox_registration_id", inbox_registration_id);
        push_opt_int(&mut params, "inbox_id", inbox_id);
        let mut endpoint = String::from("/inbox_uploads");
        endpoint.append(query_string(&params).as_str());
        proof {
            assert(pairs_view(params@) =~= opt_param("cursor"@, opt_view(cursor))
                + opt_param("per_page"@, opt_int_view(per_page))
                + opt_param("sort_by"@, opt_string_view(sort_by))
                + opt_param("filter"@, opt_string_view(filter))
                + opt_param("inbox_registration_id"@, opt_int_view(inbox_registration_id))
                + opt_param("inbox_id"@, opt_int_view(inbox_id)));
        }
        ApiCall::plain(Method::Get, endpoint)
    }
}

} // verus!
