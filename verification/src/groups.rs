//! Group management operations
//!
//! List, create, update and delete groups, and manage their members.

use vstd::prelude::*;
use crate::client::{pairs_view, FilesClient, Method};
use crate::request::{
    opt_field, opt_i32_view, opt_int_list_field, opt_param, opt_str_field, opt_string_view,
    push_opt_i32, push_opt_string, trailing_params, trailing_query, ApiCall,
    FieldSpec, JsonBody, JsonField,
};
use crate::text::{i64_text, int_decimal};

verus! {

/// Group entity from Files.com API
#[derive(Debug, Clone)]
pub struct GroupEntity {
    /// Group ID
    pub id: Option<i64>,
    /// Group name
    pub name: Option<String>,
    /// Notes about the group
    pub notes: Option<String>,
    /// Admin user IDs
    pub admin_ids: Option<Vec<i64>>,
    /// User IDs in this group
    pub user_ids: Option<Vec<i64>>,
    /// Usernames in this group
    pub usernames: Option<Vec<String>>,
    /// Allowed IP addresses
    pub allowed_ips: Option<String>,
    /// FTP permission
    pub ftp_permission: Option<bool>,
    /// SFTP permission
    pub sftp_permission: Option<bool>,
    /// WebDAV permission
    pub dav_permission: Option<bool>,
    /// REST API permission
    pub restapi_permission: Option<bool>,
    /// Site ID
    pub site_id: Option<i64>,
}

/// Handler for group operations
pub struct GroupHandler {
    client: FilesClient,
}

impl GroupHandler {
    /// The client the handler sends its requests with.
    pub closed spec fn spec_client(&self) -> FilesClient {
        self.client
    }

    /// Creates a new GroupHandler
    pub fn new(client: FilesClient) -> (h: Self)
        ensures
            h.spec_client() == client,
    {
        Self { client }
    }

    /// The client the handler sends its requests with.
    pub fn client(&self) -> (c: &FilesClient)
        ensures
            *c == self.spec_client(),
    {
        &self.client
    }

    /// The request that lists groups.
    pub fn list_request(cursor: Option<String>, per_page: Option<i32>) -> (c: ApiCall)
        ensures
            c.is_plain(Method::Get, "/groups?"@ + trailing_params(
                opt_param("cursor"@, opt_string_view(cursor))
                    + opt_param("per_page"@, opt_i32_view(per_page)),
            )),
    {
        let mut params: Vec<(String, String)> = Vec::new();
        push_opt_string(&mut params, "cursor", cursor);
        push_opt_i32(&mut params, "per_page", per_page);
        let endpoint = trailing_query("/groups?", &params);
        proof {
            assert(pairs_view(params@) =~= opt_param("cursor"@, opt_string_view(cursor))
                + opt_param("per_page"@, opt_i32_view(per_page)));
        }
        ApiCall::plain(Method::Get, endpoint)
    }

    /// The request that gets one group.
    pub fn get_request(id: i64) -> (c: ApiCall)
        ensures
            c.is_plain(Method::Get, "/groups/"@ + int_decimal(id as int)),
    {
        let mut endpoint = String::from("/groups/");
        endpoint.append(i64_text(id).as_str());
        ApiCall::plain(Method::Get, endpoint)
    }

    /// The request that creates a group.
    pub fn create_request(
        name: &str,
        notes: Option<&str>,
        user_ids: Option<Vec<i64>>,
    ) -> (c: ApiCall)
        ensures
            c.has_fields(Method::Post, "/groups"@,
                seq![("name"@, FieldSpec::Str(name@))]
                    + opt_field("notes"@, opt_str_field(notes))
                    + opt_field("user_ids"@, opt_int_list_field(user_ids))),
    {
        let mut json = JsonBody::new();
        json.set("name", JsonField::Str(String::from(name)));
        json.set_opt_str("notes", notes);
        json.set_opt_int_list("user_ids", user_ids);
        proof {
            assert(json.spec_fields() =~= seq![("name"@, FieldSpec::Str(name@))]
                + opt_field("notes"@, opt_str_field(notes))
                + opt_field("user_ids"@, opt_int_list_field(user_ids)));
        }
        ApiCall::with_fields(Method::Post, String::from("/groups"), json)
    }

    /// The request that updates a group; only the given fields change.
    pub fn update_request(id: i64, name: Option<&str>, notes: Option<&str>) -> (c: ApiCall)
        ensures
            c.has_fields(Method::Patch, "/groups/"@ + int_decimal(id as int),
                opt_field("name"@, opt_str_field(name))
                    + opt_field("notes"@, opt_str_field(notes))),
    {
        let mut json = JsonBody::new();
        json.set_opt_str("name", name);
        json.set_opt_str("notes", notes);
        let mut endpoint = String::from("/groups/");
        endpoint.append(i64_text(id).as_str());
        proof {
            assert(json.spec_fields() =~= opt_field("name"@, opt_str_field(name))
                + opt_field("notes"@, opt_str_field(notes)));
        }
        ApiCall::with_fields(Method::Patch, endpoint, json)
    }

    /// The request that deletes a group.
    pub fn delete_request(id: i64) -> (c: ApiCall)
        ensures
            c.is_plain(Method::Delete, "/groups/"@ + int_decimal(id as int)),
    {
        let mut endpoint = String::from("/groups/");
        endpoint.append(i64_text(id).as_str());
        ApiCall::plain(Method::Delete, endpoint)
    }

    /// The request that adds a user to a group.
    pub fn add_user_request(group_id: i64, user_id: i64) -> (c: ApiCall)
        ensures
            c.has_fields(Method::Post, "/groups/"@ + int_decimal(group_id as int) + "/users"@,
                seq![("user_id"@, FieldSpec::Int(user_id as int))]),
    {
        let mut json = JsonBody::new();
        json.set("user_id", JsonField::Int(user_id));
        let mut endpoint = String::from("/groups/");
        endpoint.append(i64_text(group_id).as_str());
        endpoint.append("/users");
        proof {
            assert(json.spec_fields() =~= seq![("user_id"@, FieldSpec::Int(user_id as int))]);
        }
        ApiCall::with_fields(Method::Post, endpoint, json)
    }

    /// The request that removes a user from a group.
    pub fn remove_user_request(group_id: i64, user_id: i64) -> (c: ApiCall)
        ensures
            c.is_plain(Method::Delete, "/groups/"@ + int_decimal(group_id as int) + "/memberships/"@ + int_decimal(user_id as int)),
    {
        let mut endpoint = String::from("/groups/");
        endpoint.append(i64_text(group_id).as_str());
        endpoint.append("/memberships/");
        endpoint.append(i64_text(user_id).as_str());
        ApiCall::plain(Method::Delete, endpoint)
    }
}

} // verus!
