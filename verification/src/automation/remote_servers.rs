//! Remote Server operations
//!
//! Remote Servers represent connections to external storage providers like S3, Azure,
//! FTP/SFTP servers, and more for syncing or mounting.

use vstd::prelude::*;
use crate::client::{pairs_view, FilesClient, Method};
use crate::request::{
    opt_bool_field, opt_field, opt_int_field, opt_int_view, opt_param, opt_str_field, opt_view,
    push_opt_int, push_opt_str, query_string, query_suffix, ApiCall, FieldSpec, JsonBody, JsonField,
};
use crate::text::{i64_text, int_decimal};

verus! {

/// A Remote Server entity
#[derive(Debug, Clone)]
pub struct RemoteServerEntity {
    /// Remote server ID
    pub id: Option<i64>,
    /// Server type (e.g., s3, azure, ftp, sftp)
    pub server_type: Option<String>,
    /// Server name
    pub name: Option<String>,
    /// Authentication method
    pub authentication_method: Option<String>,
    /// Hostname (for FTP/SFTP)
    pub hostname: Option<String>,
    /// Port (for FTP/SFTP)
    pub port: Option<i64>,
    /// Username
    pub username: Option<String>,
    /// Remote home path
    pub remote_home_path: Option<String>,
    /// Use SSL
    pub ssl: Option<String>,
    /// Max connections
    pub max_connections: Option<i64>,
    /// Pin to site region
    pub pin_to_site_region: Option<bool>,
    /// Pinned region
    pub pinned_region: Option<String>,
    /// S3 bucket name
    pub s3_bucket: Option<String>,
    /// S3 region
    pub s3_region: Option<String>,
    /// AWS access key
    pub aws_access_key: Option<String>,
    /// Server host key (SSH)
    pub server_host_key: Option<String>,
    /// Server certificate
    pub server_certificate: Option<String>,
    /// Azure Blob storage account
    pub azure_blob_storage_account: Option<String>,
    /// Azure Blob storage container
    pub azure_blob_storage_container: Option<String>,
    /// Azure Blob storage DNS suffix
    pub azure_blob_storage_dns_suffix: Option<String>,
    /// Azure Blob hierarchical namespace
    pub azure_blob_storage_hierarchical_namespace: Option<bool>,
    /// Azure Files storage account
    pub azure_files_storage_account: Option<String>,
    /// Azure Files storage share name
    pub azure_files_storage_share_name: Option<String>,
    /// Azure Files storage DNS suffix
    pub azure_files_storage_dns_suffix: Option<String>,
    /// Backblaze B2 bucket
    pub backblaze_b2_bucket: Option<String>,
    /// Backblaze B2 S3 endpoint
    pub backblaze_b2_s3_endpoint: Option<String>,
    /// Wasabi bucket
    pub wasabi_bucket: Option<String>,
    /// Wasabi region
    pub wasabi_region: Option<String>,
    /// Wasabi access key
    pub wasabi_access_key: Option<String>,
    /// Google Cloud Storage bucket
    pub google_cloud_storage_bucket: Option<String>,
    /// Google Cloud Storage project ID
    pub google_cloud_storage_project_id: Option<String>,
    /// S3-compatible access key
    pub s3_compatible_access_key: Option<String>,
    /// S3-compatible bucket
    pub s3_compatible_bucket: Option<String>,
    /// S3-compatible endpoint
    pub s3_compatible_endpoint: Option<String>,
    /// S3-compatible region
    pub s3_compatible_region: Option<String>,
    /// Files Agent API token
    pub files_agent_api_token: Option<String>,
    /// Files Agent root
    pub files_agent_root: Option<String>,
    /// Files Agent permission set
    pub files_agent_permission_set: Option<String>,
    /// Files Agent version
    pub files_agent_version: Option<String>,
    /// Filebase bucket
    pub filebase_bucket: Option<String>,
    /// Filebase access key
    pub filebase_access_key: Option<String>,
    /// Cloudflare bucket
    pub cloudflare_bucket: Option<String>,
    /// Cloudflare access key
    pub cloudflare_access_key: Option<String>,
    /// Cloudflare endpoint
    pub cloudflare_endpoint: Option<String>,
    /// Dropbox teams
    pub dropbox_teams: Option<bool>,
    /// Linode bucket
    pub linode_bucket: Option<String>,
    /// Linode access key
    pub linode_access_key: Option<String>,
    /// Linode region
    pub linode_region: Option<String>,
    /// OneDrive account type
    pub one_drive_account_type: Option<String>,
    /// Server disabled
    pub disabled: Option<bool>,
    /// Supports versioning
    pub supports_versioning: Option<bool>,
    /// Enable dedicated IPs
    pub enable_dedicated_ips: Option<bool>,
    /// Auth account name
    pub auth_account_name: Option<String>,
    /// Auth status
    pub auth_status: Option<String>,
    /// Google Cloud Storage S3-compatible access key
    pub google_cloud_storage_s3_compatible_access_key: Option<String>,
}

/// Handler for remote servers
pub struct RemoteServerHandler {
    client: FilesClient,
}

impl RemoteServerHandler {
    /// The client the handler sends its requests with.
    pub closed spec fn spec_client(&self) -> FilesClient {
        self.client
    }

    /// Creates a new handler
    pub fn new(client: FilesClient) -> (h: Self)
        ensures
            h.spec_client() == client,
    {
        Self { client }
    }

    /// The client the handler sends its requests with.
    pub fn client(&self) -> (c: &FilesClient)
        ensures
            *c == self.spec_client(),
    {
        &self.client
    }

    /// The request that lists remote servers.
    pub fn list_request(cursor: Option<&str>, per_page: Option<i64>) -> (c: ApiCall)
        ensures
            c.is_plain(Method::Get, "/remote_servers"@ + query_suffix(
                opt_param("cursor"@, opt_view(cursor))
                    + opt_param("per_page"@, opt_int_view(per_page)),
            )),
    {
        let mut params: Vec<(String, String)> = Vec::new();
        push_opt_str(&mut params, "cursor", cursor);
        push_opt_int(&mut params, "per_page", per_page);
        let mut endpoint = String::from("/remote_servers");
        endpoint.append(query_string(&params).as_str());
        proof {
            assert(pairs_view(params@) =~= opt_param("cursor"@, opt_view(cursor))
                + opt_param("per_page"@, opt_int_view(per_page)));
        }
        ApiCall::plain(Method::Get, endpoint)
    }

    /// The request that gets one remote server.
    pub fn get_request(id: i64) -> (c: ApiCall)
        ensures
            c.is_plain(Method::Get, "/remote_servers/"@ + int_decimal(id as int)),
    {
        let mut endpoint = String::from("/remote_servers/");
        endpoint.append(i64_text(id).as_str());
        ApiCall::plain(Method::Get, endpoint)
    }

    /// The request that gets the configuration file of a remote server.
    pub fn get_configuration_file_request(id: i64) -> (c: ApiCall)
        ensures
            c.is_plain(Method::Get, "/remote_servers/"@ + int_decimal(id as int) + "/configuration_file"@),
    {
        let mut endpoint = String::from("/remote_servers/");
        endpoint.append(i64_text(id).as_str());
        endpoint.append("/configuration_file");
        ApiCall::plain(Method::Get, endpoint)
    }

    /// The request that creates a remote server.
    pub fn create_request(
        name: &str,
        server_type: &str,
        hostname: Option<&str>,
        username: Option<&str>,
        port: Option<i64>,
        s3_bucket: Option<&str>,
        s3_region: Option<&str>,
    ) -> (c: ApiCall)
        ensures
            c.has_fields(Method::Post, "/remote_servers"@,
                seq![("name"@, FieldSpec::Str(name@))]
                    + seq![("server_type"@, FieldSpec::Str(server_type@))]
                    + opt_field("hostname"@, opt_str_field(hostname))
                    + opt_field("username"@, opt_str_field(username))
                    + opt_field("port"@, opt_int_field(port))
                    + opt_field("s3_bucket"@, opt_str_field(s3_bucket))
                    + opt_field("s3_region"@, opt_str_field(s3_region))),
    {
        let mut json = JsonBody::new();
        json.set("name", JsonField::Str(String::from(name)));
        json.set("server_type", JsonField::Str(String::from(server_type)));
        json.set_opt_str("hostname", hostname);
        json.set_opt_str("username", username);
        json.set_opt_int("port", port);
        json.set_opt_str("s3_bucket", s3_bucket);
        json.set_opt_str("s3_region", s3_region);
        proof {
            assert(json.spec_fields() =~= seq![("name"@, FieldSpec::Str(name@))]
                + seq![("server_type"@, FieldSpec::Str(server_type@))]
                + opt_field("hostname"@, opt_str_field(hostname))
                + opt_field("username"@, opt_str_field(username))
                + opt_field("port"@, opt_int_field(port))
                + opt_field("s3_bucket"@, opt_str_field(s3_bucket))
                + opt_field("s3_region"@, opt_str_field(s3_region)));
        }
        ApiCall::with_fields(Method::Post, String::from("/remote_servers"), json)
    }

    /// The request that updates a remote server; only the given fields change.
    pub fn update_request(
        id: i64,
        name: Option<&str>,
        hostname: Option<&str>,
        port: Option<i64>,
        disabled: Option<bool>,
    ) -> (c: ApiCall)
        ensures
            c.has_fields(Method::Patch, "/remote_servers/"@ + int_decimal(id as int),
                opt_field("name"@, opt_str_field(name))
                    + opt_field("hostname"@, opt_str_field(hostname))
                    + opt_field("port"@, opt_int_field(port))
                    + opt_field("disabled"@, opt_bool_field(disabled))),
    {
        let mut json = JsonBody::new();
        json.set_opt_str("name", name);
        json.set_opt_str("hostname", hostname);
        json.set_opt_int("port", port);
        json.set_opt_bool("disabled", disabled);
        let mut endpoint = String::from("/remote_servers/");
        endpoint.append(i64_text(id).as_str());
        proof {
            assert(json.spec_fields() =~= opt_field("name"@, opt_str_field(name))
                + opt_field("hostname"@, opt_str_field(hostname))
                + opt_field("port"@, opt_int_field(port))
                + opt_field("disabled"@, opt_bool_field(disabled)));
        }
        ApiCall::with_fields(Method::Patch, endpoint, json)
    }

    /// The request that deletes a remote server.
    pub fn delete_request(id: i64) -> (c: ApiCall)
        ensures
            c.is_plain(Method::Delete, "/remote_servers/"@ + int_decimal(id as int)),
    {
        let mut endpoint = String::from("/remote_servers/");
        endpoint.append(i64_text(id).as_str());
        ApiCall::plain(Method::Delete, endpoint)
    }
}

} // verus!
