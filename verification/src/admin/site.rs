//! Site operations
//!
//! Site represents site-wide settings and configuration for your Files.com account.
//! The site entity holds a floating-point session expiry, which this library does not
//! model; its definition lives with the code that deserializes it.

use vstd::prelude::*;
use crate::client::{FilesClient, Method};
use crate::request::{opt_bool_field, opt_field, opt_str_field, ApiCall, JsonBody};

verus! {

/// Site usage statistics
#[derive(Debug, Clone)]
pub struct SiteUsageEntity {
    /// Current storage usage (bytes)
    pub current_storage: Option<i64>,
    /// Deleted files count
    pub deleted_files_counted_in_minimum: Option<i64>,
    /// Deleted files storage (bytes)
    pub deleted_files_storage: Option<i64>,
    /// Root storage (bytes)
    pub root_storage: Option<i64>,
    /// Total billable transfer (bytes)
    pub total_billable_transfer_used: Option<i64>,
    /// Usage by top-level directory
    pub usage_by_top_level_dir: Option<serde_json::Value>,
}

/// Handler for site operations
pub struct SiteHandler {
    client: FilesClient,
}

impl SiteHandler {
    /// The client the handler sends its requests with.
    pub closed spec fn spec_client(&self) -> FilesClient {
        self.client
    }

    /// Creates a new site handler
    pub fn new(client: FilesClient) -> (h: Self)
        ensures
            h.spec_client() == client,
    {
        Self { client }
    }

    /// The client the handler sends its requests with.
    pub fn client(&self) -> (c: &FilesClient)
        ensures
            *c == self.spec_client(),
    {
        &self.client
    }

    /// The request that gets the site settings.
    pub fn get_request() -> (c: ApiCall)
        ensures
            c.is_plain(Method::Get, "/site"@),
    {
        ApiCall::plain(Method::Get, String::from("/site"))
    }

    /// The request that gets the site usage.
    pub fn get_usage_request() -> (c: ApiCall)
        ensures
            c.is_plain(Method::Get, "/site/usage"@),
    {
        ApiCall::plain(Method::Get, String::from("/site/usage"))
    }

    /// The request that updates site settings.
    pub fn update_request(
        name: Option<&str>,
        subdomain: Option<&str>,
        domain: Option<&str>,
        email: Option<&str>,
        allowed_ips: Option<&str>,
        require_2fa: Option<bool>,
    ) -> (c: ApiCall)
        ensures
            c.has_fields(Method::Patch, "/site"@,
                opt_field("name"@, opt_str_field(name))
                    + opt_field("subdomain"@, opt_str_field(subdomain))
                    + opt_field("domain"@, opt_str_field(domain))
                    + opt_field("email"@, opt_str_field(email))
                    + opt_field("allowed_ips"@, opt_str_field(allowed_ips))
                    + opt_field("require_2fa"@, opt_bool_field(require_2fa))),
    {
        let mut json = JsonBody::new();
        json.set_opt_str("name", name);
        json.set_opt_str("subdomain", subdomain);
        json.set_opt_str("domain", domain);
        json.set_opt_str("email", email);
        json.set_opt_str("allowed_ips", allowed_ips);
        json.set_opt_bool("require_2fa", require_2fa);
        proof {
            assert(json.spec_fields() =~= opt_field("name"@, opt_str_field(name))
                + opt_field("subdomain"@, opt_str_field(subdomain))
                + opt_field("domain"@, opt_str_field(domain))
                + opt_field("email"@, opt_str_field(email))
                + opt_field("allowed_ips"@, opt_str_field(allowed_ips))
                + opt_field("require_2fa"@, opt_bool_field(require_2fa)));
        }
        ApiCall::with_fields(Method::Patch, String::from("/site"), json)
    }
}

} // verus!
