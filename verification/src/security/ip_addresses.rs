//! IP addresses of the service.

use vstd::prelude::*;
use crate::client::{pairs_view, FilesClient, Method};
use crate::request::{
    opt_int_view, opt_param, opt_string_view, push_opt_int, push_opt_string,
    query_string, query_suffix, ApiCall,
};

verus! {

#[derive(Debug, Clone)]
pub struct IpAddressEntity {
    pub data: serde_json::Map<String, serde_json::Value>,
}

/// Handler for IP addresses
pub struct IpAddressHandler {
    client: FilesClient,
}

impl IpAddressHandler {
    /// The client the handler sends its requests with.
    pub closed spec fn spec_client(&self) -> FilesClient {
        self.client
    }

    /// Creates a new handler
    pub fn new(client: FilesClient) -> (h: Self)
        ensures
            h.spec_client() == client,
    {
        Self { client }
    }

    /// The client the handler sends its requests with.
    pub fn client(&self) -> (c: &FilesClient)
        ensures
            *c == self.spec_client(),
    {
        &self.client
    }

    /// The request that lists IP addresses (answered with cursor headers).
    pub fn list_request(cursor: Option<String>, per_page: Option<i64>) -> (c: ApiCall)
        ensures
            c.is_plain(Method::Get, "/ip_addresses"@ + query_suffix(
                opt_param("cursor"@, opt_string_view(cursor))
                    + opt_param("per_page"@, opt_int_view(per_page)),
            )),
    {
        let mut params: Vec<(String, String)> = Vec::new();
        push_opt_string(&mut params, "cursor", cursor);
        push_opt_int(&mut params, "per_page", per_page);
        let mut endpoint = String::from("/ip_addresses");
        endpoint.append(query_string(&params).as_str());
        proof {
            assert(pairs_view(params@) =~= opt_param("cursor"@, opt_string_view(cursor))
                + opt_param("per_page"@, opt_int_view(per_page)));
        }
        ApiCall::plain(Method::Get, endpoint)
    }

    /// The request that lists the reserved IP addresses.
    pub fn get_reserved_request() -> (c: ApiCall)
        ensures
            c.is_plain(Method::Get, "/ip_addresses/reserved"@),
    {
        ApiCall::plain(Method::Get, String::from("/ip_addresses/reserved"))
    }

    /// The request that lists the reserved ExaVault IP addresses.
    pub fn get_exavault_reserved_request() -> (c: ApiCall)
        ensures
            c.is_plain(Method::Get, "/ip_addresses/exavault-reserved"@),
    {
        ApiCall::plain(Method::Get, String::from("/ip_addresses/exavault-reserved"))
    }

    /// The request that lists the reserved SmartFile IP addresses.
    pub fn get_smartfile_reserved_request() -> (c: ApiCall)
        ensures
            c.is_plain(Method::Get, "/ip_addresses/smartfile-reserved"@),
    {
        ApiCall::plain(Method::Get, String::from("/ip_addresses/smartfile-reserved"))
    }
}

} // verus!
