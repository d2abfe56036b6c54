//! Payment operations
//!
//! Payments represent payment transactions for your Files.com account. The payment
//! entities hold amounts as floating-point numbers, which this library does not
//! model; their definitions live with the code that deserializes them.

use vstd::prelude::*;
use crate::client::{pairs_view, FilesClient, Method};
use crate::request::{
    opt_int_view, opt_param, opt_view, push_opt_int, push_opt_str, query_string, query_suffix,
    ApiCall,
};
use crate::text::{i64_text, int_decimal};

verus! {

/// Handler for payments
pub struct PaymentHandler {
    client: FilesClient,
}

impl PaymentHandler {
    /// The client the handler sends its requests with.
    pub closed spec fn spec_client(&self) -> FilesClient {
        self.client
    }

    /// Creates a new handler
    pub fn new(client: FilesClient) -> (h: Self)
        ensures
            h.spec_client() == client,
    {
        Self { client }
    }

    /// The client the handler sends its requests with.
    pub fn client(&self) -> (c: &FilesClient)
        ensures
            *c == self.spec_client(),
    {
        &self.client
    }

    /// The request that lists payments.
    pub fn list_request(cursor: Option<&str>, per_page: Option<i64>) -> (c: ApiCall)
        ensures
            c.is_plain(Method::Get, "/payments"@ + query_suffix(
                opt_param("cursor"@, opt_view(cursor))
                    + opt_param("per_page"@, opt_int_view(per_page)),
            )),
    {
        let mut params: Vec<(String, String)> = Vec::new();
        push_opt_str(&mut params, "cursor", cursor);
        push_opt_int(&mut params, "per_page", per_page);
        let mut endpoint = String::from("/payments");
        endpoint.append(query_string(&params).as_str());
        proof {
            assert(pairs_view(params@) =~= opt_param("cursor"@, opt_view(cursor))
                + opt_param("per_page"@, opt_int_view(per_page)));
        }
        ApiCall::plain(Method::Get, endpoint)
    }

    /// The request that gets one payment.
    pub fn get_request(id: i64) -> (c: ApiCall)
        ensures
            c.is_plain(Method::Get, "/payments/"@ + int_decimal(id as int)),
    {
        let mut endpoint = String::from("/payments/");
        endpoint.append(i64_text(id).as_str());
        ApiCall::plain(Method::Get, endpoint)
    }
}

} // verus!
