//! Login links of connected accounts: the parameters of the call that creates
//! one.

use vstd::prelude::*;
use vstd::string::StringExecFns;
use crate::ids::AccountId;
use crate::request::{RequestDescription, RequestModel, StripeMethod};

verus! {

#[derive(Copy, Clone, Debug)]
pub struct CreateAccountLoginLink<'a> {
    /// Specifies which fields in the response should be expanded.
    pub expand: Option<&'a [&'a str]>,
}

impl<'a> CreateAccountLoginLink<'a> {
    pub fn new() -> (out: Self)
        ensures
            out == (CreateAccountLoginLink { expand: None }),
    {
        Self { expand: None }
    }
}

impl<'a> CreateAccountLoginLink<'a> {
    /// Creates a single-use login link for an Express account to access their Stripe dashboard.
    ///
    /// **You may only create login links for [Express accounts](https://stripe.com/docs/connect/express-accounts) connected to your platform**.
    ///
    /// This builds the method and the path of the call, without its parameters:
    /// the library does not serialize them. A caller that has their serialized
    /// form attaches it with `RequestDescription::params`.
    pub fn build(&self, account: &AccountId) -> (request: RequestDescription)
        ensures
            request@ == (RequestModel { method: StripeMethod::Post, path: "/accounts/"@ + account@ + "/login_links"@, query: None, body: None, idempotency_key: None }),
    {
        let mut path = String::from_str("/accounts/");
        path.append(account.as_str());
        path.append("/login_links");
        RequestDescription::new(StripeMethod::Post, path)
    }
}

} // verus!
