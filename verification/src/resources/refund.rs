//! Refunds: the parameters of the calls that list, retrieve, create, update,
//! cancel and expire them.

use vstd::prelude::*;
use std::collections::HashMap;
use vstd::string::StringExecFns;
use crate::ids::RefundId;
use crate::request::{RequestDescription, RequestModel, StripeMethod};
use crate::text::str_eq;
use crate::types::{Currency, RangeQueryTs};

verus! {

#[derive(Copy, Clone, Debug)]
pub struct ListRefund<'a> {
    /// Only return refunds for the charge specified by this charge ID.
    pub charge: Option<&'a str>,
    pub created: Option<RangeQueryTs>,
    /// A cursor for use in pagination.
    /// `ending_before` is an object ID that defines your place in the list.
    /// For instance, if you make a list request and receive 100 objects, starting with `obj_bar`, your subsequent call can include `ending_before=obj_bar` in order to fetch the previous page of the list.
    pub ending_before: Option<&'a str>,
    /// Specifies which fields in the response should be expanded.
    pub expand: Option<&'a [&'a str]>,
    /// A limit on the number of objects to be returned.
    /// Limit can range between 1 and 100, and the default is 10.
    pub limit: Option<i64>,
    /// Only return refunds for the PaymentIntent specified by this ID.
    pub payment_intent: Option<&'a str>,
    /// A cursor for use in pagination.
    /// `starting_after` is an object ID that defines your place in the list.
    /// For instance, if you make a list request and receive 100 objects, ending with `obj_foo`, your subsequent call can include `starting_after=obj_foo` in order to fetch the next page of the list.
    pub starting_after: Option<&'a str>,
}

impl<'a> ListRefund<'a> {
    pub fn new() -> (out: Self)
        ensures
            out == (ListRefund { charge: None, created: None, ending_before: None, expand: None, limit: None, payment_intent: None, starting_after: None }),
    {
        Self { charge: None, created: None, ending_before: None, expand: None, limit: None, payment_intent: None, starting_after: None }
    }
}

impl<'a> ListRefund<'a> {
    /// Returns a list of all refunds you created.
    /// We return the refunds in sorted order, with the most recent refunds appearing first The 10 most recent refunds are always available by default on the Charge object.
    ///
    /// This builds the method and the path of the call, without its parameters:
    /// the library does not serialize them. A caller that has their serialized
    /// form attaches it with `RequestDescription::params`.
    pub fn build(&self) -> (request: RequestDescription)
        ensures
            request@ == (RequestModel { method: StripeMethod::Get, path: "/refunds"@, query: None, body: None, idempotency_key: None }),
    {
        let path = String::from_str("/refunds");
        RequestDescription::new(StripeMethod::Get, path)
    }
}

#[derive(Copy, Clone, Debug)]
pub struct RetrieveRefund<'a> {
    /// Specifies which fields in the response should be expanded.
    pub expand: Option<&'a [&'a str]>,
}

impl<'a> RetrieveRefund<'a> {
    pub fn new() -> (out: Self)
        ensures
            out == (RetrieveRefund { expand: None }),
    {
        Self { expand: None }
    }
}

impl<'a> RetrieveRefund<'a> {
    /// Retrieves the details of an existing refund.
    ///
    /// This builds the method and the path of the call, without its parameters:
    /// the library does not serialize them. A caller that has their serialized
    /// form attaches it with `RequestDescription::params`.
    pub fn build(&self, refund: &RefundId) -> (request: RequestDescription)
        ensures
            request@ == (RequestModel { method: StripeMethod::Get, path: "/refunds/"@ + refund@, query: None, body: None, idempotency_key: None }),
    {
        let mut path = String::from_str("/refunds/");
        path.append(refund.as_str());
        RequestDescription::new(StripeMethod::Get, path)
    }
}

#[derive(Copy, Clone, Debug)]
pub struct CreateRefund<'a> {
    pub amount: Option<i64>,
    /// The identifier of the charge to refund.
    pub charge: Option<&'a str>,
    /// Three-letter [ISO currency code](https://www.iso.org/iso-4217-currency-codes.html), in lowercase.
    /// Must be a [supported currency](https://stripe.com/docs/currencies).
    pub currency: Option<Currency>,
    /// Customer whose customer balance to refund from.
    pub customer: Option<&'a str>,
    /// Specifies which fields in the response should be expanded.
    pub expand: Option<&'a [&'a str]>,
    /// For payment methods without native refund support (e.g., Konbini, PromptPay), use this email from the customer to receive refund instructions.
    pub instructions_email: Option<&'a str>,
    /// Set of [key-value pairs](https://stripe.com/docs/api/metadata) that you can attach to an object.
    /// This can be useful for storing additional information about the object in a structured format.
    /// Individual keys can be unset by posting an empty value to them.
    /// All keys can be unset by posting an empty value to `metadata`.
    pub metadata: Option<&'a HashMap<String, String>>,
    /// Origin of the refund
    pub origin: Option<CreateRefundOrigin>,
    /// The identifier of the PaymentIntent to refund.
    pub payment_intent: Option<&'a str>,
    /// String indicating the reason for the refund.
    /// If set, possible values are `duplicate`, `fraudulent`, and `requested_by_customer`.
    /// If you believe the charge to be fraudulent, specifying `fraudulent` as the reason will add the associated card and email to your [block lists](https://stripe.com/docs/radar/lists), and will also help us improve our fraud detection algorithms.
    pub reason: Option<CreateRefundReason>,
    /// Boolean indicating whether the application fee should be refunded when refunding this charge.
    /// If a full charge refund is given, the full application fee will be refunded.
    /// Otherwise, the application fee will be refunded in an amount proportional to the amount of the charge refunded.
    /// An application fee can be refunded only by the application that created the charge.
    pub refund_application_fee: Option<bool>,
    /// Boolean indicating whether the transfer should be reversed when refunding this charge.
    /// The transfer will be reversed proportionally to the amount being refunded (either the entire or partial amount).
    ///
    /// A transfer can be reversed only by the application that created the charge.
    pub reverse_transfer: Option<bool>,
}

impl<'a> CreateRefund<'a> {
    pub fn new() -> (out: Self)
        ensures
            out == (CreateRefund { amount: None, charge: None, currency: None, customer: None, expand: None, instructions_email: None, metadata: None, origin: None, payment_intent: None, reason: None, refund_application_fee: None, reverse_transfer: None }),
    {
        Self { amount: None, charge: None, currency: None, customer: None, expand: None, instructions_email: None, metadata: None, origin: None, payment_intent: None, reason: None, refund_application_fee: None, reverse_transfer: None }
    }
}

/// Origin of the refund
#[derive(Copy, Clone, Debug, PartialEq, Eq, Structural)]
pub enum CreateRefundOrigin {
    CustomerBalance,
}

impl CreateRefundOrigin {
    /// The name of the value on the wire.
    pub open spec fn wire_name(self) -> Seq<char> {
        match self {
            CreateRefundOrigin::CustomerBalance => "customer_balance"@,
        }
    }

    pub fn as_str(self) -> (name: &'static str)
        ensures
            name@ == self.wire_name(),
    {
        match self {
            CreateRefundOrigin::CustomerBalance => "customer_balance",
        }
    }
}

impl std::str::FromStr for CreateRefundOrigin {
    type Err = ();

    /// Reads a wire name; fails on a string that is the name of no value.
    fn from_str(s: &str) -> (parsed: Result<Self, Self::Err>)
        ensures
            match parsed {
                Ok(v) => v.wire_name() == s@,
                Err(_) => forall|v: CreateRefundOrigin| #[trigger] v.wire_name() != s@,
            },
    {
        if str_eq(s, "customer_balance") {
            Ok(CreateRefundOrigin::CustomerBalance)
        } else {
            Err(())
        }
    }
}

/// Two values of `CreateRefundOrigin` with one wire name are the same value, so
/// reading back what `as_str` gives returns the value it was called on.
pub proof fn lemma_create_refund_origin_wire_names_differ(a: CreateRefundOrigin, b: CreateRefundOrigin)
    requires
        a.wire_name() == b.wire_name(),
    ensures
        a == b,
{
    reveal_strlit("customer_balance");
}

/// String indicating the reason for the refund.
/// If set, possible values are `duplicate`, `fraudulent`, and `requested_by_customer`.
/// If you believe the charge to be fraudulent, specifying `fraudulent` as the reason will add the associated card and email to your [block lists](https://stripe.com/docs/radar/lists), and will also help us improve our fraud detection algorithms.
#[derive(Copy, Clone, Debug, PartialEq, Eq, Structural)]
pub enum CreateRefundReason {
    Duplicate,
    Fraudulent,
    RequestedByCustomer,
}

impl CreateRefundReason {
    /// The name of the value on the wire.
    pub open spec fn wire_name(self) -> Seq<char> {
        match self {
            CreateRefundReason::Duplicate => "duplicate"@,
            CreateRefundReason::Fraudulent => "fraudulent"@,
            CreateRefundReason::RequestedByCustomer => "requested_by_customer"@,
        }
    }

    pub fn as_str(self) -> (name: &'static str)
        ensures
            name@ == self.wire_name(),
    {
        match self {
            CreateRefundReason::Duplicate => "duplicate",
            CreateRefundReason::Fraudulent => "fraudulent",
            CreateRefundReason::RequestedByCustomer => "requested_by_customer",
        }
    }
}

impl std::str::FromStr for CreateRefundReason {
    type Err = ();

    /// Reads a wire name; fails on a string that is the name of no value.
    fn from_str(s: &str) -> (parsed: Result<Self, Self::Err>)
        ensures
            match parsed {
                Ok(v) => v.wire_name() == s@,
                Err(_) => forall|v: CreateRefundReason| #[trigger] v.wire_name() != s@,
            },
    {
        if str_eq(s, "duplicate") {
            Ok(CreateRefundReason::Duplicate)
        } else if str_eq(s, "fraudulent") {
            Ok(CreateRefundReason::Fraudulent)
        } else if str_eq(s, "requested_by_customer") {
            Ok(CreateRefundReason::RequestedByCustomer)
        } else {
            Err(())
        }
    }
}

/// Two values of `CreateRefundReason` with one wire name are the same value, so
/// reading back what `as_str` gives returns the value it was called on.
pub proof fn lemma_create_refund_reason_wire_names_differ(a: CreateRefundReason, b: CreateRefundReason)
    requires
        a.wire_name() == b.wire_name(),
    ensures
        a == b,
{
    reveal_strlit("duplicate");
    reveal_strlit("fraudulent");
    reveal_strlit("requested_by_customer");
    assert("duplicate"@.len() == 9);
    assert("fraudulent"@.len() == 10);
    assert("requested_by_customer"@.len() == 21);
}

impl<'a> CreateRefund<'a> {
    /// When you create a new refund, you must specify a Charge or a PaymentIntent object on which to create it.
    ///
    /// Creating a new refund will refund a charge that has previously been created but not yet refunded.
    /// Funds will be refunded to the credit or debit card that was originally charged.
    ///
    /// You can optionally refund only part of a charge.
    /// You can do so multiple times, until the entire charge has been refunded.
    ///
    /// Once entirely refunded, a charge can't be refunded again.
    /// This method will raise an error when called on an already-refunded charge,
    /// or when trying to refund more money than is left on a charge.
    ///
    /// This builds the method and the path of the call, without its parameters:
    /// the library does not serialize them. A caller that has their serialized
    /// form attaches it with `RequestDescription::params`.
    pub fn build(&self) -> (request: RequestDescription)
        ensures
            request@ == (RequestModel { method: StripeMethod::Post, path: "/refunds"@, query: None, body: None, idempotency_key: None }),
    {
        let path = String::from_str("/refunds");
        RequestDescription::new(StripeMethod::Post, path)
    }
}

#[derive(Copy, Clone, Debug)]
pub struct UpdateRefund<'a> {
    /// Specifies which fields in the response should be expanded.
    pub expand: Option<&'a [&'a str]>,
    /// Set of [key-value pairs](https://stripe.com/docs/api/metadata) that you can attach to an object.
    /// This can be useful for storing additional information about the object in a structured format.
    /// Individual keys can be unset by posting an empty value to them.
    /// All keys can be unset by posting an empty value to `metadata`.
    pub metadata: Option<&'a HashMap<String, String>>,
}

impl<'a> UpdateRefund<'a> {
    pub fn new() -> (out: Self)
        ensures
            out == (UpdateRefund { expand: None, metadata: None }),
    {
        Self { expand: None, metadata: None }
    }
}

impl<'a> UpdateRefund<'a> {
    /// Updates the refund that you specify by setting the values of the passed parameters.
    /// Any parameters that you don't provide remain unchanged.
    ///
    /// This request only accepts `metadata` as an argument.
    ///
    /// This builds the method and the path of the call, without its parameters:
    /// the library does not serialize them. A caller that has their serialized
    /// form attaches it with `RequestDescription::params`.
    pub fn build(&self, refund: &RefundId) -> (request: RequestDescription)
        ensures
            request@ == (RequestModel { method: StripeMethod::Post, path: "/refunds/"@ + refund@, query: None, body: None, idempotency_key: None }),
    {
        let mut path = String::from_str("/refunds/");
        path.append(refund.as_str());
        RequestDescription::new(StripeMethod::Post, path)
    }
}

#[derive(Copy, Clone, Debug)]
pub struct CancelRefund<'a> {
    /// Specifies which fields in the response should be expanded.
    pub expand: Option<&'a [&'a str]>,
}

impl<'a> CancelRefund<'a> {
    pub fn new() -> (out: Self)
        ensures
            out == (CancelRefund { expand: None }),
    {
        Self { expand: None }
    }
}

impl<'a> CancelRefund<'a> {
    /// Cancels a refund with a status of `requires_action`.
    ///
    /// You can't cancel refunds in other states.
    /// Only refunds for payment methods that require customer action can enter the `requires_action` state.
    ///
    /// This builds the method and the path of the call, without its parameters:
    /// the library does not serialize them. A caller that has their serialized
    /// form attaches it with `RequestDescription::params`.
    pub fn build(&self, refund: &RefundId) -> (request: RequestDescription)
        ensures
            request@ == (RequestModel { method: StripeMethod::Post, path: "/refunds/"@ + refund@ + "/cancel"@, query: None, body: None, idempotency_key: None }),
    {
        let mut path = String::from_str("/refunds/");
        path.append(refund.as_str());
        path.append("/cancel");
        RequestDescription::new(StripeMethod::Post, path)
    }
}

#[derive(Copy, Clone, Debug)]
pub struct ExpireRefund<'a> {
    /// Specifies which fields in the response should be expanded.
    pub expand: Option<&'a [&'a str]>,
}

impl<'a> ExpireRefund<'a> {
    pub fn new() -> (out: Self)
        ensures
            out == (ExpireRefund { expand: None }),
    {
        Self { expand: None }
    }
}

impl<'a> ExpireRefund<'a> {
    /// Expire a refund with a status of `requires_action`.
    ///
    /// This builds the method and the path of the call, without its parameters:
    /// the library does not serialize them. A caller that has their serialized
    /// form attaches it with `RequestDescription::params`.
    pub fn build(&self, refund: &str) -> (request: RequestDescription)
        ensures
            request@ == (RequestModel { method: StripeMethod::Post, path: "/test_helpers/refunds/"@ + refund@ + "/expire"@, query: None, body: None, idempotency_key: None }),
    {
        let mut path = String::from_str("/test_helpers/refunds/");
        path.append(refund);
        path.append("/expire");
        RequestDescription::new(StripeMethod::Post, path)
    }
}

} // verus!
