//! Subscription schedules: the calls that list, retrieve, create, update,
//! cancel and release them.

use vstd::prelude::*;
use std::collections::HashMap;
use vstd::string::StringExecFns;
use crate::error::StripeParseError;
use crate::ids::SubscriptionScheduleId;
use crate::request::{RequestDescription, RequestModel, StripeMethod, StripeRequest};
use crate::text::str_eq;
use crate::types::{Currency, RangeQueryTs, SubscriptionScheduleEndBehavior, Timestamp};

verus! {

#[derive(Copy, Clone, Debug)]
pub struct ListSubscriptionScheduleBuilder<'a> {
    pub canceled_at: Option<RangeQueryTs>,
    pub completed_at: Option<RangeQueryTs>,
    pub created: Option<RangeQueryTs>,
    pub customer: Option<&'a str>,
    pub ending_before: Option<&'a str>,
    pub expand: Option<&'a [&'a str]>,
    pub limit: Option<i64>,
    pub released_at: Option<RangeQueryTs>,
    pub scheduled: Option<bool>,
    pub starting_after: Option<&'a str>,
}

impl<'a> ListSubscriptionScheduleBuilder<'a> {
    pub fn new() -> (out: Self)
        ensures
            out == (ListSubscriptionScheduleBuilder { canceled_at: None, completed_at: None, created: None, customer: None, ending_before: None, expand: None, limit: None, released_at: None, scheduled: None, starting_after: None }),
    {
        Self { canceled_at: None, completed_at: None, created: None, customer: None, ending_before: None, expand: None, limit: None, released_at: None, scheduled: None, starting_after: None, }
    }
}

/// Retrieves the list of your subscription schedules.
#[derive(Clone, Debug)]
pub struct ListSubscriptionSchedule<'a> {
    pub inner: ListSubscriptionScheduleBuilder<'a>,
}

impl<'a> ListSubscriptionSchedule<'a> {
    /// Construct a new `ListSubscriptionSchedule`.
    pub fn new() -> (out: Self)
        ensures
            out == (ListSubscriptionSchedule { inner: ListSubscriptionScheduleBuilder { canceled_at: None, completed_at: None, created: None, customer: None, ending_before: None, expand: None, limit: None, released_at: None, scheduled: None, starting_after: None } }),
    {
        Self { inner: ListSubscriptionScheduleBuilder::new() }
    }

    /// Only return subscription schedules that were created canceled the given date interval.
    pub fn canceled_at(self, canceled_at: RangeQueryTs) -> (out: Self)
        ensures
            out == (ListSubscriptionSchedule { inner: (ListSubscriptionScheduleBuilder { canceled_at: Some(canceled_at), ..self.inner }), ..self }),
    {
        let mut out = self;
        out.inner.canceled_at = Some(canceled_at);
        out
    }

    /// Only return subscription schedules that completed during the given date interval.
    pub fn completed_at(self, completed_at: RangeQueryTs) -> (out: Self)
        ensures
            out == (ListSubscriptionSchedule { inner: (ListSubscriptionScheduleBuilder { completed_at: Some(completed_at), ..self.inner }), ..self }),
    {
        let mut out = self;
        out.inner.completed_at = Some(completed_at);
        out
    }

    /// Only return subscription schedules that were created during the given date interval.
    pub fn created(self, created: RangeQueryTs) -> (out: Self)
        ensures
            out == (ListSubscriptionSchedule { inner: (ListSubscriptionScheduleBuilder { created: Some(created), ..self.inner }), ..self }),
    {
        let mut out = self;
        out.inner.created = Some(created);
        out
    }

    /// Only return subscription schedules for the given customer.
    pub fn customer(self, customer: &'a str) -> (out: Self)
        ensures
            out == (ListSubscriptionSchedule { inner: (ListSubscriptionScheduleBuilder { customer: Some(customer), ..self.inner }), ..self }),
    {
        let mut out = self;
        out.inner.customer = Some(customer);
        out
    }

    /// A cursor for use in pagination.
    /// `ending_before` is an object ID that defines your place in the list.
    /// For instance, if you make a list request and receive 100 objects, starting with `obj_bar`, your subsequent call can include `ending_before=obj_bar` in order to fetch the previous page of the list.
    pub fn ending_before(self, ending_before: &'a str) -> (out: Self)
        ensures
            out == (ListSubscriptionSchedule { inner: (ListSubscriptionScheduleBuilder { ending_before: Some(ending_before), ..self.inner }), ..self }),
    {
        let mut out = self;
        out.inner.ending_before = Some(ending_before);
        out
    }

    /// Specifies which fields in the response should be expanded.
    pub fn expand(self, expand: &'a [&'a str]) -> (out: Self)
        ensures
            out == (ListSubscriptionSchedule { inner: (ListSubscriptionScheduleBuilder { expand: Some(expand), ..self.inner }), ..self }),
    {
        let mut out = self;
        out.inner.expand = Some(expand);
        out
    }

    /// A limit on the number of objects to be returned.
    /// Limit can range between 1 and 100, and the default is 10.
    pub fn limit(self, limit: i64) -> (out: Self)
        ensures
            out == (ListSubscriptionSchedule { inner: (ListSubscriptionScheduleBuilder { limit: Some(limit), ..self.inner }), ..self }),
    {
        let mut out = self;
        out.inner.limit = Some(limit);
        out
    }

    /// Only return subscription schedules that were released during the given date interval.
    pub fn released_at(self, released_at: RangeQueryTs) -> (out: Self)
        ensures
            out == (ListSubscriptionSchedule { inner: (ListSubscriptionScheduleBuilder { released_at: Some(released_at), ..self.inner }), ..self }),
    {
        let mut out = self;
        out.inner.released_at = Some(released_at);
        out
    }

    /// Only return subscription schedules that have not started yet.
    pub fn scheduled(self, scheduled: bool) -> (out: Self)
        ensures
            out == (ListSubscriptionSchedule { inner: (ListSubscriptionScheduleBuilder { scheduled: Some(scheduled), ..self.inner }), ..self }),
    {
        let mut out = self;
        out.inner.scheduled = Some(scheduled);
        out
    }

    /// A cursor for use in pagination.
    /// `starting_after` is an object ID that defines your place in the list.
    /// For instance, if you make a list request and receive 100 objects, ending with `obj_foo`, your subsequent call can include `starting_after=obj_foo` in order to fetch the next page of the list.
    pub fn starting_after(self, starting_after: &'a str) -> (out: Self)
        ensures
            out == (ListSubscriptionSchedule { inner: (ListSubscriptionScheduleBuilder { starting_after: Some(starting_after), ..self.inner }), ..self }),
    {
        let mut out = self;
        out.inner.starting_after = Some(starting_after);
        out
    }
}

impl<'a> Default for ListSubscriptionSchedule<'a> {
    fn default() -> (out: Self)
        ensures
            out == (ListSubscriptionSchedule { inner: ListSubscriptionScheduleBuilder { canceled_at: None, completed_at: None, created: None, customer: None, ending_before: None, expand: None, limit: None, released_at: None, scheduled: None, starting_after: None } }),
    {
        Self::new()
    }
}

impl StripeRequest for ListSubscriptionSchedule<'_> {
    open spec fn call(&self) -> RequestModel {
        RequestModel { method: StripeMethod::Get, path: "/subscription_schedules"@, query: None, body: None, idempotency_key: None }
    }

    fn build(&self) -> (request: RequestDescription) {
        let path = String::from_str("/subscription_schedules");
        RequestDescription::new(StripeMethod::Get, path)
    }
}

#[derive(Copy, Clone, Debug)]
pub struct RetrieveSubscriptionScheduleBuilder<'a> {
    pub expand: Option<&'a [&'a str]>,
}

impl<'a> RetrieveSubscriptionScheduleBuilder<'a> {
    pub fn new() -> (out: Self)
        ensures
            out == (RetrieveSubscriptionScheduleBuilder { expand: None }),
    {
        Self { expand: None }
    }
}

/// Retrieves the details of an existing subscription schedule.
/// You only need to supply the unique subscription schedule identifier that was returned upon subscription schedule creation.
#[derive(Clone, Debug)]
pub struct RetrieveSubscriptionSchedule<'a> {
    pub inner: RetrieveSubscriptionScheduleBuilder<'a>,
    pub schedule: &'a SubscriptionScheduleId,
}

impl<'a> RetrieveSubscriptionSchedule<'a> {
    /// Construct a new `RetrieveSubscriptionSchedule`.
    pub fn new(schedule: &'a SubscriptionScheduleId) -> (out: Self)
        ensures
            out == (RetrieveSubscriptionSchedule { schedule: schedule, inner: RetrieveSubscriptionScheduleBuilder { expand: None } }),
    {
        Self { schedule, inner: RetrieveSubscriptionScheduleBuilder::new() }
    }

    /// Specifies which fields in the response should be expanded.
    pub fn expand(self, expand: &'a [&'a str]) -> (out: Self)
        ensures
            out == (RetrieveSubscriptionSchedule { inner: (RetrieveSubscriptionScheduleBuilder { expand: Some(expand), ..self.inner }), ..self }),
    {
        let mut out = self;
        out.inner.expand = Some(expand);
        out
    }
}

impl StripeRequest for RetrieveSubscriptionSchedule<'_> {
    open spec fn call(&self) -> RequestModel {
        RequestModel { method: StripeMethod::Get, path: "/subscription_schedules/"@ + self.schedule@, query: None, body: None, idempotency_key: None }
    }

    fn build(&self) -> (request: RequestDescription) {
        let mut path = String::from_str("/subscription_schedules/");
        path.append(self.schedule.as_str());
        RequestDescription::new(StripeMethod::Get, path)
    }
}

#[derive(Copy, Clone, Debug)]
pub struct CreateSubscriptionScheduleBuilder<'a> {
    pub customer: Option<&'a str>,
    pub default_settings: Option<CreateSubscriptionScheduleDefaultSettings<'a>>,
    pub end_behavior: Option<SubscriptionScheduleEndBehavior>,
    pub expand: Option<&'a [&'a str]>,
    pub from_subscription: Option<&'a str>,
    pub metadata: Option<&'a HashMap<String, String>>,
    pub phases: Option<&'a [CreateSubscriptionSchedulePhases<'a>]>,
    pub start_date: Option<CreateSubscriptionScheduleStartDate>,
}

impl<'a> CreateSubscriptionScheduleBuilder<'a> {
    pub fn new() -> (out: Self)
        ensures
            out == (CreateSubscriptionScheduleBuilder { customer: None, default_settings: None, end_behavior: None, expand: None, from_subscription: None, metadata: None, phases: None, start_date: None }),
    {
        Self { customer: None, default_settings: None, end_behavior: None, expand: None, from_subscription: None, metadata: None, phases: None, start_date: None, }
    }
}

/// Object representing the subscription schedule's default settings.
#[derive(Copy, Clone, Debug)]
pub struct CreateSubscriptionScheduleDefaultSettings<'a> {
    /// A non-negative decimal between 0 and 100, with at most two decimal places.
    /// This represents the percentage of the subscription invoice total that will be transferred to the application owner's Stripe account.
    /// The request must be made by a platform account on a connected account in order to set an application fee percentage.
    /// For more information, see the application fees [documentation](https://stripe.com/docs/connect/subscriptions#collecting-fees-on-subscriptions).
    /// Written as a decimal number.
    pub application_fee_percent: Option<&'a str>,
    /// Default settings for automatic tax computation.
    pub automatic_tax: Option<CreateSubscriptionScheduleDefaultSettingsAutomaticTax<'a>>,
    /// Can be set to `phase_start` to set the anchor to the start of the phase or `automatic` to automatically change it if needed.
    /// Cannot be set to `phase_start` if this phase specifies a trial.
    /// For more information, see the billing cycle [documentation](https://stripe.com/docs/billing/subscriptions/billing-cycle).
    pub billing_cycle_anchor: Option<CreateSubscriptionScheduleDefaultSettingsBillingCycleAnchor>,
    /// Define thresholds at which an invoice will be sent, and the subscription advanced to a new billing period.
    /// Pass an empty string to remove previously-defined thresholds.
    pub billing_thresholds: Option<BillingThresholdsParam>,
    /// Either `charge_automatically`, or `send_invoice`.
    /// When charging automatically, Stripe will attempt to pay the underlying subscription at the end of each billing cycle using the default source attached to the customer.
    /// When sending an invoice, Stripe will email your customer an invoice with payment instructions and mark the subscription as `active`.
    /// Defaults to `charge_automatically` on creation.
    pub collection_method: Option<CreateSubscriptionScheduleDefaultSettingsCollectionMethod>,
    /// ID of the default payment method for the subscription schedule.
    /// It must belong to the customer associated with the subscription schedule.
    /// If not set, invoices will use the default payment method in the customer's invoice settings.
    pub default_payment_method: Option<&'a str>,
    /// Subscription description, meant to be displayable to the customer.
    /// Use this field to optionally store an explanation of the subscription for rendering in Stripe surfaces and certain local payment methods UIs.
    pub description: Option<&'a str>,
    /// All invoices will be billed using the specified settings.
    pub invoice_settings: Option<CreateSubscriptionScheduleDefaultSettingsInvoiceSettings<'a>>,
    /// The account on behalf of which to charge, for each of the associated subscription's invoices.
    pub on_behalf_of: Option<&'a str>,
    /// The data with which to automatically create a Transfer for each of the associated subscription's invoices.
    pub transfer_data: Option<TransferDataSpecs<'a>>,
}

impl<'a> CreateSubscriptionScheduleDefaultSettings<'a> {
    pub fn new() -> (out: Self)
        ensures
            out == (CreateSubscriptionScheduleDefaultSettings { application_fee_percent: None, automatic_tax: None, billing_cycle_anchor: None, billing_thresholds: None, collection_method: None, default_payment_method: None, description: None, invoice_settings: None, on_behalf_of: None, transfer_data: None }),
    {
        Self { application_fee_percent: None, automatic_tax: None, billing_cycle_anchor: None, billing_thresholds: None, collection_method: None, default_payment_method: None, description: None, invoice_settings: None, on_behalf_of: None, transfer_data: None, }
    }
}

impl<'a> Default for CreateSubscriptionScheduleDefaultSettings<'a> {
    fn default() -> (out: Self)
        ensures
            out == (CreateSubscriptionScheduleDefaultSettings { application_fee_percent: None, automatic_tax: None, billing_cycle_anchor: None, billing_thresholds: None, collection_method: None, default_payment_method: None, description: None, invoice_settings: None, on_behalf_of: None, transfer_data: None }),
    {
        Self::new()
    }
}

/// Default settings for automatic tax computation.
#[derive(Copy, Clone, Debug)]
pub struct CreateSubscriptionScheduleDefaultSettingsAutomaticTax<'a> {
    /// Enabled automatic tax calculation which will automatically compute tax rates on all invoices generated by the subscription.
    pub enabled: bool,
    /// The account that's liable for tax.
    /// If set, the business address and tax registrations required to perform the tax calculation are loaded from this account.
    /// The tax transaction is returned in the report of the connected account.
    pub liability: Option<CreateSubscriptionScheduleDefaultSettingsAutomaticTaxLiability<'a>>,
}

impl<'a> CreateSubscriptionScheduleDefaultSettingsAutomaticTax<'a> {
    pub fn new(enabled: bool) -> (out: Self)
        ensures
            out == (CreateSubscriptionScheduleDefaultSettingsAutomaticTax { enabled: enabled, liability: None }),
    {
        Self { enabled, liability: None }
    }
}

/// The account that's liable for tax.
/// If set, the business address and tax registrations required to perform the tax calculation are loaded from this account.
/// The tax transaction is returned in the report of the connected account.
#[derive(Copy, Clone, Debug)]
pub struct CreateSubscriptionScheduleDefaultSettingsAutomaticTaxLiability<'a> {
    /// The connected account being referenced when `type` is `account`.
    pub account: Option<&'a str>,
    /// Type of the account referenced in the request.
    pub type_: CreateSubscriptionScheduleDefaultSettingsAutomaticTaxLiabilityType,
}

impl<'a> CreateSubscriptionScheduleDefaultSettingsAutomaticTaxLiability<'a> {
    pub fn new(type_: CreateSubscriptionScheduleDefaultSettingsAutomaticTaxLiabilityType) -> (out: Self)
        ensures
            out == (CreateSubscriptionScheduleDefaultSettingsAutomaticTaxLiability { account: None, type_: type_ }),
    {
        Self { account: None, type_ }
    }
}

/// Type of the account referenced in the request.
#[derive(Copy, Clone, Debug, PartialEq, Eq, Structural)]
pub enum CreateSubscriptionScheduleDefaultSettingsAutomaticTaxLiabilityType {
    Account,
    Self_,
}

impl CreateSubscriptionScheduleDefaultSettingsAutomaticTaxLiabilityType {
    /// The name of the value on the wire.
    pub open spec fn wire_name(self) -> Seq<char> {
        match self {
            CreateSubscriptionScheduleDefaultSettingsAutomaticTaxLiabilityType::Account => "account"@,
            CreateSubscriptionScheduleDefaultSettingsAutomaticTaxLiabilityType::Self_ => "self"@,
        }
    }

    pub fn as_str(self) -> (name: &'static str)
        ensures
            name@ == self.wire_name(),
    {
        match self {
            CreateSubscriptionScheduleDefaultSettingsAutomaticTaxLiabilityType::Account => "account",
            CreateSubscriptionScheduleDefaultSettingsAutomaticTaxLiabilityType::Self_ => "self",
        }
    }
}

impl std::str::FromStr for CreateSubscriptionScheduleDefaultSettingsAutomaticTaxLiabilityType {
    type Err = StripeParseError;

    /// Reads a wire name; fails on a string that is the name of no value.
    fn from_str(s: &str) -> (parsed: Result<Self, Self::Err>)
        ensures
            match parsed {
                Ok(v) => v.wire_name() == s@,
                Err(_) => forall|v: CreateSubscriptionScheduleDefaultSettingsAutomaticTaxLiabilityType| #[trigger] v.wire_name() != s@,
            },
    {
        if str_eq(s, "account") {
            Ok(CreateSubscriptionScheduleDefaultSettingsAutomaticTaxLiabilityType::Account)
        } else if str_eq(s, "self") {
            Ok(CreateSubscriptionScheduleDefaultSettingsAutomaticTaxLiabilityType::Self_)
        } else {
            Err(StripeParseError)
        }
    }
}

/// Two values of `CreateSubscriptionScheduleDefaultSettingsAutomaticTaxLiabilityType` with one wire name are the same value, so
/// reading back what `as_str` gives returns the value it was called on.
pub proof fn lemma_create_subscription_schedule_default_settings_automatic_tax_liability_type_wire_names_differ(a: CreateSubscriptionScheduleDefaultSettingsAutomaticTaxLiabilityType, b: CreateSubscriptionScheduleDefaultSettingsAutomaticTaxLiabilityType)
    requires
        a.wire_name() == b.wire_name(),
    ensures
        a == b,
{
    reveal_strlit("account");
    reveal_strlit("self");
    assert("account"@.len() == 7);
    assert("self"@.len() == 4);
}

/// Can be set to `phase_start` to set the anchor to the start of the phase or `automatic` to automatically change it if needed.
/// Cannot be set to `phase_start` if this phase specifies a trial.
/// For more information, see the billing cycle [documentation](https://stripe.com/docs/billing/subscriptions/billing-cycle).
#[derive(Copy, Clone, Debug, PartialEq, Eq, Structural)]
pub enum CreateSubscriptionScheduleDefaultSettingsBillingCycleAnchor {
    Automatic,
    PhaseStart,
}

impl CreateSubscriptionScheduleDefaultSettingsBillingCycleAnchor {
    /// The name of the value on the wire.
    pub open spec fn wire_name(self) -> Seq<char> {
        match self {
            CreateSubscriptionScheduleDefaultSettingsBillingCycleAnchor::Automatic => "automatic"@,
            CreateSubscriptionScheduleDefaultSettingsBillingCycleAnchor::PhaseStart => "phase_start"@,
        }
    }

    pub fn as_str(self) -> (name: &'static str)
        ensures
            name@ == self.wire_name(),
    {
        match self {
            CreateSubscriptionScheduleDefaultSettingsBillingCycleAnchor::Automatic => "automatic",
            CreateSubscriptionScheduleDefaultSettingsBillingCycleAnchor::PhaseStart => "phase_start",
        }
    }
}

impl std::str::FromStr for CreateSubscriptionScheduleDefaultSettingsBillingCycleAnchor {
    type Err = StripeParseError;

    /// Reads a wire name; fails on a string that is the name of no value.
    fn from_str(s: &str) -> (parsed: Result<Self, Self::Err>)
        ensures
            match parsed {
                Ok(v) => v.wire_name() == s@,
                Err(_) => forall|v: CreateSubscriptionScheduleDefaultSettingsBillingCycleAnchor| #[trigger] v.wire_name() != s@,
            },
    {
        if str_eq(s, "automatic") {
            Ok(CreateSubscriptionScheduleDefaultSettingsBillingCycleAnchor::Automatic)
        } else if str_eq(s, "phase_start") {
            Ok(CreateSubscriptionScheduleDefaultSettingsBillingCycleAnchor::PhaseStart)
        } else {
            Err(StripeParseError)
        }
    }
}

/// Two values of `CreateSubscriptionScheduleDefaultSettingsBillingCycleAnchor` with one wire name are the same value, so
/// reading back what `as_str` gives returns the value it was called on.
pub proof fn lemma_create_subscription_schedule_default_settings_billing_cycle_anchor_wire_names_differ(a: CreateSubscriptionScheduleDefaultSettingsBillingCycleAnchor, b: CreateSubscriptionScheduleDefaultSettingsBillingCycleAnchor)
    requires
        a.wire_name() == b.wire_name(),
    ensures
        a == b,
{
    reveal_strlit("automatic");
    reveal_strlit("phase_start");
    assert("automatic"@.len() == 9);
    assert("phase_start"@.len() == 11);
}

/// Either `charge_automatically`, or `send_invoice`.
/// When charging automatically, Stripe will attempt to pay the underlying subscription at the end of each billing cycle using the default source attached to the customer.
/// When sending an invoice, Stripe will email your customer an invoice with payment instructions and mark the subscription as `active`.
/// Defaults to `charge_automatically` on creation.
#[derive(Copy, Clone, Debug, PartialEq, Eq, Structural)]
pub enum CreateSubscriptionScheduleDefaultSettingsCollectionMethod {
    ChargeAutomatically,
    SendInvoice,
}

impl CreateSubscriptionScheduleDefaultSettingsCollectionMethod {
    /// The name of the value on the wire.
    pub open spec fn wire_name(self) -> Seq<char> {
        match self {
            CreateSubscriptionScheduleDefaultSettingsCollectionMethod::ChargeAutomatically => "charge_automatically"@,
            CreateSubscriptionScheduleDefaultSettingsCollectionMethod::SendInvoice => "send_invoice"@,
        }
    }

    pub fn as_str(self) -> (name: &'static str)
        ensures
            name@ == self.wire_name(),
    {
        match self {
            CreateSubscriptionScheduleDefaultSettingsCollectionMethod::ChargeAutomatically => "charge_automatically",
            CreateSubscriptionScheduleDefaultSettingsCollectionMethod::SendInvoice => "send_invoice",
        }
    }
}

impl std::str::FromStr for CreateSubscriptionScheduleDefaultSettingsCollectionMethod {
    type Err = StripeParseError;

    /// Reads a wire name; fails on a string that is the name of no value.
    fn from_str(s: &str) -> (parsed: Result<Self, Self::Err>)
        ensures
            match parsed {
                Ok(v) => v.wire_name() == s@,
                Err(_) => forall|v: CreateSubscriptionScheduleDefaultSettingsCollectionMethod| #[trigger] v.wire_name() != s@,
            },
    {
        if str_eq(s, "charge_automatically") {
            Ok(CreateSubscriptionScheduleDefaultSettingsCollectionMethod::ChargeAutomatically)
        } else if str_eq(s, "send_invoice") {
            Ok(CreateSubscriptionScheduleDefaultSettingsCollectionMethod::SendInvoice)
        } else {
            Err(StripeParseError)
        }
    }
}

/// Two values of `CreateSubscriptionScheduleDefaultSettingsCollectionMethod` with one wire name are the same value, so
/// reading back what `as_str` gives returns the value it was called on.
pub proof fn lemma_create_subscription_schedule_default_settings_collection_method_wire_names_differ(a: CreateSubscriptionScheduleDefaultSettingsCollectionMethod, b: CreateSubscriptionScheduleDefaultSettingsCollectionMethod)
    requires
        a.wire_name() == b.wire_name(),
    ensures
        a == b,
{
    reveal_strlit("charge_automatically");
    reveal_strlit("send_invoice");
    assert("charge_automatically"@.len() == 20);
    assert("send_invoice"@.len() == 12);
}

/// All invoices will be billed using the specified settings.
#[derive(Copy, Clone, Debug)]
pub struct CreateSubscriptionScheduleDefaultSettingsInvoiceSettings<'a> {
    /// The account tax IDs associated with the subscription schedule.
    /// Will be set on invoices generated by the subscription schedule.
    pub account_tax_ids: Option<&'a [&'a str]>,
    /// Number of days within which a customer must pay invoices generated by this subscription schedule.
    /// This value will be `null` for subscription schedules where `collection_method=charge_automatically`.
    pub days_until_due: Option<u32>,
    /// The connected account that issues the invoice.
    /// The invoice is presented with the branding and support information of the specified account.
    pub issuer: Option<CreateSubscriptionScheduleDefaultSettingsInvoiceSettingsIssuer<'a>>,
}

impl<'a> CreateSubscriptionScheduleDefaultSettingsInvoiceSettings<'a> {
    pub fn new() -> (out: Self)
        ensures
            out == (CreateSubscriptionScheduleDefaultSettingsInvoiceSettings { account_tax_ids: None, days_until_due: None, issuer: None }),
    {
        Self { account_tax_ids: None, days_until_due: None, issuer: None }
    }
}

impl<'a> Default for CreateSubscriptionScheduleDefaultSettingsInvoiceSettings<'a> {
    fn default() -> (out: Self)
        ensures
            out == (CreateSubscriptionScheduleDefaultSettingsInvoiceSettings { account_tax_ids: None, days_until_due: None, issuer: None }),
    {
        Self::new()
    }
}

/// The connected account that issues the invoice.
/// The invoice is presented with the branding and support information of the specified account.
#[derive(Copy, Clone, Debug)]
pub struct CreateSubscriptionScheduleDefaultSettingsInvoiceSettingsIssuer<'a> {
    /// The connected account being referenced when `type` is `account`.
    pub account: Option<&'a str>,
    /// Type of the account referenced in the request.
    pub type_: CreateSubscriptionScheduleDefaultSettingsInvoiceSettingsIssuerType,
}

impl<'a> CreateSubscriptionScheduleDefaultSettingsInvoiceSettingsIssuer<'a> {
    pub fn new(type_: CreateSubscriptionScheduleDefaultSettingsInvoiceSettingsIssuerType) -> (out: Self)
        ensures
            out == (CreateSubscriptionScheduleDefaultSettingsInvoiceSettingsIssuer { account: None, type_: type_ }),
    {
        Self { account: None, type_ }
    }
}

/// Type of the account referenced in the request.
#[derive(Copy, Clone, Debug, PartialEq, Eq, Structural)]
pub enum CreateSubscriptionScheduleDefaultSettingsInvoiceSettingsIssuerType {
    Account,
    Self_,
}

impl CreateSubscriptionScheduleDefaultSettingsInvoiceSettingsIssuerType {
    /// The name of the value on the wire.
    pub open spec fn wire_name(self) -> Seq<char> {
        match self {
            CreateSubscriptionScheduleDefaultSettingsInvoiceSettingsIssuerType::Account => "account"@,
            CreateSubscriptionScheduleDefaultSettingsInvoiceSettingsIssuerType::Self_ => "self"@,
        }
    }

    pub fn as_str(self) -> (name: &'static str)
        ensures
            name@ == self.wire_name(),
    {
        match self {
            CreateSubscriptionScheduleDefaultSettingsInvoiceSettingsIssuerType::Account => "account",
            CreateSubscriptionScheduleDefaultSettingsInvoiceSettingsIssuerType::Self_ => "self",
        }
    }
}

impl std::str::FromStr for CreateSubscriptionScheduleDefaultSettingsInvoiceSettingsIssuerType {
    type Err = StripeParseError;

    /// Reads a wire name; fails on a string that is the name of no value.
    fn from_str(s: &str) -> (parsed: Result<Self, Self::Err>)
        ensures
            match parsed {
                Ok(v) => v.wire_name() == s@,
                Err(_) => forall|v: CreateSubscriptionScheduleDefaultSettingsInvoiceSettingsIssuerType| #[trigger] v.wire_name() != s@,
            },
    {
        if str_eq(s, "account") {
            Ok(CreateSubscriptionScheduleDefaultSettingsInvoiceSettingsIssuerType::Account)
        } else if str_eq(s, "self") {
            Ok(CreateSubscriptionScheduleDefaultSettingsInvoiceSettingsIssuerType::Self_)
        } else {
            Err(StripeParseError)
        }
    }
}

/// Two values of `CreateSubscriptionScheduleDefaultSettingsInvoiceSettingsIssuerType` with one wire name are the same value, so
/// reading back what `as_str` gives returns the value it was called on.
pub proof fn lemma_create_subscription_schedule_default_settings_invoice_settings_issuer_type_wire_names_differ(a: CreateSubscriptionScheduleDefaultSettingsInvoiceSettingsIssuerType, b: CreateSubscriptionScheduleDefaultSettingsInvoiceSettingsIssuerType)
    requires
        a.wire_name() == b.wire_name(),
    ensures
        a == b,
{
    reveal_strlit("account");
    reveal_strlit("self");
    assert("account"@.len() == 7);
    assert("self"@.len() == 4);
}

/// List representing phases of the subscription schedule.
/// Each phase can be customized to have different durations, plans, and coupons.
/// If there are multiple phases, the `end_date` of one phase will always equal the `start_date` of the next phase.
#[derive(Copy, Clone, Debug)]
pub struct CreateSubscriptionSchedulePhases<'a> {
    /// A list of prices and quantities that will generate invoice items appended to the next invoice for this phase.
    /// You may pass up to 20 items.
    pub add_invoice_items: Option<&'a [CreateSubscriptionSchedulePhasesAddInvoiceItems<'a>]>,
    /// A non-negative decimal between 0 and 100, with at most two decimal places.
    /// This represents the percentage of the subscription invoice total that will be transferred to the application owner's Stripe account.
    /// The request must be made by a platform account on a connected account in order to set an application fee percentage.
    /// For more information, see the application fees [documentation](https://stripe.com/docs/connect/subscriptions#collecting-fees-on-subscriptions).
    /// Written as a decimal number.
    pub application_fee_percent: Option<&'a str>,
    /// Automatic tax settings for this phase.
    pub automatic_tax: Option<CreateSubscriptionSchedulePhasesAutomaticTax<'a>>,
    /// Can be set to `phase_start` to set the anchor to the start of the phase or `automatic` to automatically change it if needed.
    /// Cannot be set to `phase_start` if this phase specifies a trial.
    /// For more information, see the billing cycle [documentation](https://stripe.com/docs/billing/subscriptions/billing-cycle).
    pub billing_cycle_anchor: Option<CreateSubscriptionSchedulePhasesBillingCycleAnchor>,
    /// Define thresholds at which an invoice will be sent, and the subscription advanced to a new billing period.
    /// Pass an empty string to remove previously-defined thresholds.
    pub billing_thresholds: Option<BillingThresholdsParam>,
    /// Either `charge_automatically`, or `send_invoice`.
    /// When charging automatically, Stripe will attempt to pay the underlying subscription at the end of each billing cycle using the default source attached to the customer.
    /// When sending an invoice, Stripe will email your customer an invoice with payment instructions and mark the subscription as `active`.
    /// Defaults to `charge_automatically` on creation.
    pub collection_method: Option<CreateSubscriptionSchedulePhasesCollectionMethod>,
    /// The ID of the coupon to apply to this phase of the subscription schedule.
    /// This field has been deprecated and will be removed in a future API version.
    /// Use `discounts` instead.
    pub coupon: Option<&'a str>,
    /// Three-letter [ISO currency code](https://www.iso.org/iso-4217-currency-codes.html), in lowercase.
    /// Must be a [supported currency](https://stripe.com/docs/currencies).
    pub currency: Option<Currency>,
    /// ID of the default payment method for the subscription schedule.
    /// It must belong to the customer associated with the subscription schedule.
    /// If not set, invoices will use the default payment method in the customer's invoice settings.
    pub default_payment_method: Option<&'a str>,
    /// A list of [Tax Rate](https://stripe.com/docs/api/tax_rates) ids.
    /// These Tax Rates will set the Subscription's [`default_tax_rates`](https://stripe.com/docs/api/subscriptions/create#create_subscription-default_tax_rates), which means they will be the Invoice's [`default_tax_rates`](https://stripe.com/docs/api/invoices/create#create_invoice-default_tax_rates) for any Invoices issued by the Subscription during this Phase.
    pub default_tax_rates: Option<&'a [&'a str]>,
    /// Subscription description, meant to be displayable to the customer.
    /// Use this field to optionally store an explanation of the subscription for rendering in Stripe surfaces and certain local payment methods UIs.
    pub description: Option<&'a str>,
    /// The coupons to redeem into discounts for the schedule phase.
    /// If not specified, inherits the discount from the subscription's customer.
    /// Pass an empty string to avoid inheriting any discounts.
    pub discounts: Option<&'a [DiscountsDataParam<'a>]>,
    /// The date at which this phase of the subscription schedule ends.
    /// If set, `iterations` must not be set.
    pub end_date: Option<Timestamp>,
    /// All invoices will be billed using the specified settings.
    pub invoice_settings: Option<CreateSubscriptionSchedulePhasesInvoiceSettings<'a>>,
    /// List of configuration items, each with an attached price, to apply during this phase of the subscription schedule.
    pub items: &'a [CreateSubscriptionSchedulePhasesItems<'a>],
    /// Integer representing the multiplier applied to the price interval.
    /// For example, `iterations=2` applied to a price with `interval=month` and `interval_count=3` results in a phase of duration `2 * 3 months = 6 months`.
    /// If set, `end_date` must not be set.
    pub iterations: Option<i64>,
    /// Set of [key-value pairs](https://stripe.com/docs/api/metadata) that you can attach to a phase.
    /// Metadata on a schedule's phase will update the underlying subscription's `metadata` when the phase is entered, adding new keys and replacing existing keys in the subscription's `metadata`.
    /// Individual keys in the subscription's `metadata` can be unset by posting an empty value to them in the phase's `metadata`.
    /// To unset all keys in the subscription's `metadata`, update the subscription directly or unset every key individually from the phase's `metadata`.
    pub metadata: Option<&'a HashMap<String, String>>,
    /// The account on behalf of which to charge, for each of the associated subscription's invoices.
    pub on_behalf_of: Option<&'a str>,
    /// Whether the subscription schedule will create [prorations](https://stripe.com/docs/billing/subscriptions/prorations) when transitioning to this phase.
    /// The default value is `create_prorations`.
    /// This setting controls prorations when a phase is started asynchronously and it is persisted as a field on the phase.
    /// It's different from the request-level [proration_behavior](https://stripe.com/docs/api/subscription_schedules/update#update_subscription_schedule-proration_behavior) parameter which controls what happens if the update request affects the billing configuration of the current phase.
    pub proration_behavior: Option<CreateSubscriptionSchedulePhasesProrationBehavior>,
    /// The data with which to automatically create a Transfer for each of the associated subscription's invoices.
    pub transfer_data: Option<TransferDataSpecs<'a>>,
    /// If set to true the entire phase is counted as a trial and the customer will not be charged for any fees.
    pub trial: Option<bool>,
    /// Sets the phase to trialing from the start date to this date.
    /// Must be before the phase end date, can not be combined with `trial`.
    pub trial_end: Option<Timestamp>,
}

impl<'a> CreateSubscriptionSchedulePhases<'a> {
    pub fn new(items: &'a [CreateSubscriptionSchedulePhasesItems<'a>]) -> (out: Self)
        ensures
            out == (CreateSubscriptionSchedulePhases { add_invoice_items: None, application_fee_percent: None, automatic_tax: None, billing_cycle_anchor: None, billing_thresholds: None, collection_method: None, coupon: None, currency: None, default_payment_method: None, default_tax_rates: None, description: None, discounts: None, end_date: None, invoice_settings: None, items: items, iterations: None, metadata: None, on_behalf_of: None, proration_behavior: None, transfer_data: None, trial: None, trial_end: None }),
    {
        Self { add_invoice_items: None, application_fee_percent: None, automatic_tax: None, billing_cycle_anchor: None, billing_thresholds: None, collection_method: None, coupon: None, currency: None, default_payment_method: None, default_tax_rates: None, description: None, discounts: None, end_date: None, invoice_settings: None, items, iterations: None, metadata: None, on_behalf_of: None, proration_behavior: None, transfer_data: None, trial: None, trial_end: None, }
    }
}

/// A list of prices and quantities that will generate invoice items appended to the next invoice for this phase.
/// You may pass up to 20 items.
#[derive(Copy, Clone, Debug)]
pub struct CreateSubscriptionSchedulePhasesAddInvoiceItems<'a> {
    /// The coupons to redeem into discounts for the item.
    pub discounts: Option<&'a [DiscountsDataParam<'a>]>,
    /// The ID of the price object.
    pub price: Option<&'a str>,
    /// Data used to generate a new [Price](https://stripe.com/docs/api/prices) object inline.
    pub price_data: Option<CreateSubscriptionSchedulePhasesAddInvoiceItemsPriceData<'a>>,
    /// Quantity for this item. Defaults to 1.
    pub quantity: Option<u64>,
    /// The tax rates which apply to the item. When set, the `default_tax_rates` do not apply to this item.
    pub tax_rates: Option<&'a [&'a str]>,
}

impl<'a> CreateSubscriptionSchedulePhasesAddInvoiceItems<'a> {
    pub fn new() -> (out: Self)
        ensures
            out == (CreateSubscriptionSchedulePhasesAddInvoiceItems { discounts: None, price: None, price_data: None, quantity: None, tax_rates: None }),
    {
        Self { discounts: None, price: None, price_data: None, quantity: None, tax_rates: None }
    }
}

impl<'a> Default for CreateSubscriptionSchedulePhasesAddInvoiceItems<'a> {
    fn default() -> (out: Self)
        ensures
            out == (CreateSubscriptionSchedulePhasesAddInvoiceItems { discounts: None, price: None, price_data: None, quantity: None, tax_rates: None }),
    {
        Self::new()
    }
}

/// Data used to generate a new [Price](https://stripe.com/docs/api/prices) object inline.
#[derive(Copy, Clone, Debug)]
pub struct CreateSubscriptionSchedulePhasesAddInvoiceItemsPriceData<'a> {
    /// Three-letter [ISO currency code](https://www.iso.org/iso-4217-currency-codes.html), in lowercase.
    /// Must be a [supported currency](https://stripe.com/docs/currencies).
    pub currency: Currency,
    /// The ID of the product that this price will belong to.
    pub product: &'a str,
    /// Only required if a [default tax behavior](https://stripe.com/docs/tax/products-prices-tax-categories-tax-behavior#setting-a-default-tax-behavior-(recommended)) was not provided in the Stripe Tax settings.
    /// Specifies whether the price is considered inclusive of taxes or exclusive of taxes.
    /// One of `inclusive`, `exclusive`, or `unspecified`.
    /// Once specified as either `inclusive` or `exclusive`, it cannot be changed.
    pub tax_behavior: Option<CreateSubscriptionSchedulePhasesAddInvoiceItemsPriceDataTaxBehavior>,
    /// A positive integer in cents (or local equivalent) (or 0 for a free price) representing how much to charge.
    pub unit_amount: Option<i64>,
    /// Same as `unit_amount`, but accepts a decimal value in cents (or local equivalent) with at most 12 decimal places.
    /// Only one of `unit_amount` and `unit_amount_decimal` can be set.
    pub unit_amount_decimal: Option<&'a str>,
}

impl<'a> CreateSubscriptionSchedulePhasesAddInvoiceItemsPriceData<'a> {
    pub fn new(currency: Currency, product: &'a str) -> (out: Self)
        ensures
            out == (CreateSubscriptionSchedulePhasesAddInvoiceItemsPriceData { currency: currency, product: product, tax_behavior: None, unit_amount: None, unit_amount_decimal: None }),
    {
        Self { currency, product, tax_behavior: None, unit_amount: None, unit_amount_decimal: None }
    }
}

/// Only required if a [default tax behavior](https://stripe.com/docs/tax/products-prices-tax-categories-tax-behavior#setting-a-default-tax-behavior-(recommended)) was not provided in the Stripe Tax settings.
/// Specifies whether the price is considered inclusive of taxes or exclusive of taxes.
/// One of `inclusive`, `exclusive`, or `unspecified`.
/// Once specified as either `inclusive` or `exclusive`, it cannot be changed.
#[derive(Copy, Clone, Debug, PartialEq, Eq, Structural)]
pub enum CreateSubscriptionSchedulePhasesAddInvoiceItemsPriceDataTaxBehavior {
    Exclusive,
    Inclusive,
    Unspecified,
}

impl CreateSubscriptionSchedulePhasesAddInvoiceItemsPriceDataTaxBehavior {
    /// The name of the value on the wire.
    pub open spec fn wire_name(self) -> Seq<char> {
        match self {
            CreateSubscriptionSchedulePhasesAddInvoiceItemsPriceDataTaxBehavior::Exclusive => "exclusive"@,
            CreateSubscriptionSchedulePhasesAddInvoiceItemsPriceDataTaxBehavior::Inclusive => "inclusive"@,
            CreateSubscriptionSchedulePhasesAddInvoiceItemsPriceDataTaxBehavior::Unspecified => "unspecified"@,
        }
    }

    pub fn as_str(self) -> (name: &'static str)
        ensures
            name@ == self.wire_name(),
    {
        match self {
            CreateSubscriptionSchedulePhasesAddInvoiceItemsPriceDataTaxBehavior::Exclusive => "exclusive",
            CreateSubscriptionSchedulePhasesAddInvoiceItemsPriceDataTaxBehavior::Inclusive => "inclusive",
            CreateSubscriptionSchedulePhasesAddInvoiceItemsPriceDataTaxBehavior::Unspecified => "unspecified",
        }
    }
}

impl std::str::FromStr for CreateSubscriptionSchedulePhasesAddInvoiceItemsPriceDataTaxBehavior {
    type Err = StripeParseError;

    /// Reads a wire name; fails on a string that is the name of no value.
    fn from_str(s: &str) -> (parsed: Result<Self, Self::Err>)
        ensures
            match parsed {
                Ok(v) => v.wire_name() == s@,
                Err(_) => forall|v: CreateSubscriptionSchedulePhasesAddInvoiceItemsPriceDataTaxBehavior| #[trigger] v.wire_name() != s@,
            },
    {
        if str_eq(s, "exclusive") {
            Ok(CreateSubscriptionSchedulePhasesAddInvoiceItemsPriceDataTaxBehavior::Exclusive)
        } else if str_eq(s, "inclusive") {
            Ok(CreateSubscriptionSchedulePhasesAddInvoiceItemsPriceDataTaxBehavior::Inclusive)
        } else if str_eq(s, "unspecified") {
            Ok(CreateSubscriptionSchedulePhasesAddInvoiceItemsPriceDataTaxBehavior::Unspecified)
        } else {
            Err(StripeParseError)
        }
    }
}

/// Two values of `CreateSubscriptionSchedulePhasesAddInvoiceItemsPriceDataTaxBehavior` with one wire name are the same value, so
/// reading back what `as_str` gives returns the value it was called on.
pub proof fn lemma_create_subscription_schedule_phases_add_invoice_items_price_data_tax_behavior_wire_names_differ(a: CreateSubscriptionSchedulePhasesAddInvoiceItemsPriceDataTaxBehavior, b: CreateSubscriptionSchedulePhasesAddInvoiceItemsPriceDataTaxBehavior)
    requires
        a.wire_name() == b.wire_name(),
    ensures
        a == b,
{
    reveal_strlit("exclusive");
    reveal_strlit("inclusive");
    reveal_strlit("unspecified");
    assert("exclusive"@.len() == 9);
    assert("inclusive"@.len() == 9);
    assert("unspecified"@.len() == 11);
    assert("exclusive"@[0] != "inclusive"@[0]);
}

/// Automatic tax settings for this phase.
#[derive(Copy, Clone, Debug)]
pub struct CreateSubscriptionSchedulePhasesAutomaticTax<'a> {
    /// Enabled automatic tax calculation which will automatically compute tax rates on all invoices generated by the subscription.
    pub enabled: bool,
    /// The account that's liable for tax.
    /// If set, the business address and tax registrations required to perform the tax calculation are loaded from this account.
    /// The tax transaction is returned in the report of the connected account.
    pub liability: Option<CreateSubscriptionSchedulePhasesAutomaticTaxLiability<'a>>,
}

impl<'a> CreateSubscriptionSchedulePhasesAutomaticTax<'a> {
    pub fn new(enabled: bool) -> (out: Self)
        ensures
            out == (CreateSubscriptionSchedulePhasesAutomaticTax { enabled: enabled, liability: None }),
    {
        Self { enabled, liability: None }
    }
}

/// The account that's liable for tax.
/// If set, the business address and tax registrations required to perform the tax calculation are loaded from this account.
/// The tax transaction is returned in the report of the connected account.
#[derive(Copy, Clone, Debug)]
pub struct CreateSubscriptionSchedulePhasesAutomaticTaxLiability<'a> {
    /// The connected account being referenced when `type` is `account`.
    pub account: Option<&'a str>,
    /// Type of the account referenced in the request.
    pub type_: CreateSubscriptionSchedulePhasesAutomaticTaxLiabilityType,
}

impl<'a> CreateSubscriptionSchedulePhasesAutomaticTaxLiability<'a> {
    pub fn new(type_: CreateSubscriptionSchedulePhasesAutomaticTaxLiabilityType) -> (out: Self)
        ensures
            out == (CreateSubscriptionSchedulePhasesAutomaticTaxLiability { account: None, type_: type_ }),
    {
        Self { account: None, type_ }
    }
}

/// Type of the account referenced in the request.
#[derive(Copy, Clone, Debug, PartialEq, Eq, Structural)]
pub enum CreateSubscriptionSchedulePhasesAutomaticTaxLiabilityType {
    Account,
    Self_,
}

impl CreateSubscriptionSchedulePhasesAutomaticTaxLiabilityType {
    /// The name of the value on the wire.
    pub open spec fn wire_name(self) -> Seq<char> {
        match self {
            CreateSubscriptionSchedulePhasesAutomaticTaxLiabilityType::Account => "account"@,
            CreateSubscriptionSchedulePhasesAutomaticTaxLiabilityType::Self_ => "self"@,
        }
    }

    pub fn as_str(self) -> (name: &'static str)
        ensures
            name@ == self.wire_name(),
    {
        match self {
            CreateSubscriptionSchedulePhasesAutomaticTaxLiabilityType::Account => "account",
            CreateSubscriptionSchedulePhasesAutomaticTaxLiabilityType::Self_ => "self",
        }
    }
}

impl std::str::FromStr for CreateSubscriptionSchedulePhasesAutomaticTaxLiabilityType {
    type Err = StripeParseError;

    /// Reads a wire name; fails on a string that is the name of no value.
    fn from_str(s: &str) -> (parsed: Result<Self, Self::Err>)
        ensures
            match parsed {
                Ok(v) => v.wire_name() == s@,
                Err(_) => forall|v: CreateSubscriptionSchedulePhasesAutomaticTaxLiabilityType| #[trigger] v.wire_name() != s@,
            },
    {
        if str_eq(s, "account") {
            Ok(CreateSubscriptionSchedulePhasesAutomaticTaxLiabilityType::Account)
        } else if str_eq(s, "self") {
            Ok(CreateSubscriptionSchedulePhasesAutomaticTaxLiabilityType::Self_)
        } else {
            Err(StripeParseError)
        }
    }
}

/// Two values of `CreateSubscriptionSchedulePhasesAutomaticTaxLiabilityType` with one wire name are the same value, so
/// reading back what `as_str` gives returns the value it was called on.
pub proof fn lemma_create_subscription_schedule_phases_automatic_tax_liability_type_wire_names_differ(a: CreateSubscriptionSchedulePhasesAutomaticTaxLiabilityType, b: CreateSubscriptionSchedulePhasesAutomaticTaxLiabilityType)
    requires
        a.wire_name() == b.wire_name(),
    ensures
        a == b,
{
    reveal_strlit("account");
    reveal_strlit("self");
    assert("account"@.len() == 7);
    assert("self"@.len() == 4);
}

/// Can be set to `phase_start` to set the anchor to the start of the phase or `automatic` to automatically change it if needed.
/// Cannot be set to `phase_start` if this phase specifies a trial.
/// For more information, see the billing cycle [documentation](https://stripe.com/docs/billing/subscriptions/billing-cycle).
#[derive(Copy, Clone, Debug, PartialEq, Eq, Structural)]
pub enum CreateSubscriptionSchedulePhasesBillingCycleAnchor {
    Automatic,
    PhaseStart,
}

impl CreateSubscriptionSchedulePhasesBillingCycleAnchor {
    /// The name of the value on the wire.
    pub open spec fn wire_name(self) -> Seq<char> {
        match self {
            CreateSubscriptionSchedulePhasesBillingCycleAnchor::Automatic => "automatic"@,
            CreateSubscriptionSchedulePhasesBillingCycleAnchor::PhaseStart => "phase_start"@,
        }
    }

    pub fn as_str(self) -> (name: &'static str)
        ensures
            name@ == self.wire_name(),
    {
        match self {
            CreateSubscriptionSchedulePhasesBillingCycleAnchor::Automatic => "automatic",
            CreateSubscriptionSchedulePhasesBillingCycleAnchor::PhaseStart => "phase_start",
        }
    }
}

impl std::str::FromStr for CreateSubscriptionSchedulePhasesBillingCycleAnchor {
    type Err = StripeParseError;

    /// Reads a wire name; fails on a string that is the name of no value.
    fn from_str(s: &str) -> (parsed: Result<Self, Self::Err>)
        ensures
            match parsed {
                Ok(v) => v.wire_name() == s@,
                Err(_) => forall|v: CreateSubscriptionSchedulePhasesBillingCycleAnchor| #[trigger] v.wire_name() != s@,
            },
    {
        if str_eq(s, "automatic") {
            Ok(CreateSubscriptionSchedulePhasesBillingCycleAnchor::Automatic)
        } else if str_eq(s, "phase_start") {
            Ok(CreateSubscriptionSchedulePhasesBillingCycleAnchor::PhaseStart)
        } else {
            Err(StripeParseError)
        }
    }
}

/// Two values of `CreateSubscriptionSchedulePhasesBillingCycleAnchor` with one wire name are the same value, so
/// reading back what `as_str` gives returns the value it was called on.
pub proof fn lemma_create_subscription_schedule_phases_billing_cycle_anchor_wire_names_differ(a: CreateSubscriptionSchedulePhasesBillingCycleAnchor, b: CreateSubscriptionSchedulePhasesBillingCycleAnchor)
    requires
        a.wire_name() == b.wire_name(),
    ensures
        a == b,
{
    reveal_strlit("automatic");
    reveal_strlit("phase_start");
    assert("automatic"@.len() == 9);
    assert("phase_start"@.len() == 11);
}

/// Either `charge_automatically`, or `send_invoice`.
/// When charging automatically, Stripe will attempt to pay the underlying subscription at the end of each billing cycle using the default source attached to the customer.
/// When sending an invoice, Stripe will email your customer an invoice with payment instructions and mark the subscription as `active`.
/// Defaults to `charge_automatically` on creation.
#[derive(Copy, Clone, Debug, PartialEq, Eq, Structural)]
pub enum CreateSubscriptionSchedulePhasesCollectionMethod {
    ChargeAutomatically,
    SendInvoice,
}

impl CreateSubscriptionSchedulePhasesCollectionMethod {
    /// The name of the value on the wire.
    pub open spec fn wire_name(self) -> Seq<char> {
        match self {
            CreateSubscriptionSchedulePhasesCollectionMethod::ChargeAutomatically => "charge_automatically"@,
            CreateSubscriptionSchedulePhasesCollectionMethod::SendInvoice => "send_invoice"@,
        }
    }

    pub fn as_str(self) -> (name: &'static str)
        ensures
            name@ == self.wire_name(),
    {
        match self {
            CreateSubscriptionSchedulePhasesCollectionMethod::ChargeAutomatically => "charge_automatically",
            CreateSubscriptionSchedulePhasesCollectionMethod::SendInvoice => "send_invoice",
        }
    }
}

impl std::str::FromStr for CreateSubscriptionSchedulePhasesCollectionMethod {
    type Err = StripeParseError;

    /// Reads a wire name; fails on a string that is the name of no value.
    fn from_str(s: &str) -> (parsed: Result<Self, Self::Err>)
        ensures
            match parsed {
                Ok(v) => v.wire_name() == s@,
                Err(_) => forall|v: CreateSubscriptionSchedulePhasesCollectionMethod| #[trigger] v.wire_name() != s@,
            },
    {
        if str_eq(s, "charge_automatically") {
            Ok(CreateSubscriptionSchedulePhasesCollectionMethod::ChargeAutomatically)
        } else if str_eq(s, "send_invoice") {
            Ok(CreateSubscriptionSchedulePhasesCollectionMethod::SendInvoice)
        } else {
            Err(StripeParseError)
        }
    }
}

/// Two values of `CreateSubscriptionSchedulePhasesCollectionMethod` with one wire name are the same value, so
/// reading back what `as_str` gives returns the value it was called on.
pub proof fn lemma_create_subscription_schedule_phases_collection_method_wire_names_differ(a: CreateSubscriptionSchedulePhasesCollectionMethod, b: CreateSubscriptionSchedulePhasesCollectionMethod)
    requires
        a.wire_name() == b.wire_name(),
    ensures
        a == b,
{
    reveal_strlit("charge_automatically");
    reveal_strlit("send_invoice");
    assert("charge_automatically"@.len() == 20);
    assert("send_invoice"@.len() == 12);
}

/// All invoices will be billed using the specified settings.
#[derive(Copy, Clone, Debug)]
pub struct CreateSubscriptionSchedulePhasesInvoiceSettings<'a> {
    /// The account tax IDs associated with this phase of the subscription schedule.
    /// Will be set on invoices generated by this phase of the subscription schedule.
    pub account_tax_ids: Option<&'a [&'a str]>,
    /// Number of days within which a customer must pay invoices generated by this subscription schedule.
    /// This value will be `null` for subscription schedules where `billing=charge_automatically`.
    pub days_until_due: Option<u32>,
    /// The connected account that issues the invoice.
    /// The invoice is presented with the branding and support information of the specified account.
    pub issuer: Option<CreateSubscriptionSchedulePhasesInvoiceSettingsIssuer<'a>>,
}

impl<'a> CreateSubscriptionSchedulePhasesInvoiceSettings<'a> {
    pub fn new() -> (out: Self)
        ensures
            out == (CreateSubscriptionSchedulePhasesInvoiceSettings { account_tax_ids: None, days_until_due: None, issuer: None }),
    {
        Self { account_tax_ids: None, days_until_due: None, issuer: None }
    }
}

impl<'a> Default for CreateSubscriptionSchedulePhasesInvoiceSettings<'a> {
    fn default() -> (out: Self)
        ensures
            out == (CreateSubscriptionSchedulePhasesInvoiceSettings { account_tax_ids: None, days_until_due: None, issuer: None }),
    {
        Self::new()
    }
}

/// The connected account that issues the invoice.
/// The invoice is presented with the branding and support information of the specified account.
#[derive(Copy, Clone, Debug)]
pub struct CreateSubscriptionSchedulePhasesInvoiceSettingsIssuer<'a> {
    /// The connected account being referenced when `type` is `account`.
    pub account: Option<&'a str>,
    /// Type of the account referenced in the request.
    pub type_: CreateSubscriptionSchedulePhasesInvoiceSettingsIssuerType,
}

impl<'a> CreateSubscriptionSchedulePhasesInvoiceSettingsIssuer<'a> {
    pub fn new(type_: CreateSubscriptionSchedulePhasesInvoiceSettingsIssuerType) -> (out: Self)
        ensures
            out == (CreateSubscriptionSchedulePhasesInvoiceSettingsIssuer { account: None, type_: type_ }),
    {
        Self { account: None, type_ }
    }
}

/// Type of the account referenced in the request.
#[derive(Copy, Clone, Debug, PartialEq, Eq, Structural)]
pub enum CreateSubscriptionSchedulePhasesInvoiceSettingsIssuerType {
    Account,
    Self_,
}

impl CreateSubscriptionSchedulePhasesInvoiceSettingsIssuerType {
    /// The name of the value on the wire.
    pub open spec fn wire_name(self) -> Seq<char> {
        match self {
            CreateSubscriptionSchedulePhasesInvoiceSettingsIssuerType::Account => "account"@,
            CreateSubscriptionSchedulePhasesInvoiceSettingsIssuerType::Self_ => "self"@,
        }
    }

    pub fn as_str(self) -> (name: &'static str)
        ensures
            name@ == self.wire_name(),
    {
        match self {
            CreateSubscriptionSchedulePhasesInvoiceSettingsIssuerType::Account => "account",
            CreateSubscriptionSchedulePhasesInvoiceSettingsIssuerType::Self_ => "self",
        }
    }
}

impl std::str::FromStr for CreateSubscriptionSchedulePhasesInvoiceSettingsIssuerType {
    type Err = StripeParseError;

    /// Reads a wire name; fails on a string that is the name of no value.
    fn from_str(s: &str) -> (parsed: Result<Self, Self::Err>)
        ensures
            match parsed {
                Ok(v) => v.wire_name() == s@,
                Err(_) => forall|v: CreateSubscriptionSchedulePhasesInvoiceSettingsIssuerType| #[trigger] v.wire_name() != s@,
            },
    {
        if str_eq(s, "account") {
            Ok(CreateSubscriptionSchedulePhasesInvoiceSettingsIssuerType::Account)
        } else if str_eq(s, "self") {
            Ok(CreateSubscriptionSchedulePhasesInvoiceSettingsIssuerType::Self_)
        } else {
            Err(StripeParseError)
        }
    }
}

/// Two values of `CreateSubscriptionSchedulePhasesInvoiceSettingsIssuerType` with one wire name are the same value, so
/// reading back what `as_str` gives returns the value it was called on.
pub proof fn lemma_create_subscription_schedule_phases_invoice_settings_issuer_type_wire_names_differ(a: CreateSubscriptionSchedulePhasesInvoiceSettingsIssuerType, b: CreateSubscriptionSchedulePhasesInvoiceSettingsIssuerType)
    requires
        a.wire_name() == b.wire_name(),
    ensures
        a == b,
{
    reveal_strlit("account");
    reveal_strlit("self");
    assert("account"@.len() == 7);
    assert("self"@.len() == 4);
}

/// List of configuration items, each with an attached price, to apply during this phase of the subscription schedule.
#[derive(Copy, Clone, Debug)]
pub struct CreateSubscriptionSchedulePhasesItems<'a> {
    /// Define thresholds at which an invoice will be sent, and the subscription advanced to a new billing period.
    /// When updating, pass an empty string to remove previously-defined thresholds.
    pub billing_thresholds: Option<ItemBillingThresholdsParam>,
    /// The coupons to redeem into discounts for the subscription item.
    pub discounts: Option<&'a [DiscountsDataParam<'a>]>,
    /// Set of [key-value pairs](https://stripe.com/docs/api/metadata) that you can attach to a configuration item.
    /// Metadata on a configuration item will update the underlying subscription item's `metadata` when the phase is entered, adding new keys and replacing existing keys.
    /// Individual keys in the subscription item's `metadata` can be unset by posting an empty value to them in the configuration item's `metadata`.
    /// To unset all keys in the subscription item's `metadata`, update the subscription item directly or unset every key individually from the configuration item's `metadata`.
    pub metadata: Option<&'a HashMap<String, String>>,
    /// The plan ID to subscribe to. You may specify the same ID in `plan` and `price`.
    pub plan: Option<&'a str>,
    /// The ID of the price object.
    pub price: Option<&'a str>,
    /// Data used to generate a new [Price](https://stripe.com/docs/api/prices) object inline.
    pub price_data: Option<CreateSubscriptionSchedulePhasesItemsPriceData<'a>>,
    /// Quantity for the given price.
    /// Can be set only if the price's `usage_type` is `licensed` and not `metered`.
    pub quantity: Option<u64>,
    /// A list of [Tax Rate](https://stripe.com/docs/api/tax_rates) ids.
    /// These Tax Rates will override the [`default_tax_rates`](https://stripe.com/docs/api/subscriptions/create#create_subscription-default_tax_rates) on the Subscription.
    /// When updating, pass an empty string to remove previously-defined tax rates.
    pub tax_rates: Option<&'a [&'a str]>,
}

impl<'a> CreateSubscriptionSchedulePhasesItems<'a> {
    pub fn new() -> (out: Self)
        ensures
            out == (CreateSubscriptionSchedulePhasesItems { billing_thresholds: None, discounts: None, metadata: None, plan: None, price: None, price_data: None, quantity: None, tax_rates: None }),
    {
        Self { billing_thresholds: None, discounts: None, metadata: None, plan: None, price: None, price_data: None, quantity: None, tax_rates: None, }
    }
}

impl<'a> Default for CreateSubscriptionSchedulePhasesItems<'a> {
    fn default() -> (out: Self)
        ensures
            out == (CreateSubscriptionSchedulePhasesItems { billing_thresholds: None, discounts: None, metadata: None, plan: None, price: None, price_data: None, quantity: None, tax_rates: None }),
    {
        Self::new()
    }
}

/// Data used to generate a new [Price](https://stripe.com/docs/api/prices) object inline.
#[derive(Copy, Clone, Debug)]
pub struct CreateSubscriptionSchedulePhasesItemsPriceData<'a> {
    /// Three-letter [ISO currency code](https://www.iso.org/iso-4217-currency-codes.html), in lowercase.
    /// Must be a [supported currency](https://stripe.com/docs/currencies).
    pub currency: Currency,
    /// The ID of the product that this price will belong to.
    pub product: &'a str,
    /// The recurring components of a price such as `interval` and `interval_count`.
    pub recurring: CreateSubscriptionSchedulePhasesItemsPriceDataRecurring,
    /// Only required if a [default tax behavior](https://stripe.com/docs/tax/products-prices-tax-categories-tax-behavior#setting-a-default-tax-behavior-(recommended)) was not provided in the Stripe Tax settings.
    /// Specifies whether the price is considered inclusive of taxes or exclusive of taxes.
    /// One of `inclusive`, `exclusive`, or `unspecified`.
    /// Once specified as either `inclusive` or `exclusive`, it cannot be changed.
    pub tax_behavior: Option<CreateSubscriptionSchedulePhasesItemsPriceDataTaxBehavior>,
    /// A positive integer in cents (or local equivalent) (or 0 for a free price) representing how much to charge.
    pub unit_amount: Option<i64>,
    /// Same as `unit_amount`, but accepts a decimal value in cents (or local equivalent) with at most 12 decimal places.
    /// Only one of `unit_amount` and `unit_amount_decimal` can be set.
    pub unit_amount_decimal: Option<&'a str>,
}

impl<'a> CreateSubscriptionSchedulePhasesItemsPriceData<'a> {
    pub fn new(currency: Currency, product: &'a str, recurring: CreateSubscriptionSchedulePhasesItemsPriceDataRecurring) -> (out: Self)
        ensures
            out == (CreateSubscriptionSchedulePhasesItemsPriceData { currency: currency, product: product, recurring: recurring, tax_behavior: None, unit_amount: None, unit_amount_decimal: None }),
    {
        Self { currency, product, recurring, tax_behavior: None, unit_amount: None, unit_amount_decimal: None, }
    }
}

/// The recurring components of a price such as `interval` and `interval_count`.
#[derive(Copy, Clone, Debug)]
pub struct CreateSubscriptionSchedulePhasesItemsPriceDataRecurring {
    /// Specifies billing frequency. Either `day`, `week`, `month` or `year`.
    pub interval: CreateSubscriptionSchedulePhasesItemsPriceDataRecurringInterval,
    /// The number of intervals between subscription billings.
    /// For example, `interval=month` and `interval_count=3` bills every 3 months.
    /// Maximum of three years interval allowed (3 years, 36 months, or 156 weeks).
    pub interval_count: Option<u64>,
}

impl CreateSubscriptionSchedulePhasesItemsPriceDataRecurring {
    pub fn new(interval: CreateSubscriptionSchedulePhasesItemsPriceDataRecurringInterval) -> (out: Self)
        ensures
            out == (CreateSubscriptionSchedulePhasesItemsPriceDataRecurring { interval: interval, interval_count: None }),
    {
        Self { interval, interval_count: None }
    }
}

/// Specifies billing frequency. Either `day`, `week`, `month` or `year`.
#[derive(Copy, Clone, Debug, PartialEq, Eq, Structural)]
pub enum CreateSubscriptionSchedulePhasesItemsPriceDataRecurringInterval {
    Day,
    Month,
    Week,
    Year,
}

impl CreateSubscriptionSchedulePhasesItemsPriceDataRecurringInterval {
    /// The name of the value on the wire.
    pub open spec fn wire_name(self) -> Seq<char> {
        match self {
            CreateSubscriptionSchedulePhasesItemsPriceDataRecurringInterval::Day => "day"@,
            CreateSubscriptionSchedulePhasesItemsPriceDataRecurringInterval::Month => "month"@,
            CreateSubscriptionSchedulePhasesItemsPriceDataRecurringInterval::Week => "week"@,
            CreateSubscriptionSchedulePhasesItemsPriceDataRecurringInterval::Year => "year"@,
        }
    }

    pub fn as_str(self) -> (name: &'static str)
        ensures
            name@ == self.wire_name(),
    {
        match self {
            CreateSubscriptionSchedulePhasesItemsPriceDataRecurringInterval::Day => "day",
            CreateSubscriptionSchedulePhasesItemsPriceDataRecurringInterval::Month => "month",
            CreateSubscriptionSchedulePhasesItemsPriceDataRecurringInterval::Week => "week",
            CreateSubscriptionSchedulePhasesItemsPriceDataRecurringInterval::Year => "year",
        }
    }
}

impl std::str::FromStr for CreateSubscriptionSchedulePhasesItemsPriceDataRecurringInterval {
    type Err = StripeParseError;

    /// Reads a wire name; fails on a string that is the name of no value.
    fn from_str(s: &str) -> (parsed: Result<Self, Self::Err>)
        ensures
            match parsed {
                Ok(v) => v.wire_name() == s@,
                Err(_) => forall|v: CreateSubscriptionSchedulePhasesItemsPriceDataRecurringInterval| #[trigger] v.wire_name() != s@,
            },
    {
        if str_eq(s, "day") {
            Ok(CreateSubscriptionSchedulePhasesItemsPriceDataRecurringInterval::Day)
        } else if str_eq(s, "month") {
            Ok(CreateSubscriptionSchedulePhasesItemsPriceDataRecurringInterval::Month)
        } else if str_eq(s, "week") {
            Ok(CreateSubscriptionSchedulePhasesItemsPriceDataRecurringInterval::Week)
        } else if str_eq(s, "year") {
            Ok(CreateSubscriptionSchedulePhasesItemsPriceDataRecurringInterval::Year)
        } else {
            Err(StripeParseError)
        }
    }
}

/// Two values of `CreateSubscriptionSchedulePhasesItemsPriceDataRecurringInterval` with one wire name are the same value, so
/// reading back what `as_str` gives returns the value it was called on.
pub proof fn lemma_create_subscription_schedule_phases_items_price_data_recurring_interval_wire_names_differ(a: CreateSubscriptionSchedulePhasesItemsPriceDataRecurringInterval, b: CreateSubscriptionSchedulePhasesItemsPriceDataRecurringInterval)
    requires
        a.wire_name() == b.wire_name(),
    ensures
        a == b,
{
    reveal_strlit("day");
    reveal_strlit("month");
    reveal_strlit("week");
    reveal_strlit("year");
    assert("day"@.len() == 3);
    assert("month"@.len() == 5);
    assert("week"@.len() == 4);
    assert("year"@.len() == 4);
    assert("week"@[0] != "year"@[0]);
}

/// Only required if a [default tax behavior](https://stripe.com/docs/tax/products-prices-tax-categories-tax-behavior#setting-a-default-tax-behavior-(recommended)) was not provided in the Stripe Tax settings.
/// Specifies whether the price is considered inclusive of taxes or exclusive of taxes.
/// One of `inclusive`, `exclusive`, or `unspecified`.
/// Once specified as either `inclusive` or `exclusive`, it cannot be changed.
#[derive(Copy, Clone, Debug, PartialEq, Eq, Structural)]
pub enum CreateSubscriptionSchedulePhasesItemsPriceDataTaxBehavior {
    Exclusive,
    Inclusive,
    Unspecified,
}

impl CreateSubscriptionSchedulePhasesItemsPriceDataTaxBehavior {
    /// The name of the value on the wire.
    pub open spec fn wire_name(self) -> Seq<char> {
        match self {
            CreateSubscriptionSchedulePhasesItemsPriceDataTaxBehavior::Exclusive => "exclusive"@,
            CreateSubscriptionSchedulePhasesItemsPriceDataTaxBehavior::Inclusive => "inclusive"@,
            CreateSubscriptionSchedulePhasesItemsPriceDataTaxBehavior::Unspecified => "unspecified"@,
        }
    }

    pub fn as_str(self) -> (name: &'static str)
        ensures
            name@ == self.wire_name(),
    {
        match self {
            CreateSubscriptionSchedulePhasesItemsPriceDataTaxBehavior::Exclusive => "exclusive",
            CreateSubscriptionSchedulePhasesItemsPriceDataTaxBehavior::Inclusive => "inclusive",
            CreateSubscriptionSchedulePhasesItemsPriceDataTaxBehavior::Unspecified => "unspecified",
        }
    }
}

impl std::str::FromStr for CreateSubscriptionSchedulePhasesItemsPriceDataTaxBehavior {
    type Err = StripeParseError;

    /// Reads a wire name; fails on a string that is the name of no value.
    fn from_str(s: &str) -> (parsed: Result<Self, Self::Err>)
        ensures
            match parsed {
                Ok(v) => v.wire_name() == s@,
                Err(_) => forall|v: CreateSubscriptionSchedulePhasesItemsPriceDataTaxBehavior| #[trigger] v.wire_name() != s@,
            },
    {
        if str_eq(s, "exclusive") {
            Ok(CreateSubscriptionSchedulePhasesItemsPriceDataTaxBehavior::Exclusive)
        } else if str_eq(s, "inclusive") {
            Ok(CreateSubscriptionSchedulePhasesItemsPriceDataTaxBehavior::Inclusive)
        } else if str_eq(s, "unspecified") {
            Ok(CreateSubscriptionSchedulePhasesItemsPriceDataTaxBehavior::Unspecified)
        } else {
            Err(StripeParseError)
        }
    }
}

/// Two values of `CreateSubscriptionSchedulePhasesItemsPriceDataTaxBehavior` with one wire name are the same value, so
/// reading back what `as_str` gives returns the value it was called on.
pub proof fn lemma_create_subscription_schedule_phases_items_price_data_tax_behavior_wire_names_differ(a: CreateSubscriptionSchedulePhasesItemsPriceDataTaxBehavior, b: CreateSubscriptionSchedulePhasesItemsPriceDataTaxBehavior)
    requires
        a.wire_name() == b.wire_name(),
    ensures
        a == b,
{
    reveal_strlit("exclusive");
    reveal_strlit("inclusive");
    reveal_strlit("unspecified");
    assert("exclusive"@.len() == 9);
    assert("inclusive"@.len() == 9);
    assert("unspecified"@.len() == 11);
    assert("exclusive"@[0] != "inclusive"@[0]);
}

/// Whether the subscription schedule will create [prorations](https://stripe.com/docs/billing/subscriptions/prorations) when transitioning to this phase.
/// The default value is `create_prorations`.
/// This setting controls prorations when a phase is started asynchronously and it is persisted as a field on the phase.
/// It's different from the request-level [proration_behavior](https://stripe.com/docs/api/subscription_schedules/update#update_subscription_schedule-proration_behavior) parameter which controls what happens if the update request affects the billing configuration of the current phase.
#[derive(Copy, Clone, Debug, PartialEq, Eq, Structural)]
pub enum CreateSubscriptionSchedulePhasesProrationBehavior {
    AlwaysInvoice,
    CreateProrations,
    None_,
}

impl CreateSubscriptionSchedulePhasesProrationBehavior {
    /// The name of the value on the wire.
    pub open spec fn wire_name(self) -> Seq<char> {
        match self {
            CreateSubscriptionSchedulePhasesProrationBehavior::AlwaysInvoice => "always_invoice"@,
            CreateSubscriptionSchedulePhasesProrationBehavior::CreateProrations => "create_prorations"@,
            CreateSubscriptionSchedulePhasesProrationBehavior::None_ => "none"@,
        }
    }

    pub fn as_str(self) -> (name: &'static str)
        ensures
            name@ == self.wire_name(),
    {
        match self {
            CreateSubscriptionSchedulePhasesProrationBehavior::AlwaysInvoice => "always_invoice",
            CreateSubscriptionSchedulePhasesProrationBehavior::CreateProrations => "create_prorations",
            CreateSubscriptionSchedulePhasesProrationBehavior::None_ => "none",
        }
    }
}

impl std::str::FromStr for CreateSubscriptionSchedulePhasesProrationBehavior {
    type Err = StripeParseError;

    /// Reads a wire name; fails on a string that is the name of no value.
    fn from_str(s: &str) -> (parsed: Result<Self, Self::Err>)
        ensures
            match parsed {
                Ok(v) => v.wire_name() == s@,
                Err(_) => forall|v: CreateSubscriptionSchedulePhasesProrationBehavior| #[trigger] v.wire_name() != s@,
            },
    {
        if str_eq(s, "always_invoice") {
            Ok(CreateSubscriptionSchedulePhasesProrationBehavior::AlwaysInvoice)
        } else if str_eq(s, "create_prorations") {
            Ok(CreateSubscriptionSchedulePhasesProrationBehavior::CreateProrations)
        } else if str_eq(s, "none") {
            Ok(CreateSubscriptionSchedulePhasesProrationBehavior::None_)
        } else {
            Err(StripeParseError)
        }
    }
}

/// Two values of `CreateSubscriptionSchedulePhasesProrationBehavior` with one wire name are the same value, so
/// reading back what `as_str` gives returns the value it was called on.
pub proof fn lemma_create_subscription_schedule_phases_proration_behavior_wire_names_differ(a: CreateSubscriptionSchedulePhasesProrationBehavior, b: CreateSubscriptionSchedulePhasesProrationBehavior)
    requires
        a.wire_name() == b.wire_name(),
    ensures
        a == b,
{
    reveal_strlit("always_invoice");
    reveal_strlit("create_prorations");
    reveal_strlit("none");
    assert("always_invoice"@.len() == 14);
    assert("create_prorations"@.len() == 17);
    assert("none"@.len() == 4);
}

/// When the subscription schedule starts.
/// We recommend using `now` so that it starts the subscription immediately.
/// You can also use a Unix timestamp to backdate the subscription so that it starts on a past date, or set a future date for the subscription to start on.
#[derive(Copy, Clone, Debug)]
pub enum CreateSubscriptionScheduleStartDate {
    Timestamp(Timestamp),
    Now,
}

/// Creates a new subscription schedule object.
/// Each customer can have up to 500 active or scheduled subscriptions.
#[derive(Clone, Debug)]
pub struct CreateSubscriptionSchedule<'a> {
    pub inner: CreateSubscriptionScheduleBuilder<'a>,
}

impl<'a> CreateSubscriptionSchedule<'a> {
    /// Construct a new `CreateSubscriptionSchedule`.
    pub fn new() -> (out: Self)
        ensures
            out == (CreateSubscriptionSchedule { inner: CreateSubscriptionScheduleBuilder { customer: None, default_settings: None, end_behavior: None, expand: None, from_subscription: None, metadata: None, phases: None, start_date: None } }),
    {
        Self { inner: CreateSubscriptionScheduleBuilder::new() }
    }

    /// The identifier of the customer to create the subscription schedule for.
    pub fn customer(self, customer: &'a str) -> (out: Self)
        ensures
            out == (CreateSubscriptionSchedule { inner: (CreateSubscriptionScheduleBuilder { customer: Some(customer), ..self.inner }), ..self }),
    {
        let mut out = self;
        out.inner.customer = Some(customer);
        out
    }

    /// Object representing the subscription schedule's default settings.
    pub fn default_settings(self, default_settings: CreateSubscriptionScheduleDefaultSettings<'a>) -> (out: Self)
        ensures
            out == (CreateSubscriptionSchedule { inner: (CreateSubscriptionScheduleBuilder { default_settings: Some(default_settings), ..self.inner }), ..self }),
    {
        let mut out = self;
        out.inner.default_settings = Some(default_settings);
        out
    }

    /// Behavior of the subscription schedule and underlying subscription when it ends.
    /// Possible values are `release` or `cancel` with the default being `release`.
    /// `release` will end the subscription schedule and keep the underlying subscription running.
    /// `cancel` will end the subscription schedule and cancel the underlying subscription.
    pub fn end_behavior(self, end_behavior: SubscriptionScheduleEndBehavior) -> (out: Self)
        ensures
            out == (CreateSubscriptionSchedule { inner: (CreateSubscriptionScheduleBuilder { end_behavior: Some(end_behavior), ..self.inner }), ..self }),
    {
        let mut out = self;
        out.inner.end_behavior = Some(end_behavior);
        out
    }

    /// Specifies which fields in the response should be expanded.
    pub fn expand(self, expand: &'a [&'a str]) -> (out: Self)
        ensures
            out == (CreateSubscriptionSchedule { inner: (CreateSubscriptionScheduleBuilder { expand: Some(expand), ..self.inner }), ..self }),
    {
        let mut out = self;
        out.inner.expand = Some(expand);
        out
    }

    /// Migrate an existing subscription to be managed by a subscription schedule.
    /// If this parameter is set, a subscription schedule will be created using the subscription's item(s), set to auto-renew using the subscription's interval.
    /// When using this parameter, other parameters (such as phase values) cannot be set.
    /// To create a subscription schedule with other modifications, we recommend making two separate API calls.
    pub fn from_subscription(self, from_subscription: &'a str) -> (out: Self)
        ensures
            out == (CreateSubscriptionSchedule { inner: (CreateSubscriptionScheduleBuilder { from_subscription: Some(from_subscription), ..self.inner }), ..self }),
    {
        let mut out = self;
        out.inner.from_subscription = Some(from_subscription);
        out
    }

    /// Set of [key-value pairs](https://stripe.com/docs/api/metadata) that you can attach to an object.
    /// This can be useful for storing additional information about the object in a structured format.
    /// Individual keys can be unset by posting an empty value to them.
    /// All keys can be unset by posting an empty value to `metadata`.
    pub fn metadata(self, metadata: &'a HashMap<String, String>) -> (out: Self)
        ensures
            out == (CreateSubscriptionSchedule { inner: (CreateSubscriptionScheduleBuilder { metadata: Some(metadata), ..self.inner }), ..self }),
    {
        let mut out = self;
        out.inner.metadata = Some(metadata);
        out
    }

    /// List representing phases of the subscription schedule.
    /// Each phase can be customized to have different durations, plans, and coupons.
    /// If there are multiple phases, the `end_date` of one phase will always equal the `start_date` of the next phase.
    pub fn phases(self, phases: &'a [CreateSubscriptionSchedulePhases<'a>]) -> (out: Self)
        ensures
            out == (CreateSubscriptionSchedule { inner: (CreateSubscriptionScheduleBuilder { phases: Some(phases), ..self.inner }), ..self }),
    {
        let mut out = self;
        out.inner.phases = Some(phases);
        out
    }

    /// When the subscription schedule starts.
    /// We recommend using `now` so that it starts the subscription immediately.
    /// You can also use a Unix timestamp to backdate the subscription so that it starts on a past date, or set a future date for the subscription to start on.
    pub fn start_date(self, start_date: CreateSubscriptionScheduleStartDate) -> (out: Self)
        ensures
            out == (CreateSubscriptionSchedule { inner: (CreateSubscriptionScheduleBuilder { start_date: Some(start_date), ..self.inner }), ..self }),
    {
        let mut out = self;
        out.inner.start_date = Some(start_date);
        out
    }
}

impl<'a> Default for CreateSubscriptionSchedule<'a> {
    fn default() -> (out: Self)
        ensures
            out == (CreateSubscriptionSchedule { inner: CreateSubscriptionScheduleBuilder { customer: None, default_settings: None, end_behavior: None, expand: None, from_subscription: None, metadata: None, phases: None, start_date: None } }),
    {
        Self::new()
    }
}

impl StripeRequest for CreateSubscriptionSchedule<'_> {
    open spec fn call(&self) -> RequestModel {
        RequestModel { method: StripeMethod::Post, path: "/subscription_schedules"@, query: None, body: None, idempotency_key: None }
    }

    fn build(&self) -> (request: RequestDescription) {
        let path = String::from_str("/subscription_schedules");
        RequestDescription::new(StripeMethod::Post, path)
    }
}

#[derive(Copy, Clone, Debug)]
pub struct UpdateSubscriptionScheduleBuilder<'a> {
    pub default_settings: Option<UpdateSubscriptionScheduleDefaultSettings<'a>>,
    pub end_behavior: Option<SubscriptionScheduleEndBehavior>,
    pub expand: Option<&'a [&'a str]>,
    pub metadata: Option<&'a HashMap<String, String>>,
    pub phases: Option<&'a [UpdateSubscriptionSchedulePhases<'a>]>,
    pub proration_behavior: Option<UpdateSubscriptionScheduleProrationBehavior>,
}

impl<'a> UpdateSubscriptionScheduleBuilder<'a> {
    pub fn new() -> (out: Self)
        ensures
            out == (UpdateSubscriptionScheduleBuilder { default_settings: None, end_behavior: None, expand: None, metadata: None, phases: None, proration_behavior: None }),
    {
        Self { default_settings: None, end_behavior: None, expand: None, metadata: None, phases: None, proration_behavior: None, }
    }
}

/// Object representing the subscription schedule's default settings.
#[derive(Copy, Clone, Debug)]
pub struct UpdateSubscriptionScheduleDefaultSettings<'a> {
    /// A non-negative decimal between 0 and 100, with at most two decimal places.
    /// This represents the percentage of the subscription invoice total that will be transferred to the application owner's Stripe account.
    /// The request must be made by a platform account on a connected account in order to set an application fee percentage.
    /// For more information, see the application fees [documentation](https://stripe.com/docs/connect/subscriptions#collecting-fees-on-subscriptions).
    /// Written as a decimal number.
    pub application_fee_percent: Option<&'a str>,
    /// Default settings for automatic tax computation.
    pub automatic_tax: Option<UpdateSubscriptionScheduleDefaultSettingsAutomaticTax<'a>>,
    /// Can be set to `phase_start` to set the anchor to the start of the phase or `automatic` to automatically change it if needed.
    /// Cannot be set to `phase_start` if this phase specifies a trial.
    /// For more information, see the billing cycle [documentation](https://stripe.com/docs/billing/subscriptions/billing-cycle).
    pub billing_cycle_anchor: Option<UpdateSubscriptionScheduleDefaultSettingsBillingCycleAnchor>,
    /// Define thresholds at which an invoice will be sent, and the subscription advanced to a new billing period.
    /// Pass an empty string to remove previously-defined thresholds.
    pub billing_thresholds: Option<BillingThresholdsParam>,
    /// Either `charge_automatically`, or `send_invoice`.
    /// When charging automatically, Stripe will attempt to pay the underlying subscription at the end of each billing cycle using the default source attached to the customer.
    /// When sending an invoice, Stripe will email your customer an invoice with payment instructions and mark the subscription as `active`.
    /// Defaults to `charge_automatically` on creation.
    pub collection_method: Option<UpdateSubscriptionScheduleDefaultSettingsCollectionMethod>,
    /// ID of the default payment method for the subscription schedule.
    /// It must belong to the customer associated with the subscription schedule.
    /// If not set, invoices will use the default payment method in the customer's invoice settings.
    pub default_payment_method: Option<&'a str>,
    /// Subscription description, meant to be displayable to the customer.
    /// Use this field to optionally store an explanation of the subscription for rendering in Stripe surfaces and certain local payment methods UIs.
    pub description: Option<&'a str>,
    /// All invoices will be billed using the specified settings.
    pub invoice_settings: Option<UpdateSubscriptionScheduleDefaultSettingsInvoiceSettings<'a>>,
    /// The account on behalf of which to charge, for each of the associated subscription's invoices.
    pub on_behalf_of: Option<&'a str>,
    /// The data with which to automatically create a Transfer for each of the associated subscription's invoices.
    pub transfer_data: Option<TransferDataSpecs<'a>>,
}

impl<'a> UpdateSubscriptionScheduleDefaultSettings<'a> {
    pub fn new() -> (out: Self)
        ensures
            out == (UpdateSubscriptionScheduleDefaultSettings { application_fee_percent: None, automatic_tax: None, billing_cycle_anchor: None, billing_thresholds: None, collection_method: None, default_payment_method: None, description: None, invoice_settings: None, on_behalf_of: None, transfer_data: None }),
    {
        Self { application_fee_percent: None, automatic_tax: None, billing_cycle_anchor: None, billing_thresholds: None, collection_method: None, default_payment_method: None, description: None, invoice_settings: None, on_behalf_of: None, transfer_data: None, }
    }
}

impl<'a> Default for UpdateSubscriptionScheduleDefaultSettings<'a> {
    fn default() -> (out: Self)
        ensures
            out == (UpdateSubscriptionScheduleDefaultSettings { application_fee_percent: None, automatic_tax: None, billing_cycle_anchor: None, billing_thresholds: None, collection_method: None, default_payment_method: None, description: None, invoice_settings: None, on_behalf_of: None, transfer_data: None }),
    {
        Self::new()
    }
}

/// Default settings for automatic tax computation.
#[derive(Copy, Clone, Debug)]
pub struct UpdateSubscriptionScheduleDefaultSettingsAutomaticTax<'a> {
    /// Enabled automatic tax calculation which will automatically compute tax rates on all invoices generated by the subscription.
    pub enabled: bool,
    /// The account that's liable for tax.
    /// If set, the business address and tax registrations required to perform the tax calculation are loaded from this account.
    /// The tax transaction is returned in the report of the connected account.
    pub liability: Option<UpdateSubscriptionScheduleDefaultSettingsAutomaticTaxLiability<'a>>,
}

impl<'a> UpdateSubscriptionScheduleDefaultSettingsAutomaticTax<'a> {
    pub fn new(enabled: bool) -> (out: Self)
        ensures
            out == (UpdateSubscriptionScheduleDefaultSettingsAutomaticTax { enabled: enabled, liability: None }),
    {
        Self { enabled, liability: None }
    }
}

/// The account that's liable for tax.
/// If set, the business address and tax registrations required to perform the tax calculation are loaded from this account.
/// The tax transaction is returned in the report of the connected account.
#[derive(Copy, Clone, Debug)]
pub struct UpdateSubscriptionScheduleDefaultSettingsAutomaticTaxLiability<'a> {
    /// The connected account being referenced when `type` is `account`.
    pub account: Option<&'a str>,
    /// Type of the account referenced in the request.
    pub type_: UpdateSubscriptionScheduleDefaultSettingsAutomaticTaxLiabilityType,
}

impl<'a> UpdateSubscriptionScheduleDefaultSettingsAutomaticTaxLiability<'a> {
    pub fn new(type_: UpdateSubscriptionScheduleDefaultSettingsAutomaticTaxLiabilityType) -> (out: Self)
        ensures
            out == (UpdateSubscriptionScheduleDefaultSettingsAutomaticTaxLiability { account: None, type_: type_ }),
    {
        Self { account: None, type_ }
    }
}

/// Type of the account referenced in the request.
#[derive(Copy, Clone, Debug, PartialEq, Eq, Structural)]
pub enum UpdateSubscriptionScheduleDefaultSettingsAutomaticTaxLiabilityType {
    Account,
    Self_,
}

impl UpdateSubscriptionScheduleDefaultSettingsAutomaticTaxLiabilityType {
    /// The name of the value on the wire.
    pub open spec fn wire_name(self) -> Seq<char> {
        match self {
            UpdateSubscriptionScheduleDefaultSettingsAutomaticTaxLiabilityType::Account => "account"@,
            UpdateSubscriptionScheduleDefaultSettingsAutomaticTaxLiabilityType::Self_ => "self"@,
        }
    }

    pub fn as_str(self) -> (name: &'static str)
        ensures
            name@ == self.wire_name(),
    {
        match self {
            UpdateSubscriptionScheduleDefaultSettingsAutomaticTaxLiabilityType::Account => "account",
            UpdateSubscriptionScheduleDefaultSettingsAutomaticTaxLiabilityType::Self_ => "self",
        }
    }
}

impl std::str::FromStr for UpdateSubscriptionScheduleDefaultSettingsAutomaticTaxLiabilityType {
    type Err = StripeParseError;

    /// Reads a wire name; fails on a string that is the name of no value.
    fn from_str(s: &str) -> (parsed: Result<Self, Self::Err>)
        ensures
            match parsed {
                Ok(v) => v.wire_name() == s@,
                Err(_) => forall|v: UpdateSubscriptionScheduleDefaultSettingsAutomaticTaxLiabilityType| #[trigger] v.wire_name() != s@,
            },
    {
        if str_eq(s, "account") {
            Ok(UpdateSubscriptionScheduleDefaultSettingsAutomaticTaxLiabilityType::Account)
        } else if str_eq(s, "self") {
            Ok(UpdateSubscriptionScheduleDefaultSettingsAutomaticTaxLiabilityType::Self_)
        } else {
            Err(StripeParseError)
        }
    }
}

/// Two values of `UpdateSubscriptionScheduleDefaultSettingsAutomaticTaxLiabilityType` with one wire name are the same value, so
/// reading back what `as_str` gives returns the value it was called on.
pub proof fn lemma_update_subscription_schedule_default_settings_automatic_tax_liability_type_wire_names_differ(a: UpdateSubscriptionScheduleDefaultSettingsAutomaticTaxLiabilityType, b: UpdateSubscriptionScheduleDefaultSettingsAutomaticTaxLiabilityType)
    requires
        a.wire_name() == b.wire_name(),
    ensures
        a == b,
{
    reveal_strlit("account");
    reveal_strlit("self");
    assert("account"@.len() == 7);
    assert("self"@.len() == 4);
}

/// Can be set to `phase_start` to set the anchor to the start of the phase or `automatic` to automatically change it if needed.
/// Cannot be set to `phase_start` if this phase specifies a trial.
/// For more information, see the billing cycle [documentation](https://stripe.com/docs/billing/subscriptions/billing-cycle).
#[derive(Copy, Clone, Debug, PartialEq, Eq, Structural)]
pub enum UpdateSubscriptionScheduleDefaultSettingsBillingCycleAnchor {
    Automatic,
    PhaseStart,
}

impl UpdateSubscriptionScheduleDefaultSettingsBillingCycleAnchor {
    /// The name of the value on the wire.
    pub open spec fn wire_name(self) -> Seq<char> {
        match self {
            UpdateSubscriptionScheduleDefaultSettingsBillingCycleAnchor::Automatic => "automatic"@,
            UpdateSubscriptionScheduleDefaultSettingsBillingCycleAnchor::PhaseStart => "phase_start"@,
        }
    }

    pub fn as_str(self) -> (name: &'static str)
        ensures
            name@ == self.wire_name(),
    {
        match self {
            UpdateSubscriptionScheduleDefaultSettingsBillingCycleAnchor::Automatic => "automatic",
            UpdateSubscriptionScheduleDefaultSettingsBillingCycleAnchor::PhaseStart => "phase_start",
        }
    }
}

impl std::str::FromStr for UpdateSubscriptionScheduleDefaultSettingsBillingCycleAnchor {
    type Err = StripeParseError;

    /// Reads a wire name; fails on a string that is the name of no value.
    fn from_str(s: &str) -> (parsed: Result<Self, Self::Err>)
        ensures
            match parsed {
                Ok(v) => v.wire_name() == s@,
                Err(_) => forall|v: UpdateSubscriptionScheduleDefaultSettingsBillingCycleAnchor| #[trigger] v.wire_name() != s@,
            },
    {
        if str_eq(s, "automatic") {
            Ok(UpdateSubscriptionScheduleDefaultSettingsBillingCycleAnchor::Automatic)
        } else if str_eq(s, "phase_start") {
            Ok(UpdateSubscriptionScheduleDefaultSettingsBillingCycleAnchor::PhaseStart)
        } else {
            Err(StripeParseError)
        }
    }
}

/// Two values of `UpdateSubscriptionScheduleDefaultSettingsBillingCycleAnchor` with one wire name are the same value, so
/// reading back what `as_str` gives returns the value it was called on.
pub proof fn lemma_update_subscription_schedule_default_settings_billing_cycle_anchor_wire_names_differ(a: UpdateSubscriptionScheduleDefaultSettingsBillingCycleAnchor, b: UpdateSubscriptionScheduleDefaultSettingsBillingCycleAnchor)
    requires
        a.wire_name() == b.wire_name(),
    ensures
        a == b,
{
    reveal_strlit("automatic");
    reveal_strlit("phase_start");
    assert("automatic"@.len() == 9);
    assert("phase_start"@.len() == 11);
}

/// Either `charge_automatically`, or `send_invoice`.
/// When charging automatically, Stripe will attempt to pay the underlying subscription at the end of each billing cycle using the default source attached to the customer.
/// When sending an invoice, Stripe will email your customer an invoice with payment instructions and mark the subscription as `active`.
/// Defaults to `charge_automatically` on creation.
#[derive(Copy, Clone, Debug, PartialEq, Eq, Structural)]
pub enum UpdateSubscriptionScheduleDefaultSettingsCollectionMethod {
    ChargeAutomatically,
    SendInvoice,
}

impl UpdateSubscriptionScheduleDefaultSettingsCollectionMethod {
    /// The name of the value on the wire.
    pub open spec fn wire_name(self) -> Seq<char> {
        match self {
            UpdateSubscriptionScheduleDefaultSettingsCollectionMethod::ChargeAutomatically => "charge_automatically"@,
            UpdateSubscriptionScheduleDefaultSettingsCollectionMethod::SendInvoice => "send_invoice"@,
        }
    }

    pub fn as_str(self) -> (name: &'static str)
        ensures
            name@ == self.wire_name(),
    {
        match self {
            UpdateSubscriptionScheduleDefaultSettingsCollectionMethod::ChargeAutomatically => "charge_automatically",
            UpdateSubscriptionScheduleDefaultSettingsCollectionMethod::SendInvoice => "send_invoice",
        }
    }
}

impl std::str::FromStr for UpdateSubscriptionScheduleDefaultSettingsCollectionMethod {
    type Err = StripeParseError;

    /// Reads a wire name; fails on a string that is the name of no value.
    fn from_str(s: &str) -> (parsed: Result<Self, Self::Err>)
        ensures
            match parsed {
                Ok(v) => v.wire_name() == s@,
                Err(_) => forall|v: UpdateSubscriptionScheduleDefaultSettingsCollectionMethod| #[trigger] v.wire_name() != s@,
            },
    {
        if str_eq(s, "charge_automatically") {
            Ok(UpdateSubscriptionScheduleDefaultSettingsCollectionMethod::ChargeAutomatically)
        } else if str_eq(s, "send_invoice") {
            Ok(UpdateSubscriptionScheduleDefaultSettingsCollectionMethod::SendInvoice)
        } else {
            Err(StripeParseError)
        }
    }
}

/// Two values of `UpdateSubscriptionScheduleDefaultSettingsCollectionMethod` with one wire name are the same value, so
/// reading back what `as_str` gives returns the value it was called on.
pub proof fn lemma_update_subscription_schedule_default_settings_collection_method_wire_names_differ(a: UpdateSubscriptionScheduleDefaultSettingsCollectionMethod, b: UpdateSubscriptionScheduleDefaultSettingsCollectionMethod)
    requires
        a.wire_name() == b.wire_name(),
    ensures
        a == b,
{
    reveal_strlit("charge_automatically");
    reveal_strlit("send_invoice");
    assert("charge_automatically"@.len() == 20);
    assert("send_invoice"@.len() == 12);
}

/// All invoices will be billed using the specified settings.
#[derive(Copy, Clone, Debug)]
pub struct UpdateSubscriptionScheduleDefaultSettingsInvoiceSettings<'a> {
    /// The account tax IDs associated with the subscription schedule.
    /// Will be set on invoices generated by the subscription schedule.
    pub account_tax_ids: Option<&'a [&'a str]>,
    /// Number of days within which a customer must pay invoices generated by this subscription schedule.
    /// This value will be `null` for subscription schedules where `collection_method=charge_automatically`.
    pub days_until_due: Option<u32>,
    /// The connected account that issues the invoice.
    /// The invoice is presented with the branding and support information of the specified account.
    pub issuer: Option<UpdateSubscriptionScheduleDefaultSettingsInvoiceSettingsIssuer<'a>>,
}

impl<'a> UpdateSubscriptionScheduleDefaultSettingsInvoiceSettings<'a> {
    pub fn new() -> (out: Self)
        ensures
            out == (UpdateSubscriptionScheduleDefaultSettingsInvoiceSettings { account_tax_ids: None, days_until_due: None, issuer: None }),
    {
        Self { account_tax_ids: None, days_until_due: None, issuer: None }
    }
}

impl<'a> Default for UpdateSubscriptionScheduleDefaultSettingsInvoiceSettings<'a> {
    fn default() -> (out: Self)
        ensures
            out == (UpdateSubscriptionScheduleDefaultSettingsInvoiceSettings { account_tax_ids: None, days_until_due: None, issuer: None }),
    {
        Self::new()
    }
}

/// The connected account that issues the invoice.
/// The invoice is presented with the branding and support information of the specified account.
#[derive(Copy, Clone, Debug)]
pub struct UpdateSubscriptionScheduleDefaultSettingsInvoiceSettingsIssuer<'a> {
    /// The connected account being referenced when `type` is `account`.
    pub account: Option<&'a str>,
    /// Type of the account referenced in the request.
    pub type_: UpdateSubscriptionScheduleDefaultSettingsInvoiceSettingsIssuerType,
}

impl<'a> UpdateSubscriptionScheduleDefaultSettingsInvoiceSettingsIssuer<'a> {
    pub fn new(type_: UpdateSubscriptionScheduleDefaultSettingsInvoiceSettingsIssuerType) -> (out: Self)
        ensures
            out == (UpdateSubscriptionScheduleDefaultSettingsInvoiceSettingsIssuer { account: None, type_: type_ }),
    {
        Self { account: None, type_ }
    }
}

/// Type of the account referenced in the request.
#[derive(Copy, Clone, Debug, PartialEq, Eq, Structural)]
pub enum UpdateSubscriptionScheduleDefaultSettingsInvoiceSettingsIssuerType {
    Account,
    Self_,
}

impl UpdateSubscriptionScheduleDefaultSettingsInvoiceSettingsIssuerType {
    /// The name of the value on the wire.
    pub open spec fn wire_name(self) -> Seq<char> {
        match self {
            UpdateSubscriptionScheduleDefaultSettingsInvoiceSettingsIssuerType::Account => "account"@,
            UpdateSubscriptionScheduleDefaultSettingsInvoiceSettingsIssuerType::Self_ => "self"@,
        }
    }

    pub fn as_str(self) -> (name: &'static str)
        ensures
            name@ == self.wire_name(),
    {
        match self {
            UpdateSubscriptionScheduleDefaultSettingsInvoiceSettingsIssuerType::Account => "account",
            UpdateSubscriptionScheduleDefaultSettingsInvoiceSettingsIssuerType::Self_ => "self",
        }
    }
}

impl std::str::FromStr for UpdateSubscriptionScheduleDefaultSettingsInvoiceSettingsIssuerType {
    type Err = StripeParseError;

    /// Reads a wire name; fails on a string that is the name of no value.
    fn from_str(s: &str) -> (parsed: Result<Self, Self::Err>)
        ensures
            match parsed {
                Ok(v) => v.wire_name() == s@,
                Err(_) => forall|v: UpdateSubscriptionScheduleDefaultSettingsInvoiceSettingsIssuerType| #[trigger] v.wire_name() != s@,
            },
    {
        if str_eq(s, "account") {
            Ok(UpdateSubscriptionScheduleDefaultSettingsInvoiceSettingsIssuerType::Account)
        } else if str_eq(s, "self") {
            Ok(UpdateSubscriptionScheduleDefaultSettingsInvoiceSettingsIssuerType::Self_)
        } else {
            Err(StripeParseError)
        }
    }
}

/// Two values of `UpdateSubscriptionScheduleDefaultSettingsInvoiceSettingsIssuerType` with one wire name are the same value, so
/// reading back what `as_str` gives returns the value it was called on.
pub proof fn lemma_update_subscription_schedule_default_settings_invoice_settings_issuer_type_wire_names_differ(a: UpdateSubscriptionScheduleDefaultSettingsInvoiceSettingsIssuerType, b: UpdateSubscriptionScheduleDefaultSettingsInvoiceSettingsIssuerType)
    requires
        a.wire_name() == b.wire_name(),
    ensures
        a == b,
{
    reveal_strlit("account");
    reveal_strlit("self");
    assert("account"@.len() == 7);
    assert("self"@.len() == 4);
}

/// List representing phases of the subscription schedule.
/// Each phase can be customized to have different durations, plans, and coupons.
/// If there are multiple phases, the `end_date` of one phase will always equal the `start_date` of the next phase.
/// Note that past phases can be omitted.
#[derive(Copy, Clone, Debug)]
pub struct UpdateSubscriptionSchedulePhases<'a> {
    /// A list of prices and quantities that will generate invoice items appended to the next invoice for this phase.
    /// You may pass up to 20 items.
    pub add_invoice_items: Option<&'a [UpdateSubscriptionSchedulePhasesAddInvoiceItems<'a>]>,
    /// A non-negative decimal between 0 and 100, with at most two decimal places.
    /// This represents the percentage of the subscription invoice total that will be transferred to the application owner's Stripe account.
    /// The request must be made by a platform account on a connected account in order to set an application fee percentage.
    /// For more information, see the application fees [documentation](https://stripe.com/docs/connect/subscriptions#collecting-fees-on-subscriptions).
    /// Written as a decimal number.
    pub application_fee_percent: Option<&'a str>,
    /// Automatic tax settings for this phase.
    pub automatic_tax: Option<UpdateSubscriptionSchedulePhasesAutomaticTax<'a>>,
    /// Can be set to `phase_start` to set the anchor to the start of the phase or `automatic` to automatically change it if needed.
    /// Cannot be set to `phase_start` if this phase specifies a trial.
    /// For more information, see the billing cycle [documentation](https://stripe.com/docs/billing/subscriptions/billing-cycle).
    pub billing_cycle_anchor: Option<UpdateSubscriptionSchedulePhasesBillingCycleAnchor>,
    /// Define thresholds at which an invoice will be sent, and the subscription advanced to a new billing period.
    /// Pass an empty string to remove previously-defined thresholds.
    pub billing_thresholds: Option<BillingThresholdsParam>,
    /// Either `charge_automatically`, or `send_invoice`.
    /// When charging automatically, Stripe will attempt to pay the underlying subscription at the end of each billing cycle using the default source attached to the customer.
    /// When sending an invoice, Stripe will email your customer an invoice with payment instructions and mark the subscription as `active`.
    /// Defaults to `charge_automatically` on creation.
    pub collection_method: Option<UpdateSubscriptionSchedulePhasesCollectionMethod>,
    /// The ID of the coupon to apply to this phase of the subscription schedule.
    /// This field has been deprecated and will be removed in a future API version.
    /// Use `discounts` instead.
    pub coupon: Option<&'a str>,
    /// Three-letter [ISO currency code](https://www.iso.org/iso-4217-currency-codes.html), in lowercase.
    /// Must be a [supported currency](https://stripe.com/docs/currencies).
    pub currency: Option<Currency>,
    /// ID of the default payment method for the subscription schedule.
    /// It must belong to the customer associated with the subscription schedule.
    /// If not set, invoices will use the default payment method in the customer's invoice settings.
    pub default_payment_method: Option<&'a str>,
    /// A list of [Tax Rate](https://stripe.com/docs/api/tax_rates) ids.
    /// These Tax Rates will set the Subscription's [`default_tax_rates`](https://stripe.com/docs/api/subscriptions/create#create_subscription-default_tax_rates), which means they will be the Invoice's [`default_tax_rates`](https://stripe.com/docs/api/invoices/create#create_invoice-default_tax_rates) for any Invoices issued by the Subscription during this Phase.
    pub default_tax_rates: Option<&'a [&'a str]>,
    /// Subscription description, meant to be displayable to the customer.
    /// Use this field to optionally store an explanation of the subscription for rendering in Stripe surfaces and certain local payment methods UIs.
    pub description: Option<&'a str>,
    /// The coupons to redeem into discounts for the schedule phase.
    /// If not specified, inherits the discount from the subscription's customer.
    /// Pass an empty string to avoid inheriting any discounts.
    pub discounts: Option<&'a [DiscountsDataParam<'a>]>,
    /// The date at which this phase of the subscription schedule ends.
    /// If set, `iterations` must not be set.
    pub end_date: Option<UpdateSubscriptionSchedulePhasesEndDate>,
    /// All invoices will be billed using the specified settings.
    pub invoice_settings: Option<UpdateSubscriptionSchedulePhasesInvoiceSettings<'a>>,
    /// List of configuration items, each with an attached price, to apply during this phase of the subscription schedule.
    pub items: &'a [UpdateSubscriptionSchedulePhasesItems<'a>],
    /// Integer representing the multiplier applied to the price interval.
    /// For example, `iterations=2` applied to a price with `interval=month` and `interval_count=3` results in a phase of duration `2 * 3 months = 6 months`.
    /// If set, `end_date` must not be set.
    pub iterations: Option<i64>,
    /// Set of [key-value pairs](https://stripe.com/docs/api/metadata) that you can attach to a phase.
    /// Metadata on a schedule's phase will update the underlying subscription's `metadata` when the phase is entered, adding new keys and replacing existing keys in the subscription's `metadata`.
    /// Individual keys in the subscription's `metadata` can be unset by posting an empty value to them in the phase's `metadata`.
    /// To unset all keys in the subscription's `metadata`, update the subscription directly or unset every key individually from the phase's `metadata`.
    pub metadata: Option<&'a HashMap<String, String>>,
    /// The account on behalf of which to charge, for each of the associated subscription's invoices.
    pub on_behalf_of: Option<&'a str>,
    /// Whether the subscription schedule will create [prorations](https://stripe.com/docs/billing/subscriptions/prorations) when transitioning to this phase.
    /// The default value is `create_prorations`.
    /// This setting controls prorations when a phase is started asynchronously and it is persisted as a field on the phase.
    /// It's different from the request-level [proration_behavior](https://stripe.com/docs/api/subscription_schedules/update#update_subscription_schedule-proration_behavior) parameter which controls what happens if the update request affects the billing configuration of the current phase.
    pub proration_behavior: Option<UpdateSubscriptionSchedulePhasesProrationBehavior>,
    /// The date at which this phase of the subscription schedule starts or `now`.
    /// Must be set on the first phase.
    pub start_date: Option<UpdateSubscriptionSchedulePhasesStartDate>,
    /// The data with which to automatically create a Transfer for each of the associated subscription's invoices.
    pub transfer_data: Option<TransferDataSpecs<'a>>,
    /// If set to true the entire phase is counted as a trial and the customer will not be charged for any fees.
    pub trial: Option<bool>,
    /// Sets the phase to trialing from the start date to this date.
    /// Must be before the phase end date, can not be combined with `trial`.
    pub trial_end: Option<UpdateSubscriptionSchedulePhasesTrialEnd>,
}

impl<'a> UpdateSubscriptionSchedulePhases<'a> {
    pub fn new(items: &'a [UpdateSubscriptionSchedulePhasesItems<'a>]) -> (out: Self)
        ensures
            out == (UpdateSubscriptionSchedulePhases { add_invoice_items: None, application_fee_percent: None, automatic_tax: None, billing_cycle_anchor: None, billing_thresholds: None, collection_method: None, coupon: None, currency: None, default_payment_method: None, default_tax_rates: None, description: None, discounts: None, end_date: None, invoice_settings: None, items: items, iterations: None, metadata: None, on_behalf_of: None, proration_behavior: None, start_date: None, transfer_data: None, trial: None, trial_end: None }),
    {
        Self { add_invoice_items: None, application_fee_percent: None, automatic_tax: None, billing_cycle_anchor: None, billing_thresholds: None, collection_method: None, coupon: None, currency: None, default_payment_method: None, default_tax_rates: None, description: None, discounts: None, end_date: None, invoice_settings: None, items, iterations: None, metadata: None, on_behalf_of: None, proration_behavior: None, start_date: None, transfer_data: None, trial: None, trial_end: None, }
    }
}

/// A list of prices and quantities that will generate invoice items appended to the next invoice for this phase.
/// You may pass up to 20 items.
#[derive(Copy, Clone, Debug)]
pub struct UpdateSubscriptionSchedulePhasesAddInvoiceItems<'a> {
    /// The coupons to redeem into discounts for the item.
    pub discounts: Option<&'a [DiscountsDataParam<'a>]>,
    /// The ID of the price object.
    pub price: Option<&'a str>,
    /// Data used to generate a new [Price](https://stripe.com/docs/api/prices) object inline.
    pub price_data: Option<UpdateSubscriptionSchedulePhasesAddInvoiceItemsPriceData<'a>>,
    /// Quantity for this item. Defaults to 1.
    pub quantity: Option<u64>,
    /// The tax rates which apply to the item. When set, the `default_tax_rates` do not apply to this item.
    pub tax_rates: Option<&'a [&'a str]>,
}

impl<'a> UpdateSubscriptionSchedulePhasesAddInvoiceItems<'a> {
    pub fn new() -> (out: Self)
        ensures
            out == (UpdateSubscriptionSchedulePhasesAddInvoiceItems { discounts: None, price: None, price_data: None, quantity: None, tax_rates: None }),
    {
        Self { discounts: None, price: None, price_data: None, quantity: None, tax_rates: None }
    }
}

impl<'a> Default for UpdateSubscriptionSchedulePhasesAddInvoiceItems<'a> {
    fn default() -> (out: Self)
        ensures
            out == (UpdateSubscriptionSchedulePhasesAddInvoiceItems { discounts: None, price: None, price_data: None, quantity: None, tax_rates: None }),
    {
        Self::new()
    }
}

/// Data used to generate a new [Price](https://stripe.com/docs/api/prices) object inline.
#[derive(Copy, Clone, Debug)]
pub struct UpdateSubscriptionSchedulePhasesAddInvoiceItemsPriceData<'a> {
    /// Three-letter [ISO currency code](https://www.iso.org/iso-4217-currency-codes.html), in lowercase.
    /// Must be a [supported currency](https://stripe.com/docs/currencies).
    pub currency: Currency,
    /// The ID of the product that this price will belong to.
    pub product: &'a str,
    /// Only required if a [default tax behavior](https://stripe.com/docs/tax/products-prices-tax-categories-tax-behavior#setting-a-default-tax-behavior-(recommended)) was not provided in the Stripe Tax settings.
    /// Specifies whether the price is considered inclusive of taxes or exclusive of taxes.
    /// One of `inclusive`, `exclusive`, or `unspecified`.
    /// Once specified as either `inclusive` or `exclusive`, it cannot be changed.
    pub tax_behavior: Option<UpdateSubscriptionSchedulePhasesAddInvoiceItemsPriceDataTaxBehavior>,
    /// A positive integer in cents (or local equivalent) (or 0 for a free price) representing how much to charge.
    pub unit_amount: Option<i64>,
    /// Same as `unit_amount`, but accepts a decimal value in cents (or local equivalent) with at most 12 decimal places.
    /// Only one of `unit_amount` and `unit_amount_decimal` can be set.
    pub unit_amount_decimal: Option<&'a str>,
}

impl<'a> UpdateSubscriptionSchedulePhasesAddInvoiceItemsPriceData<'a> {
    pub fn new(currency: Currency, product: &'a str) -> (out: Self)
        ensures
            out == (UpdateSubscriptionSchedulePhasesAddInvoiceItemsPriceData { currency: currency, product: product, tax_behavior: None, unit_amount: None, unit_amount_decimal: None }),
    {
        Self { currency, product, tax_behavior: None, unit_amount: None, unit_amount_decimal: None }
    }
}

/// Only required if a [default tax behavior](https://stripe.com/docs/tax/products-prices-tax-categories-tax-behavior#setting-a-default-tax-behavior-(recommended)) was not provided in the Stripe Tax settings.
/// Specifies whether the price is considered inclusive of taxes or exclusive of taxes.
/// One of `inclusive`, `exclusive`, or `unspecified`.
/// Once specified as either `inclusive` or `exclusive`, it cannot be changed.
#[derive(Copy, Clone, Debug, PartialEq, Eq, Structural)]
pub enum UpdateSubscriptionSchedulePhasesAddInvoiceItemsPriceDataTaxBehavior {
    Exclusive,
    Inclusive,
    Unspecified,
}

impl UpdateSubscriptionSchedulePhasesAddInvoiceItemsPriceDataTaxBehavior {
    /// The name of the value on the wire.
    pub open spec fn wire_name(self) -> Seq<char> {
        match self {
            UpdateSubscriptionSchedulePhasesAddInvoiceItemsPriceDataTaxBehavior::Exclusive => "exclusive"@,
            UpdateSubscriptionSchedulePhasesAddInvoiceItemsPriceDataTaxBehavior::Inclusive => "inclusive"@,
            UpdateSubscriptionSchedulePhasesAddInvoiceItemsPriceDataTaxBehavior::Unspecified => "unspecified"@,
        }
    }

    pub fn as_str(self) -> (name: &'static str)
        ensures
            name@ == self.wire_name(),
    {
        match self {
            UpdateSubscriptionSchedulePhasesAddInvoiceItemsPriceDataTaxBehavior::Exclusive => "exclusive",
            UpdateSubscriptionSchedulePhasesAddInvoiceItemsPriceDataTaxBehavior::Inclusive => "inclusive",
            UpdateSubscriptionSchedulePhasesAddInvoiceItemsPriceDataTaxBehavior::Unspecified => "unspecified",
        }
    }
}

impl std::str::FromStr for UpdateSubscriptionSchedulePhasesAddInvoiceItemsPriceDataTaxBehavior {
    type Err = StripeParseError;

    /// Reads a wire name; fails on a string that is the name of no value.
    fn from_str(s: &str) -> (parsed: Result<Self, Self::Err>)
        ensures
            match parsed {
                Ok(v) => v.wire_name() == s@,
                Err(_) => forall|v: UpdateSubscriptionSchedulePhasesAddInvoiceItemsPriceDataTaxBehavior| #[trigger] v.wire_name() != s@,
            },
    {
        if str_eq(s, "exclusive") {
            Ok(UpdateSubscriptionSchedulePhasesAddInvoiceItemsPriceDataTaxBehavior::Exclusive)
        } else if str_eq(s, "inclusive") {
            Ok(UpdateSubscriptionSchedulePhasesAddInvoiceItemsPriceDataTaxBehavior::Inclusive)
        } else if str_eq(s, "unspecified") {
            Ok(UpdateSubscriptionSchedulePhasesAddInvoiceItemsPriceDataTaxBehavior::Unspecified)
        } else {
            Err(StripeParseError)
        }
    }
}

/// Two values of `UpdateSubscriptionSchedulePhasesAddInvoiceItemsPriceDataTaxBehavior` with one wire name are the same value, so
/// reading back what `as_str` gives returns the value it was called on.
pub proof fn lemma_update_subscription_schedule_phases_add_invoice_items_price_data_tax_behavior_wire_names_differ(a: UpdateSubscriptionSchedulePhasesAddInvoiceItemsPriceDataTaxBehavior, b: UpdateSubscriptionSchedulePhasesAddInvoiceItemsPriceDataTaxBehavior)
    requires
        a.wire_name() == b.wire_name(),
    ensures
        a == b,
{
    reveal_strlit("exclusive");
    reveal_strlit("inclusive");
    reveal_strlit("unspecified");
    assert("exclusive"@.len() == 9);
    assert("inclusive"@.len() == 9);
    assert("unspecified"@.len() == 11);
    assert("exclusive"@[0] != "inclusive"@[0]);
}

/// Automatic tax settings for this phase.
#[derive(Copy, Clone, Debug)]
pub struct UpdateSubscriptionSchedulePhasesAutomaticTax<'a> {
    /// Enabled automatic tax calculation which will automatically compute tax rates on all invoices generated by the subscription.
    pub enabled: bool,
    /// The account that's liable for tax.
    /// If set, the business address and tax registrations required to perform the tax calculation are loaded from this account.
    /// The tax transaction is returned in the report of the connected account.
    pub liability: Option<UpdateSubscriptionSchedulePhasesAutomaticTaxLiability<'a>>,
}

impl<'a> UpdateSubscriptionSchedulePhasesAutomaticTax<'a> {
    pub fn new(enabled: bool) -> (out: Self)
        ensures
            out == (UpdateSubscriptionSchedulePhasesAutomaticTax { enabled: enabled, liability: None }),
    {
        Self { enabled, liability: None }
    }
}

/// The account that's liable for tax.
/// If set, the business address and tax registrations required to perform the tax calculation are loaded from this account.
/// The tax transaction is returned in the report of the connected account.
#[derive(Copy, Clone, Debug)]
pub struct UpdateSubscriptionSchedulePhasesAutomaticTaxLiability<'a> {
    /// The connected account being referenced when `type` is `account`.
    pub account: Option<&'a str>,
    /// Type of the account referenced in the request.
    pub type_: UpdateSubscriptionSchedulePhasesAutomaticTaxLiabilityType,
}

impl<'a> UpdateSubscriptionSchedulePhasesAutomaticTaxLiability<'a> {
    pub fn new(type_: UpdateSubscriptionSchedulePhasesAutomaticTaxLiabilityType) -> (out: Self)
        ensures
            out == (UpdateSubscriptionSchedulePhasesAutomaticTaxLiability { account: None, type_: type_ }),
    {
        Self { account: None, type_ }
    }
}

/// Type of the account referenced in the request.
#[derive(Copy, Clone, Debug, PartialEq, Eq, Structural)]
pub enum UpdateSubscriptionSchedulePhasesAutomaticTaxLiabilityType {
    Account,
    Self_,
}

impl UpdateSubscriptionSchedulePhasesAutomaticTaxLiabilityType {
    /// The name of the value on the wire.
    pub open spec fn wire_name(self) -> Seq<char> {
        match self {
            UpdateSubscriptionSchedulePhasesAutomaticTaxLiabilityType::Account => "account"@,
            UpdateSubscriptionSchedulePhasesAutomaticTaxLiabilityType::Self_ => "self"@,
        }
    }

    pub fn as_str(self) -> (name: &'static str)
        ensures
            name@ == self.wire_name(),
    {
        match self {
            UpdateSubscriptionSchedulePhasesAutomaticTaxLiabilityType::Account => "account",
            UpdateSubscriptionSchedulePhasesAutomaticTaxLiabilityType::Self_ => "self",
        }
    }
}

impl std::str::FromStr for UpdateSubscriptionSchedulePhasesAutomaticTaxLiabilityType {
    type Err = StripeParseError;

    /// Reads a wire name; fails on a string that is the name of no value.
    fn from_str(s: &str) -> (parsed: Result<Self, Self::Err>)
        ensures
            match parsed {
                Ok(v) => v.wire_name() == s@,
                Err(_) => forall|v: UpdateSubscriptionSchedulePhasesAutomaticTaxLiabilityType| #[trigger] v.wire_name() != s@,
            },
    {
        if str_eq(s, "account") {
            Ok(UpdateSubscriptionSchedulePhasesAutomaticTaxLiabilityType::Account)
        } else if str_eq(s, "self") {
            Ok(UpdateSubscriptionSchedulePhasesAutomaticTaxLiabilityType::Self_)
        } else {
            Err(StripeParseError)
        }
    }
}

/// Two values of `UpdateSubscriptionSchedulePhasesAutomaticTaxLiabilityType` with one wire name are the same value, so
/// reading back what `as_str` gives returns the value it was called on.
pub proof fn lemma_update_subscription_schedule_phases_automatic_tax_liability_type_wire_names_differ(a: UpdateSubscriptionSchedulePhasesAutomaticTaxLiabilityType, b: UpdateSubscriptionSchedulePhasesAutomaticTaxLiabilityType)
    requires
        a.wire_name() == b.wire_name(),
    ensures
        a == b,
{
    reveal_strlit("account");
    reveal_strlit("self");
    assert("account"@.len() == 7);
    assert("self"@.len() == 4);
}

/// Can be set to `phase_start` to set the anchor to the start of the phase or `automatic` to automatically change it if needed.
/// Cannot be set to `phase_start` if this phase specifies a trial.
/// For more information, see the billing cycle [documentation](https://stripe.com/docs/billing/subscriptions/billing-cycle).
#[derive(Copy, Clone, Debug, PartialEq, Eq, Structural)]
pub enum UpdateSubscriptionSchedulePhasesBillingCycleAnchor {
    Automatic,
    PhaseStart,
}

impl UpdateSubscriptionSchedulePhasesBillingCycleAnchor {
    /// The name of the value on the wire.
    pub open spec fn wire_name(self) -> Seq<char> {
        match self {
            UpdateSubscriptionSchedulePhasesBillingCycleAnchor::Automatic => "automatic"@,
            UpdateSubscriptionSchedulePhasesBillingCycleAnchor::PhaseStart => "phase_start"@,
        }
    }

    pub fn as_str(self) -> (name: &'static str)
        ensures
            name@ == self.wire_name(),
    {
        match self {
            UpdateSubscriptionSchedulePhasesBillingCycleAnchor::Automatic => "automatic",
            UpdateSubscriptionSchedulePhasesBillingCycleAnchor::PhaseStart => "phase_start",
        }
    }
}

impl std::str::FromStr for UpdateSubscriptionSchedulePhasesBillingCycleAnchor {
    type Err = StripeParseError;

    /// Reads a wire name; fails on a string that is the name of no value.
    fn from_str(s: &str) -> (parsed: Result<Self, Self::Err>)
        ensures
            match parsed {
                Ok(v) => v.wire_name() == s@,
                Err(_) => forall|v: UpdateSubscriptionSchedulePhasesBillingCycleAnchor| #[trigger] v.wire_name() != s@,
            },
    {
        if str_eq(s, "automatic") {
            Ok(UpdateSubscriptionSchedulePhasesBillingCycleAnchor::Automatic)
        } else if str_eq(s, "phase_start") {
            Ok(UpdateSubscriptionSchedulePhasesBillingCycleAnchor::PhaseStart)
        } else {
            Err(StripeParseError)
        }
    }
}

/// Two values of `UpdateSubscriptionSchedulePhasesBillingCycleAnchor` with one wire name are the same value, so
/// reading back what `as_str` gives returns the value it was called on.
pub proof fn lemma_update_subscription_schedule_phases_billing_cycle_anchor_wire_names_differ(a: UpdateSubscriptionSchedulePhasesBillingCycleAnchor, b: UpdateSubscriptionSchedulePhasesBillingCycleAnchor)
    requires
        a.wire_name() == b.wire_name(),
    ensures
        a == b,
{
    reveal_strlit("automatic");
    reveal_strlit("phase_start");
    assert("automatic"@.len() == 9);
    assert("phase_start"@.len() == 11);
}

/// Either `charge_automatically`, or `send_invoice`.
/// When charging automatically, Stripe will attempt to pay the underlying subscription at the end of each billing cycle using the default source attached to the customer.
/// When sending an invoice, Stripe will email your customer an invoice with payment instructions and mark the subscription as `active`.
/// Defaults to `charge_automatically` on creation.
#[derive(Copy, Clone, Debug, PartialEq, Eq, Structural)]
pub enum UpdateSubscriptionSchedulePhasesCollectionMethod {
    ChargeAutomatically,
    SendInvoice,
}

impl UpdateSubscriptionSchedulePhasesCollectionMethod {
    /// The name of the value on the wire.
    pub open spec fn wire_name(self) -> Seq<char> {
        match self {
            UpdateSubscriptionSchedulePhasesCollectionMethod::ChargeAutomatically => "charge_automatically"@,
            UpdateSubscriptionSchedulePhasesCollectionMethod::SendInvoice => "send_invoice"@,
        }
    }

    pub fn as_str(self) -> (name: &'static str)
        ensures
            name@ == self.wire_name(),
    {
        match self {
            UpdateSubscriptionSchedulePhasesCollectionMethod::ChargeAutomatically => "charge_automatically",
            UpdateSubscriptionSchedulePhasesCollectionMethod::SendInvoice => "send_invoice",
        }
    }
}

impl std::str::FromStr for UpdateSubscriptionSchedulePhasesCollectionMethod {
    type Err = StripeParseError;

    /// Reads a wire name; fails on a string that is the name of no value.
    fn from_str(s: &str) -> (parsed: Result<Self, Self::Err>)
        ensures
            match parsed {
                Ok(v) => v.wire_name() == s@,
                Err(_) => forall|v: UpdateSubscriptionSchedulePhasesCollectionMethod| #[trigger] v.wire_name() != s@,
            },
    {
        if str_eq(s, "charge_automatically") {
            Ok(UpdateSubscriptionSchedulePhasesCollectionMethod::ChargeAutomatically)
        } else if str_eq(s, "send_invoice") {
            Ok(UpdateSubscriptionSchedulePhasesCollectionMethod::SendInvoice)
        } else {
            Err(StripeParseError)
        }
    }
}

/// Two values of `UpdateSubscriptionSchedulePhasesCollectionMethod` with one wire name are the same value, so
/// reading back what `as_str` gives returns the value it was called on.
pub proof fn lemma_update_subscription_schedule_phases_collection_method_wire_names_differ(a: UpdateSubscriptionSchedulePhasesCollectionMethod, b: UpdateSubscriptionSchedulePhasesCollectionMethod)
    requires
        a.wire_name() == b.wire_name(),
    ensures
        a == b,
{
    reveal_strlit("charge_automatically");
    reveal_strlit("send_invoice");
    assert("charge_automatically"@.len() == 20);
    assert("send_invoice"@.len() == 12);
}

/// The date at which this phase of the subscription schedule ends.
/// If set, `iterations` must not be set.
#[derive(Copy, Clone, Debug)]
pub enum UpdateSubscriptionSchedulePhasesEndDate {
    Timestamp(Timestamp),
    Now,
}

/// All invoices will be billed using the specified settings.
#[derive(Copy, Clone, Debug)]
pub struct UpdateSubscriptionSchedulePhasesInvoiceSettings<'a> {
    /// The account tax IDs associated with this phase of the subscription schedule.
    /// Will be set on invoices generated by this phase of the subscription schedule.
    pub account_tax_ids: Option<&'a [&'a str]>,
    /// Number of days within which a customer must pay invoices generated by this subscription schedule.
    /// This value will be `null` for subscription schedules where `billing=charge_automatically`.
    pub days_until_due: Option<u32>,
    /// The connected account that issues the invoice.
    /// The invoice is presented with the branding and support information of the specified account.
    pub issuer: Option<UpdateSubscriptionSchedulePhasesInvoiceSettingsIssuer<'a>>,
}

impl<'a> UpdateSubscriptionSchedulePhasesInvoiceSettings<'a> {
    pub fn new() -> (out: Self)
        ensures
            out == (UpdateSubscriptionSchedulePhasesInvoiceSettings { account_tax_ids: None, days_until_due: None, issuer: None }),
    {
        Self { account_tax_ids: None, days_until_due: None, issuer: None }
    }
}

impl<'a> Default for UpdateSubscriptionSchedulePhasesInvoiceSettings<'a> {
    fn default() -> (out: Self)
        ensures
            out == (UpdateSubscriptionSchedulePhasesInvoiceSettings { account_tax_ids: None, days_until_due: None, issuer: None }),
    {
        Self::new()
    }
}

/// The connected account that issues the invoice.
/// The invoice is presented with the branding and support information of the specified account.
#[derive(Copy, Clone, Debug)]
pub struct UpdateSubscriptionSchedulePhasesInvoiceSettingsIssuer<'a> {
    /// The connected account being referenced when `type` is `account`.
    pub account: Option<&'a str>,
    /// Type of the account referenced in the request.
    pub type_: UpdateSubscriptionSchedulePhasesInvoiceSettingsIssuerType,
}

impl<'a> UpdateSubscriptionSchedulePhasesInvoiceSettingsIssuer<'a> {
    pub fn new(type_: UpdateSubscriptionSchedulePhasesInvoiceSettingsIssuerType) -> (out: Self)
        ensures
            out == (UpdateSubscriptionSchedulePhasesInvoiceSettingsIssuer { account: None, type_: type_ }),
    {
        Self { account: None, type_ }
    }
}

/// Type of the account referenced in the request.
#[derive(Copy, Clone, Debug, PartialEq, Eq, Structural)]
pub enum UpdateSubscriptionSchedulePhasesInvoiceSettingsIssuerType {
    Account,
    Self_,
}

impl UpdateSubscriptionSchedulePhasesInvoiceSettingsIssuerType {
    /// The name of the value on the wire.
    pub open spec fn wire_name(self) -> Seq<char> {
        match self {
            UpdateSubscriptionSchedulePhasesInvoiceSettingsIssuerType::Account => "account"@,
            UpdateSubscriptionSchedulePhasesInvoiceSettingsIssuerType::Self_ => "self"@,
        }
    }

    pub fn as_str(self) -> (name: &'static str)
        ensures
            name@ == self.wire_name(),
    {
        match self {
            UpdateSubscriptionSchedulePhasesInvoiceSettingsIssuerType::Account => "account",
            UpdateSubscriptionSchedulePhasesInvoiceSettingsIssuerType::Self_ => "self",
        }
    }
}

impl std::str::FromStr for UpdateSubscriptionSchedulePhasesInvoiceSettingsIssuerType {
    type Err = StripeParseError;

    /// Reads a wire name; fails on a string that is the name of no value.
    fn from_str(s: &str) -> (parsed: Result<Self, Self::Err>)
        ensures
            match parsed {
                Ok(v) => v.wire_name() == s@,
                Err(_) => forall|v: UpdateSubscriptionSchedulePhasesInvoiceSettingsIssuerType| #[trigger] v.wire_name() != s@,
            },
    {
        if str_eq(s, "account") {
            Ok(UpdateSubscriptionSchedulePhasesInvoiceSettingsIssuerType::Account)
        } else if str_eq(s, "self") {
            Ok(UpdateSubscriptionSchedulePhasesInvoiceSettingsIssuerType::Self_)
        } else {
            Err(StripeParseError)
        }
    }
}

/// Two values of `UpdateSubscriptionSchedulePhasesInvoiceSettingsIssuerType` with one wire name are the same value, so
/// reading back what `as_str` gives returns the value it was called on.
pub proof fn lemma_update_subscription_schedule_phases_invoice_settings_issuer_type_wire_names_differ(a: UpdateSubscriptionSchedulePhasesInvoiceSettingsIssuerType, b: UpdateSubscriptionSchedulePhasesInvoiceSettingsIssuerType)
    requires
        a.wire_name() == b.wire_name(),
    ensures
        a == b,
{
    reveal_strlit("account");
    reveal_strlit("self");
    assert("account"@.len() == 7);
    assert("self"@.len() == 4);
}

/// List of configuration items, each with an attached price, to apply during this phase of the subscription schedule.
#[derive(Copy, Clone, Debug)]
pub struct UpdateSubscriptionSchedulePhasesItems<'a> {
    /// Define thresholds at which an invoice will be sent, and the subscription advanced to a new billing period.
    /// When updating, pass an empty string to remove previously-defined thresholds.
    pub billing_thresholds: Option<ItemBillingThresholdsParam>,
    /// The coupons to redeem into discounts for the subscription item.
    pub discounts: Option<&'a [DiscountsDataParam<'a>]>,
    /// Set of [key-value pairs](https://stripe.com/docs/api/metadata) that you can attach to a configuration item.
    /// Metadata on a configuration item will update the underlying subscription item's `metadata` when the phase is entered, adding new keys and replacing existing keys.
    /// Individual keys in the subscription item's `metadata` can be unset by posting an empty value to them in the configuration item's `metadata`.
    /// To unset all keys in the subscription item's `metadata`, update the subscription item directly or unset every key individually from the configuration item's `metadata`.
    pub metadata: Option<&'a HashMap<String, String>>,
    /// The plan ID to subscribe to. You may specify the same ID in `plan` and `price`.
    pub plan: Option<&'a str>,
    /// The ID of the price object.
    pub price: Option<&'a str>,
    /// Data used to generate a new [Price](https://stripe.com/docs/api/prices) object inline.
    pub price_data: Option<UpdateSubscriptionSchedulePhasesItemsPriceData<'a>>,
    /// Quantity for the given price.
    /// Can be set only if the price's `usage_type` is `licensed` and not `metered`.
    pub quantity: Option<u64>,
    /// A list of [Tax Rate](https://stripe.com/docs/api/tax_rates) ids.
    /// These Tax Rates will override the [`default_tax_rates`](https://stripe.com/docs/api/subscriptions/create#create_subscription-default_tax_rates) on the Subscription.
    /// When updating, pass an empty string to remove previously-defined tax rates.
    pub tax_rates: Option<&'a [&'a str]>,
}

impl<'a> UpdateSubscriptionSchedulePhasesItems<'a> {
    pub fn new() -> (out: Self)
        ensures
            out == (UpdateSubscriptionSchedulePhasesItems { billing_thresholds: None, discounts: None, metadata: None, plan: None, price: None, price_data: None, quantity: None, tax_rates: None }),
    {
        Self { billing_thresholds: None, discounts: None, metadata: None, plan: None, price: None, price_data: None, quantity: None, tax_rates: None, }
    }
}

impl<'a> Default for UpdateSubscriptionSchedulePhasesItems<'a> {
    fn default() -> (out: Self)
        ensures
            out == (UpdateSubscriptionSchedulePhasesItems { billing_thresholds: None, discounts: None, metadata: None, plan: None, price: None, price_data: None, quantity: None, tax_rates: None }),
    {
        Self::new()
    }
}

/// Data used to generate a new [Price](https://stripe.com/docs/api/prices) object inline.
#[derive(Copy, Clone, Debug)]
pub struct UpdateSubscriptionSchedulePhasesItemsPriceData<'a> {
    /// Three-letter [ISO currency code](https://www.iso.org/iso-4217-currency-codes.html), in lowercase.
    /// Must be a [supported currency](https://stripe.com/docs/currencies).
    pub currency: Currency,
    /// The ID of the product that this price will belong to.
    pub product: &'a str,
    /// The recurring components of a price such as `interval` and `interval_count`.
    pub recurring: UpdateSubscriptionSchedulePhasesItemsPriceDataRecurring,
    /// Only required if a [default tax behavior](https://stripe.com/docs/tax/products-prices-tax-categories-tax-behavior#setting-a-default-tax-behavior-(recommended)) was not provided in the Stripe Tax settings.
    /// Specifies whether the price is considered inclusive of taxes or exclusive of taxes.
    /// One of `inclusive`, `exclusive`, or `unspecified`.
    /// Once specified as either `inclusive` or `exclusive`, it cannot be changed.
    pub tax_behavior: Option<UpdateSubscriptionSchedulePhasesItemsPriceDataTaxBehavior>,
    /// A positive integer in cents (or local equivalent) (or 0 for a free price) representing how much to charge.
    pub unit_amount: Option<i64>,
    /// Same as `unit_amount`, but accepts a decimal value in cents (or local equivalent) with at most 12 decimal places.
    /// Only one of `unit_amount` and `unit_amount_decimal` can be set.
    pub unit_amount_decimal: Option<&'a str>,
}

impl<'a> UpdateSubscriptionSchedulePhasesItemsPriceData<'a> {
    pub fn new(currency: Currency, product: &'a str, recurring: UpdateSubscriptionSchedulePhasesItemsPriceDataRecurring) -> (out: Self)
        ensures
            out == (UpdateSubscriptionSchedulePhasesItemsPriceData { currency: currency, product: product, recurring: recurring, tax_behavior: None, unit_amount: None, unit_amount_decimal: None }),
    {
        Self { currency, product, recurring, tax_behavior: None, unit_amount: None, unit_amount_decimal: None, }
    }
}

/// The recurring components of a price such as `interval` and `interval_count`.
#[derive(Copy, Clone, Debug)]
pub struct UpdateSubscriptionSchedulePhasesItemsPriceDataRecurring {
    /// Specifies billing frequency. Either `day`, `week`, `month` or `year`.
    pub interval: UpdateSubscriptionSchedulePhasesItemsPriceDataRecurringInterval,
    /// The number of intervals between subscription billings.
    /// For example, `interval=month` and `interval_count=3` bills every 3 months.
    /// Maximum of three years interval allowed (3 years, 36 months, or 156 weeks).
    pub interval_count: Option<u64>,
}

impl UpdateSubscriptionSchedulePhasesItemsPriceDataRecurring {
    pub fn new(interval: UpdateSubscriptionSchedulePhasesItemsPriceDataRecurringInterval) -> (out: Self)
        ensures
            out == (UpdateSubscriptionSchedulePhasesItemsPriceDataRecurring { interval: interval, interval_count: None }),
    {
        Self { interval, interval_count: None }
    }
}

/// Specifies billing frequency. Either `day`, `week`, `month` or `year`.
#[derive(Copy, Clone, Debug, PartialEq, Eq, Structural)]
pub enum UpdateSubscriptionSchedulePhasesItemsPriceDataRecurringInterval {
    Day,
    Month,
    Week,
    Year,
}

impl UpdateSubscriptionSchedulePhasesItemsPriceDataRecurringInterval {
    /// The name of the value on the wire.
    pub open spec fn wire_name(self) -> Seq<char> {
        match self {
            UpdateSubscriptionSchedulePhasesItemsPriceDataRecurringInterval::Day => "day"@,
            UpdateSubscriptionSchedulePhasesItemsPriceDataRecurringInterval::Month => "month"@,
            UpdateSubscriptionSchedulePhasesItemsPriceDataRecurringInterval::Week => "week"@,
            UpdateSubscriptionSchedulePhasesItemsPriceDataRecurringInterval::Year => "year"@,
        }
    }

    pub fn as_str(self) -> (name: &'static str)
        ensures
            name@ == self.wire_name(),
    {
        match self {
            UpdateSubscriptionSchedulePhasesItemsPriceDataRecurringInterval::Day => "day",
            UpdateSubscriptionSchedulePhasesItemsPriceDataRecurringInterval::Month => "month",
            UpdateSubscriptionSchedulePhasesItemsPriceDataRecurringInterval::Week => "week",
            UpdateSubscriptionSchedulePhasesItemsPriceDataRecurringInterval::Year => "year",
        }
    }
}

impl std::str::FromStr for UpdateSubscriptionSchedulePhasesItemsPriceDataRecurringInterval {
    type Err = StripeParseError;

    /// Reads a wire name; fails on a string that is the name of no value.
    fn from_str(s: &str) -> (parsed: Result<Self, Self::Err>)
        ensures
            match parsed {
                Ok(v) => v.wire_name() == s@,
                Err(_) => forall|v: UpdateSubscriptionSchedulePhasesItemsPriceDataRecurringInterval| #[trigger] v.wire_name() != s@,
            },
    {
        if str_eq(s, "day") {
            Ok(UpdateSubscriptionSchedulePhasesItemsPriceDataRecurringInterval::Day)
        } else if str_eq(s, "month") {
            Ok(UpdateSubscriptionSchedulePhasesItemsPriceDataRecurringInterval::Month)
        } else if str_eq(s, "week") {
            Ok(UpdateSubscriptionSchedulePhasesItemsPriceDataRecurringInterval::Week)
        } else if str_eq(s, "year") {
            Ok(UpdateSubscriptionSchedulePhasesItemsPriceDataRecurringInterval::Year)
        } else {
            Err(StripeParseError)
        }
    }
}

/// Two values of `UpdateSubscriptionSchedulePhasesItemsPriceDataRecurringInterval` with one wire name are the same value, so
/// reading back what `as_str` gives returns the value it was called on.
pub proof fn lemma_update_subscription_schedule_phases_items_price_data_recurring_interval_wire_names_differ(a: UpdateSubscriptionSchedulePhasesItemsPriceDataRecurringInterval, b: UpdateSubscriptionSchedulePhasesItemsPriceDataRecurringInterval)
    requires
        a.wire_name() == b.wire_name(),
    ensures
        a == b,
{
    reveal_strlit("day");
    reveal_strlit("month");
    reveal_strlit("week");
    reveal_strlit("year");
    assert("day"@.len() == 3);
    assert("month"@.len() == 5);
    assert("week"@.len() == 4);
    assert("year"@.len() == 4);
    assert("week"@[0] != "year"@[0]);
}

/// Only required if a [default tax behavior](https://stripe.com/docs/tax/products-prices-tax-categories-tax-behavior#setting-a-default-tax-behavior-(recommended)) was not provided in the Stripe Tax settings.
/// Specifies whether the price is considered inclusive of taxes or exclusive of taxes.
/// One of `inclusive`, `exclusive`, or `unspecified`.
/// Once specified as either `inclusive` or `exclusive`, it cannot be changed.
#[derive(Copy, Clone, Debug, PartialEq, Eq, Structural)]
pub enum UpdateSubscriptionSchedulePhasesItemsPriceDataTaxBehavior {
    Exclusive,
    Inclusive,
    Unspecified,
}

impl UpdateSubscriptionSchedulePhasesItemsPriceDataTaxBehavior {
    /// The name of the value on the wire.
    pub open spec fn wire_name(self) -> Seq<char> {
        match self {
            UpdateSubscriptionSchedulePhasesItemsPriceDataTaxBehavior::Exclusive => "exclusive"@,
            UpdateSubscriptionSchedulePhasesItemsPriceDataTaxBehavior::Inclusive => "inclusive"@,
            UpdateSubscriptionSchedulePhasesItemsPriceDataTaxBehavior::Unspecified => "unspecified"@,
        }
    }

    pub fn as_str(self) -> (name: &'static str)
        ensures
            name@ == self.wire_name(),
    {
        match self {
            UpdateSubscriptionSchedulePhasesItemsPriceDataTaxBehavior::Exclusive => "exclusive",
            UpdateSubscriptionSchedulePhasesItemsPriceDataTaxBehavior::Inclusive => "inclusive",
            UpdateSubscriptionSchedulePhasesItemsPriceDataTaxBehavior::Unspecified => "unspecified",
        }
    }
}

impl std::str::FromStr for UpdateSubscriptionSchedulePhasesItemsPriceDataTaxBehavior {
    type Err = StripeParseError;

    /// Reads a wire name; fails on a string that is the name of no value.
    fn from_str(s: &str) -> (parsed: Result<Self, Self::Err>)
        ensures
            match parsed {
                Ok(v) => v.wire_name() == s@,
                Err(_) => forall|v: UpdateSubscriptionSchedulePhasesItemsPriceDataTaxBehavior| #[trigger] v.wire_name() != s@,
            },
    {
        if str_eq(s, "exclusive") {
            Ok(UpdateSubscriptionSchedulePhasesItemsPriceDataTaxBehavior::Exclusive)
        } else if str_eq(s, "inclusive") {
            Ok(UpdateSubscriptionSchedulePhasesItemsPriceDataTaxBehavior::Inclusive)
        } else if str_eq(s, "unspecified") {
            Ok(UpdateSubscriptionSchedulePhasesItemsPriceDataTaxBehavior::Unspecified)
        } else {
            Err(StripeParseError)
        }
    }
}

/// Two values of `UpdateSubscriptionSchedulePhasesItemsPriceDataTaxBehavior` with one wire name are the same value, so
/// reading back what `as_str` gives returns the value it was called on.
pub proof fn lemma_update_subscription_schedule_phases_items_price_data_tax_behavior_wire_names_differ(a: UpdateSubscriptionSchedulePhasesItemsPriceDataTaxBehavior, b: UpdateSubscriptionSchedulePhasesItemsPriceDataTaxBehavior)
    requires
        a.wire_name() == b.wire_name(),
    ensures
        a == b,
{
    reveal_strlit("exclusive");
    reveal_strlit("inclusive");
    reveal_strlit("unspecified");
    assert("exclusive"@.len() == 9);
    assert("inclusive"@.len() == 9);
    assert("unspecified"@.len() == 11);
    assert("exclusive"@[0] != "inclusive"@[0]);
}

/// Whether the subscription schedule will create [prorations](https://stripe.com/docs/billing/subscriptions/prorations) when transitioning to this phase.
/// The default value is `create_prorations`.
/// This setting controls prorations when a phase is started asynchronously and it is persisted as a field on the phase.
/// It's different from the request-level [proration_behavior](https://stripe.com/docs/api/subscription_schedules/update#update_subscription_schedule-proration_behavior) parameter which controls what happens if the update request affects the billing configuration of the current phase.
#[derive(Copy, Clone, Debug, PartialEq, Eq, Structural)]
pub enum UpdateSubscriptionSchedulePhasesProrationBehavior {
    AlwaysInvoice,
    CreateProrations,
    None_,
}

impl UpdateSubscriptionSchedulePhasesProrationBehavior {
    /// The name of the value on the wire.
    pub open spec fn wire_name(self) -> Seq<char> {
        match self {
            UpdateSubscriptionSchedulePhasesProrationBehavior::AlwaysInvoice => "always_invoice"@,
            UpdateSubscriptionSchedulePhasesProrationBehavior::CreateProrations => "create_prorations"@,
            UpdateSubscriptionSchedulePhasesProrationBehavior::None_ => "none"@,
        }
    }

    pub fn as_str(self) -> (name: &'static str)
        ensures
            name@ == self.wire_name(),
    {
        match self {
            UpdateSubscriptionSchedulePhasesProrationBehavior::AlwaysInvoice => "always_invoice",
            UpdateSubscriptionSchedulePhasesProrationBehavior::CreateProrations => "create_prorations",
            UpdateSubscriptionSchedulePhasesProrationBehavior::None_ => "none",
        }
    }
}

impl std::str::FromStr for UpdateSubscriptionSchedulePhasesProrationBehavior {
    type Err = StripeParseError;

    /// Reads a wire name; fails on a string that is the name of no value.
    fn from_str(s: &str) -> (parsed: Result<Self, Self::Err>)
        ensures
            match parsed {
                Ok(v) => v.wire_name() == s@,
                Err(_) => forall|v: UpdateSubscriptionSchedulePhasesProrationBehavior| #[trigger] v.wire_name() != s@,
            },
    {
        if str_eq(s, "always_invoice") {
            Ok(UpdateSubscriptionSchedulePhasesProrationBehavior::AlwaysInvoice)
        } else if str_eq(s, "create_prorations") {
            Ok(UpdateSubscriptionSchedulePhasesProrationBehavior::CreateProrations)
        } else if str_eq(s, "none") {
            Ok(UpdateSubscriptionSchedulePhasesProrationBehavior::None_)
        } else {
            Err(StripeParseError)
        }
    }
}

/// Two values of `UpdateSubscriptionSchedulePhasesProrationBehavior` with one wire name are the same value, so
/// reading back what `as_str` gives returns the value it was called on.
pub proof fn lemma_update_subscription_schedule_phases_proration_behavior_wire_names_differ(a: UpdateSubscriptionSchedulePhasesProrationBehavior, b: UpdateSubscriptionSchedulePhasesProrationBehavior)
    requires
        a.wire_name() == b.wire_name(),
    ensures
        a == b,
{
    reveal_strlit("always_invoice");
    reveal_strlit("create_prorations");
    reveal_strlit("none");
    assert("always_invoice"@.len() == 14);
    assert("create_prorations"@.len() == 17);
    assert("none"@.len() == 4);
}

/// The date at which this phase of the subscription schedule starts or `now`.
/// Must be set on the first phase.
#[derive(Copy, Clone, Debug)]
pub enum UpdateSubscriptionSchedulePhasesStartDate {
    Timestamp(Timestamp),
    Now,
}

/// Sets the phase to trialing from the start date to this date.
/// Must be before the phase end date, can not be combined with `trial`.
#[derive(Copy, Clone, Debug)]
pub enum UpdateSubscriptionSchedulePhasesTrialEnd {
    Timestamp(Timestamp),
    Now,
}

/// If the update changes the current phase, indicates whether the changes should be prorated.
/// The default value is `create_prorations`.
#[derive(Copy, Clone, Debug, PartialEq, Eq, Structural)]
pub enum UpdateSubscriptionScheduleProrationBehavior {
    AlwaysInvoice,
    CreateProrations,
    None_,
}

impl UpdateSubscriptionScheduleProrationBehavior {
    /// The name of the value on the wire.
    pub open spec fn wire_name(self) -> Seq<char> {
        match self {
            UpdateSubscriptionScheduleProrationBehavior::AlwaysInvoice => "always_invoice"@,
            UpdateSubscriptionScheduleProrationBehavior::CreateProrations => "create_prorations"@,
            UpdateSubscriptionScheduleProrationBehavior::None_ => "none"@,
        }
    }

    pub fn as_str(self) -> (name: &'static str)
        ensures
            name@ == self.wire_name(),
    {
        match self {
            UpdateSubscriptionScheduleProrationBehavior::AlwaysInvoice => "always_invoice",
            UpdateSubscriptionScheduleProrationBehavior::CreateProrations => "create_prorations",
            UpdateSubscriptionScheduleProrationBehavior::None_ => "none",
        }
    }
}

impl std::str::FromStr for UpdateSubscriptionScheduleProrationBehavior {
    type Err = StripeParseError;

    /// Reads a wire name; fails on a string that is the name of no value.
    fn from_str(s: &str) -> (parsed: Result<Self, Self::Err>)
        ensures
            match parsed {
                Ok(v) => v.wire_name() == s@,
                Err(_) => forall|v: UpdateSubscriptionScheduleProrationBehavior| #[trigger] v.wire_name() != s@,
            },
    {
        if str_eq(s, "always_invoice") {
            Ok(UpdateSubscriptionScheduleProrationBehavior::AlwaysInvoice)
        } else if str_eq(s, "create_prorations") {
            Ok(UpdateSubscriptionScheduleProrationBehavior::CreateProrations)
        } else if str_eq(s, "none") {
            Ok(UpdateSubscriptionScheduleProrationBehavior::None_)
        } else {
            Err(StripeParseError)
        }
    }
}

/// Two values of `UpdateSubscriptionScheduleProrationBehavior` with one wire name are the same value, so
/// reading back what `as_str` gives returns the value it was called on.
pub proof fn lemma_update_subscription_schedule_proration_behavior_wire_names_differ(a: UpdateSubscriptionScheduleProrationBehavior, b: UpdateSubscriptionScheduleProrationBehavior)
    requires
        a.wire_name() == b.wire_name(),
    ensures
        a == b,
{
    reveal_strlit("always_invoice");
    reveal_strlit("create_prorations");
    reveal_strlit("none");
    assert("always_invoice"@.len() == 14);
    assert("create_prorations"@.len() == 17);
    assert("none"@.len() == 4);
}

/// Updates an existing subscription schedule.
#[derive(Clone, Debug)]
pub struct UpdateSubscriptionSchedule<'a> {
    pub inner: UpdateSubscriptionScheduleBuilder<'a>,
    pub schedule: &'a SubscriptionScheduleId,
}

impl<'a> UpdateSubscriptionSchedule<'a> {
    /// Construct a new `UpdateSubscriptionSchedule`.
    pub fn new(schedule: &'a SubscriptionScheduleId) -> (out: Self)
        ensures
            out == (UpdateSubscriptionSchedule { schedule: schedule, inner: UpdateSubscriptionScheduleBuilder { default_settings: None, end_behavior: None, expand: None, metadata: None, phases: None, proration_behavior: None } }),
    {
        Self { schedule, inner: UpdateSubscriptionScheduleBuilder::new() }
    }

    /// Object representing the subscription schedule's default settings.
    pub fn default_settings(self, default_settings: UpdateSubscriptionScheduleDefaultSettings<'a>) -> (out: Self)
        ensures
            out == (UpdateSubscriptionSchedule { inner: (UpdateSubscriptionScheduleBuilder { default_settings: Some(default_settings), ..self.inner }), ..self }),
    {
        let mut out = self;
        out.inner.default_settings = Some(default_settings);
        out
    }

    /// Behavior of the subscription schedule and underlying subscription when it ends.
    /// Possible values are `release` or `cancel` with the default being `release`.
    /// `release` will end the subscription schedule and keep the underlying subscription running.
    /// `cancel` will end the subscription schedule and cancel the underlying subscription.
    pub fn end_behavior(self, end_behavior: SubscriptionScheduleEndBehavior) -> (out: Self)
        ensures
            out == (UpdateSubscriptionSchedule { inner: (UpdateSubscriptionScheduleBuilder { end_behavior: Some(end_behavior), ..self.inner }), ..self }),
    {
        let mut out = self;
        out.inner.end_behavior = Some(end_behavior);
        out
    }

    /// Specifies which fields in the response should be expanded.
    pub fn expand(self, expand: &'a [&'a str]) -> (out: Self)
        ensures
            out == (UpdateSubscriptionSchedule { inner: (UpdateSubscriptionScheduleBuilder { expand: Some(expand), ..self.inner }), ..self }),
    {
        let mut out = self;
        out.inner.expand = Some(expand);
        out
    }

    /// Set of [key-value pairs](https://stripe.com/docs/api/metadata) that you can attach to an object.
    /// This can be useful for storing additional information about the object in a structured format.
    /// Individual keys can be unset by posting an empty value to them.
    /// All keys can be unset by posting an empty value to `metadata`.
    pub fn metadata(self, metadata: &'a HashMap<String, String>) -> (out: Self)
        ensures
            out == (UpdateSubscriptionSchedule { inner: (UpdateSubscriptionScheduleBuilder { metadata: Some(metadata), ..self.inner }), ..self }),
    {
        let mut out = self;
        out.inner.metadata = Some(metadata);
        out
    }

    /// List representing phases of the subscription schedule.
    /// Each phase can be customized to have different durations, plans, and coupons.
    /// If there are multiple phases, the `end_date` of one phase will always equal the `start_date` of the next phase.
    /// Note that past phases can be omitted.
    pub fn phases(self, phases: &'a [UpdateSubscriptionSchedulePhases<'a>]) -> (out: Self)
        ensures
            out == (UpdateSubscriptionSchedule { inner: (UpdateSubscriptionScheduleBuilder { phases: Some(phases), ..self.inner }), ..self }),
    {
        let mut out = self;
        out.inner.phases = Some(phases);
        out
    }

    /// If the update changes the current phase, indicates whether the changes should be prorated.
    /// The default value is `create_prorations`.
    pub fn proration_behavior(self, proration_behavior: UpdateSubscriptionScheduleProrationBehavior) -> (out: Self)
        ensures
            out == (UpdateSubscriptionSchedule { inner: (UpdateSubscriptionScheduleBuilder { proration_behavior: Some(proration_behavior), ..self.inner }), ..self }),
    {
        let mut out = self;
        out.inner.proration_behavior = Some(proration_behavior);
        out
    }
}

impl StripeRequest for UpdateSubscriptionSchedule<'_> {
    open spec fn call(&self) -> RequestModel {
        RequestModel { method: StripeMethod::Post, path: "/subscription_schedules/"@ + self.schedule@, query: None, body: None, idempotency_key: None }
    }

    fn build(&self) -> (request: RequestDescription) {
        let mut path = String::from_str("/subscription_schedules/");
        path.append(self.schedule.as_str());
        RequestDescription::new(StripeMethod::Post, path)
    }
}

#[derive(Copy, Clone, Debug)]
pub struct CancelSubscriptionScheduleBuilder<'a> {
    pub expand: Option<&'a [&'a str]>,
    pub invoice_now: Option<bool>,
    pub prorate: Option<bool>,
}

impl<'a> CancelSubscriptionScheduleBuilder<'a> {
    pub fn new() -> (out: Self)
        ensures
            out == (CancelSubscriptionScheduleBuilder { expand: None, invoice_now: None, prorate: None }),
    {
        Self { expand: None, invoice_now: None, prorate: None }
    }
}

/// Cancels a subscription schedule and its associated subscription immediately (if the subscription schedule has an active subscription).
/// A subscription schedule can only be canceled if its status is `not_started` or `active`.
#[derive(Clone, Debug)]
pub struct CancelSubscriptionSchedule<'a> {
    pub inner: CancelSubscriptionScheduleBuilder<'a>,
    pub schedule: &'a SubscriptionScheduleId,
}

impl<'a> CancelSubscriptionSchedule<'a> {
    /// Construct a new `CancelSubscriptionSchedule`.
    pub fn new(schedule: &'a SubscriptionScheduleId) -> (out: Self)
        ensures
            out == (CancelSubscriptionSchedule { schedule: schedule, inner: CancelSubscriptionScheduleBuilder { expand: None, invoice_now: None, prorate: None } }),
    {
        Self { schedule, inner: CancelSubscriptionScheduleBuilder::new() }
    }

    /// Specifies which fields in the response should be expanded.
    pub fn expand(self, expand: &'a [&'a str]) -> (out: Self)
        ensures
            out == (CancelSubscriptionSchedule { inner: (CancelSubscriptionScheduleBuilder { expand: Some(expand), ..self.inner }), ..self }),
    {
        let mut out = self;
        out.inner.expand = Some(expand);
        out
    }

    /// If the subscription schedule is `active`, indicates if a final invoice will be generated that contains any un-invoiced metered usage and new/pending proration invoice items.
    /// Defaults to `true`.
    pub fn invoice_now(self, invoice_now: bool) -> (out: Self)
        ensures
            out == (CancelSubscriptionSchedule { inner: (CancelSubscriptionScheduleBuilder { invoice_now: Some(invoice_now), ..self.inner }), ..self }),
    {
        let mut out = self;
        out.inner.invoice_now = Some(invoice_now);
        out
    }

    /// If the subscription schedule is `active`, indicates if the cancellation should be prorated.
    /// Defaults to `true`.
    pub fn prorate(self, prorate: bool) -> (out: Self)
        ensures
            out == (CancelSubscriptionSchedule { inner: (CancelSubscriptionScheduleBuilder { prorate: Some(prorate), ..self.inner }), ..self }),
    {
        let mut out = self;
        out.inner.prorate = Some(prorate);
        out
    }
}

impl StripeRequest for CancelSubscriptionSchedule<'_> {
    open spec fn call(&self) -> RequestModel {
        RequestModel { method: StripeMethod::Post, path: "/subscription_schedules/"@ + self.schedule@ + "/cancel"@, query: None, body: None, idempotency_key: None }
    }

    fn build(&self) -> (request: RequestDescription) {
        let mut path = String::from_str("/subscription_schedules/");
        path.append(self.schedule.as_str());
        path.append("/cancel");
        RequestDescription::new(StripeMethod::Post, path)
    }
}

#[derive(Copy, Clone, Debug)]
pub struct ReleaseSubscriptionScheduleBuilder<'a> {
    pub expand: Option<&'a [&'a str]>,
    pub preserve_cancel_date: Option<bool>,
}

impl<'a> ReleaseSubscriptionScheduleBuilder<'a> {
    pub fn new() -> (out: Self)
        ensures
            out == (ReleaseSubscriptionScheduleBuilder { expand: None, preserve_cancel_date: None }),
    {
        Self { expand: None, preserve_cancel_date: None }
    }
}

/// Releases the subscription schedule immediately, which will stop scheduling of its phases, but leave any existing subscription in place.
/// A schedule can only be released if its status is `not_started` or `active`.
/// If the subscription schedule is currently associated with a subscription, releasing it will remove its `subscription` property and set the subscription's ID to the `released_subscription` property.
#[derive(Clone, Debug)]
pub struct ReleaseSubscriptionSchedule<'a> {
    pub inner: ReleaseSubscriptionScheduleBuilder<'a>,
    pub schedule: &'a SubscriptionScheduleId,
}

impl<'a> ReleaseSubscriptionSchedule<'a> {
    /// Construct a new `ReleaseSubscriptionSchedule`.
    pub fn new(schedule: &'a SubscriptionScheduleId) -> (out: Self)
        ensures
            out == (ReleaseSubscriptionSchedule { schedule: schedule, inner: ReleaseSubscriptionScheduleBuilder { expand: None, preserve_cancel_date: None } }),
    {
        Self { schedule, inner: ReleaseSubscriptionScheduleBuilder::new() }
    }

    /// Specifies which fields in the response should be expanded.
    pub fn expand(self, expand: &'a [&'a str]) -> (out: Self)
        ensures
            out == (ReleaseSubscriptionSchedule { inner: (ReleaseSubscriptionScheduleBuilder { expand: Some(expand), ..self.inner }), ..self }),
    {
        let mut out = self;
        out.inner.expand = Some(expand);
        out
    }

    /// Keep any cancellation on the subscription that the schedule has set
    pub fn preserve_cancel_date(self, preserve_cancel_date: bool) -> (out: Self)
        ensures
            out == (ReleaseSubscriptionSchedule { inner: (ReleaseSubscriptionScheduleBuilder { preserve_cancel_date: Some(preserve_cancel_date), ..self.inner }), ..self }),
    {
        let mut out = self;
        out.inner.preserve_cancel_date = Some(preserve_cancel_date);
        out
    }
}

impl StripeRequest for ReleaseSubscriptionSchedule<'_> {
    open spec fn call(&self) -> RequestModel {
        RequestModel { method: StripeMethod::Post, path: "/subscription_schedules/"@ + self.schedule@ + "/release"@, query: None, body: None, idempotency_key: None }
    }

    fn build(&self) -> (request: RequestDescription) {
        let mut path = String::from_str("/subscription_schedules/");
        path.append(self.schedule.as_str());
        path.append("/release");
        RequestDescription::new(StripeMethod::Post, path)
    }
}

#[derive(Copy, Clone, Debug)]
pub struct BillingThresholdsParam {
    /// Monetary threshold that triggers the subscription to advance to a new billing period
    pub amount_gte: Option<i64>,
    /// Indicates if the `billing_cycle_anchor` should be reset when a threshold is reached.
    /// If true, `billing_cycle_anchor` will be updated to the date/time the threshold was last reached; otherwise, the value will remain unchanged.
    pub reset_billing_cycle_anchor: Option<bool>,
}

impl BillingThresholdsParam {
    pub fn new() -> (out: Self)
        ensures
            out == (BillingThresholdsParam { amount_gte: None, reset_billing_cycle_anchor: None }),
    {
        Self { amount_gte: None, reset_billing_cycle_anchor: None }
    }
}

impl Default for BillingThresholdsParam {
    fn default() -> (out: Self)
        ensures
            out == (BillingThresholdsParam { amount_gte: None, reset_billing_cycle_anchor: None }),
    {
        Self::new()
    }
}

#[derive(Copy, Clone, Debug)]
pub struct TransferDataSpecs<'a> {
    /// A non-negative decimal between 0 and 100, with at most two decimal places.
    /// This represents the percentage of the subscription invoice total that will be transferred to the destination account.
    /// By default, the entire amount is transferred to the destination.
    /// Written as a decimal number.
    pub amount_percent: Option<&'a str>,
    /// ID of an existing, connected Stripe account.
    pub destination: &'a str,
}

impl<'a> TransferDataSpecs<'a> {
    pub fn new(destination: &'a str) -> (out: Self)
        ensures
            out == (TransferDataSpecs { amount_percent: None, destination: destination }),
    {
        Self { amount_percent: None, destination }
    }
}

#[derive(Copy, Clone, Debug)]
pub struct DiscountsDataParam<'a> {
    /// ID of the coupon to create a new discount for.
    pub coupon: Option<&'a str>,
    /// ID of an existing discount on the object (or one of its ancestors) to reuse.
    pub discount: Option<&'a str>,
    /// ID of the promotion code to create a new discount for.
    pub promotion_code: Option<&'a str>,
}

impl<'a> DiscountsDataParam<'a> {
    pub fn new() -> (out: Self)
        ensures
            out == (DiscountsDataParam { coupon: None, discount: None, promotion_code: None }),
    {
        Self { coupon: None, discount: None, promotion_code: None }
    }
}

impl<'a> Default for DiscountsDataParam<'a> {
    fn default() -> (out: Self)
        ensures
            out == (DiscountsDataParam { coupon: None, discount: None, promotion_code: None }),
    {
        Self::new()
    }
}

#[derive(Copy, Clone, Debug)]
pub struct ItemBillingThresholdsParam {
    /// Number of units that meets the billing threshold to advance the subscription to a new billing period (e.g., it takes 10 $5 units to meet a $50 [monetary threshold](https://stripe.com/docs/api/subscriptions/update#update_subscription-billing_thresholds-amount_gte)).
    pub usage_gte: i64,
}

impl ItemBillingThresholdsParam {
    pub fn new(usage_gte: i64) -> (out: Self)
        ensures
            out == (ItemBillingThresholdsParam { usage_gte: usage_gte }),
    {
        Self { usage_gte }
    }
}

} // verus!
