//! Connected accounts: the calls that create, retrieve, update, list, reject
//! and delete them, and that list their capabilities and persons.

use vstd::prelude::*;
use std::collections::HashMap;
use vstd::string::StringExecFns;
use crate::error::StripeParseError;
use crate::ids::AccountId;
use crate::request::{RequestDescription, RequestModel, StripeMethod, StripeRequest};
use crate::text::str_eq;
use crate::types::{AccountBusinessType, Currency, RangeQueryTs, Timestamp};

verus! {

/// With <a href="/connect">Connect</a>, you can delete accounts you manage.
///
/// Test-mode accounts can be deleted at any time.
///
/// Live-mode accounts where Stripe is responsible for negative account balances cannot be deleted, which includes Standard accounts.
/// Live-mode accounts where your platform is liable for negative account balances, which includes Custom and Express accounts, can be deleted when all <a href="/api/balance/balanace_object">balances</a> are zero.
///
/// If you want to delete your own account, use the [account information tab in your account settings](https://dashboard.stripe.com/settings/account) instead.
#[derive(Clone, Debug)]
pub struct DeleteAccount<'a> {
    pub account: &'a AccountId,
}

impl<'a> DeleteAccount<'a> {
    /// Construct a new `DeleteAccount`.
    pub fn new(account: &'a AccountId) -> (out: Self)
        ensures
            out == (DeleteAccount { account: account }),
    {
        Self { account }
    }
}

impl StripeRequest for DeleteAccount<'_> {
    open spec fn call(&self) -> RequestModel {
        RequestModel { method: StripeMethod::Delete, path: "/accounts/"@ + self.account@, query: None, body: None, idempotency_key: None }
    }

    fn build(&self) -> (request: RequestDescription) {
        let mut path = String::from_str("/accounts/");
        path.append(self.account.as_str());
        RequestDescription::new(StripeMethod::Delete, path)
    }
}

#[derive(Copy, Clone, Debug)]
pub struct RetrieveForMyAccountAccountBuilder<'a> {
    pub expand: Option<&'a [&'a str]>,
}

impl<'a> RetrieveForMyAccountAccountBuilder<'a> {
    pub fn new() -> (out: Self)
        ensures
            out == (RetrieveForMyAccountAccountBuilder { expand: None }),
    {
        Self { expand: None }
    }
}

/// Retrieves the details of an account.
#[derive(Clone, Debug)]
pub struct RetrieveForMyAccountAccount<'a> {
    pub inner: RetrieveForMyAccountAccountBuilder<'a>,
}

impl<'a> RetrieveForMyAccountAccount<'a> {
    /// Construct a new `RetrieveForMyAccountAccount`.
    pub fn new() -> (out: Self)
        ensures
            out == (RetrieveForMyAccountAccount { inner: RetrieveForMyAccountAccountBuilder { expand: None } }),
    {
        Self { inner: RetrieveForMyAccountAccountBuilder::new() }
    }

    /// Specifies which fields in the response should be expanded.
    pub fn expand(self, expand: &'a [&'a str]) -> (out: Self)
        ensures
            out == (RetrieveForMyAccountAccount { inner: (RetrieveForMyAccountAccountBuilder { expand: Some(expand), ..self.inner }), ..self }),
    {
        let mut out = self;
        out.inner.expand = Some(expand);
        out
    }
}

impl<'a> Default for RetrieveForMyAccountAccount<'a> {
    fn default() -> (out: Self)
        ensures
            out == (RetrieveForMyAccountAccount { inner: RetrieveForMyAccountAccountBuilder { expand: None } }),
    {
        Self::new()
    }
}

impl StripeRequest for RetrieveForMyAccountAccount<'_> {
    open spec fn call(&self) -> RequestModel {
        RequestModel { method: StripeMethod::Get, path: "/account"@, query: None, body: None, idempotency_key: None }
    }

    fn build(&self) -> (request: RequestDescription) {
        let path = String::from_str("/account");
        RequestDescription::new(StripeMethod::Get, path)
    }
}

#[derive(Copy, Clone, Debug)]
pub struct ListAccountBuilder<'a> {
    pub created: Option<RangeQueryTs>,
    pub ending_before: Option<&'a str>,
    pub expand: Option<&'a [&'a str]>,
    pub limit: Option<i64>,
    pub starting_after: Option<&'a str>,
}

impl<'a> ListAccountBuilder<'a> {
    pub fn new() -> (out: Self)
        ensures
            out == (ListAccountBuilder { created: None, ending_before: None, expand: None, limit: None, starting_after: None }),
    {
        Self { created: None, ending_before: None, expand: None, limit: None, starting_after: None }
    }
}

/// Returns a list of accounts connected to your platform via [Connect](https://stripe.com/docs/connect).
/// If you're not a platform, the list is empty.
#[derive(Clone, Debug)]
pub struct ListAccount<'a> {
    pub inner: ListAccountBuilder<'a>,
}

impl<'a> ListAccount<'a> {
    /// Construct a new `ListAccount`.
    pub fn new() -> (out: Self)
        ensures
            out == (ListAccount { inner: ListAccountBuilder { created: None, ending_before: None, expand: None, limit: None, starting_after: None } }),
    {
        Self { inner: ListAccountBuilder::new() }
    }

    /// Only return connected accounts that were created during the given date interval.
    pub fn created(self, created: RangeQueryTs) -> (out: Self)
        ensures
            out == (ListAccount { inner: (ListAccountBuilder { created: Some(created), ..self.inner }), ..self }),
    {
        let mut out = self;
        out.inner.created = Some(created);
        out
    }

    /// A cursor for use in pagination.
    /// `ending_before` is an object ID that defines your place in the list.
    /// For instance, if you make a list request and receive 100 objects, starting with `obj_bar`, your subsequent call can include `ending_before=obj_bar` in order to fetch the previous page of the list.
    pub fn ending_before(self, ending_before: &'a str) -> (out: Self)
        ensures
            out == (ListAccount { inner: (ListAccountBuilder { ending_before: Some(ending_before), ..self.inner }), ..self }),
    {
        let mut out = self;
        out.inner.ending_before = Some(ending_before);
        out
    }

    /// Specifies which fields in the response should be expanded.
    pub fn expand(self, expand: &'a [&'a str]) -> (out: Self)
        ensures
            out == (ListAccount { inner: (ListAccountBuilder { expand: Some(expand), ..self.inner }), ..self }),
    {
        let mut out = self;
        out.inner.expand = Some(expand);
        out
    }

    /// A limit on the number of objects to be returned.
    /// Limit can range between 1 and 100, and the default is 10.
    pub fn limit(self, limit: i64) -> (out: Self)
        ensures
            out == (ListAccount { inner: (ListAccountBuilder { limit: Some(limit), ..self.inner }), ..self }),
    {
        let mut out = self;
        out.inner.limit = Some(limit);
        out
    }

    /// A cursor for use in pagination.
    /// `starting_after` is an object ID that defines your place in the list.
    /// For instance, if you make a list request and receive 100 objects, ending with `obj_foo`, your subsequent call can include `starting_after=obj_foo` in order to fetch the next page of the list.
    pub fn starting_after(self, starting_after: &'a str) -> (out: Self)
        ensures
            out == (ListAccount { inner: (ListAccountBuilder { starting_after: Some(starting_after), ..self.inner }), ..self }),
    {
        let mut out = self;
        out.inner.starting_after = Some(starting_after);
        out
    }
}

impl<'a> Default for ListAccount<'a> {
    fn default() -> (out: Self)
        ensures
            out == (ListAccount { inner: ListAccountBuilder { created: None, ending_before: None, expand: None, limit: None, starting_after: None } }),
    {
        Self::new()
    }
}

impl StripeRequest for ListAccount<'_> {
    open spec fn call(&self) -> RequestModel {
        RequestModel { method: StripeMethod::Get, path: "/accounts"@, query: None, body: None, idempotency_key: None }
    }

    fn build(&self) -> (request: RequestDescription) {
        let path = String::from_str("/accounts");
        RequestDescription::new(StripeMethod::Get, path)
    }
}

#[derive(Copy, Clone, Debug)]
pub struct RetrieveAccountBuilder<'a> {
    pub expand: Option<&'a [&'a str]>,
}

impl<'a> RetrieveAccountBuilder<'a> {
    pub fn new() -> (out: Self)
        ensures
            out == (RetrieveAccountBuilder { expand: None }),
    {
        Self { expand: None }
    }
}

/// Retrieves the details of an account.
#[derive(Clone, Debug)]
pub struct RetrieveAccount<'a> {
    pub inner: RetrieveAccountBuilder<'a>,
    pub account: &'a AccountId,
}

impl<'a> RetrieveAccount<'a> {
    /// Construct a new `RetrieveAccount`.
    pub fn new(account: &'a AccountId) -> (out: Self)
        ensures
            out == (RetrieveAccount { account: account, inner: RetrieveAccountBuilder { expand: None } }),
    {
        Self { account, inner: RetrieveAccountBuilder::new() }
    }

    /// Specifies which fields in the response should be expanded.
    pub fn expand(self, expand: &'a [&'a str]) -> (out: Self)
        ensures
            out == (RetrieveAccount { inner: (RetrieveAccountBuilder { expand: Some(expand), ..self.inner }), ..self }),
    {
        let mut out = self;
        out.inner.expand = Some(expand);
        out
    }
}

impl StripeRequest for RetrieveAccount<'_> {
    open spec fn call(&self) -> RequestModel {
        RequestModel { method: StripeMethod::Get, path: "/accounts/"@ + self.account@, query: None, body: None, idempotency_key: None }
    }

    fn build(&self) -> (request: RequestDescription) {
        let mut path = String::from_str("/accounts/");
        path.append(self.account.as_str());
        RequestDescription::new(StripeMethod::Get, path)
    }
}

#[derive(Copy, Clone, Debug)]
pub struct CapabilitiesAccountBuilder<'a> {
    pub expand: Option<&'a [&'a str]>,
}

impl<'a> CapabilitiesAccountBuilder<'a> {
    pub fn new() -> (out: Self)
        ensures
            out == (CapabilitiesAccountBuilder { expand: None }),
    {
        Self { expand: None }
    }
}

/// Returns a list of capabilities associated with the account.
/// The capabilities are returned sorted by creation date, with the most recent capability appearing first.
#[derive(Clone, Debug)]
pub struct CapabilitiesAccount<'a> {
    pub inner: CapabilitiesAccountBuilder<'a>,
    pub account: &'a AccountId,
}

impl<'a> CapabilitiesAccount<'a> {
    /// Construct a new `CapabilitiesAccount`.
    pub fn new(account: &'a AccountId) -> (out: Self)
        ensures
            out == (CapabilitiesAccount { account: account, inner: CapabilitiesAccountBuilder { expand: None } }),
    {
        Self { account, inner: CapabilitiesAccountBuilder::new() }
    }

    /// Specifies which fields in the response should be expanded.
    pub fn expand(self, expand: &'a [&'a str]) -> (out: Self)
        ensures
            out == (CapabilitiesAccount { inner: (CapabilitiesAccountBuilder { expand: Some(expand), ..self.inner }), ..self }),
    {
        let mut out = self;
        out.inner.expand = Some(expand);
        out
    }
}

impl StripeRequest for CapabilitiesAccount<'_> {
    open spec fn call(&self) -> RequestModel {
        RequestModel { method: StripeMethod::Get, path: "/accounts/"@ + self.account@ + "/capabilities"@, query: None, body: None, idempotency_key: None }
    }

    fn build(&self) -> (request: RequestDescription) {
        let mut path = String::from_str("/accounts/");
        path.append(self.account.as_str());
        path.append("/capabilities");
        RequestDescription::new(StripeMethod::Get, path)
    }
}

#[derive(Copy, Clone, Debug)]
pub struct PersonsAccountBuilder<'a> {
    pub ending_before: Option<&'a str>,
    pub expand: Option<&'a [&'a str]>,
    pub limit: Option<i64>,
    pub relationship: Option<PersonsAccountRelationship>,
    pub starting_after: Option<&'a str>,
}

impl<'a> PersonsAccountBuilder<'a> {
    pub fn new() -> (out: Self)
        ensures
            out == (PersonsAccountBuilder { ending_before: None, expand: None, limit: None, relationship: None, starting_after: None }),
    {
        Self { ending_before: None, expand: None, limit: None, relationship: None, starting_after: None, }
    }
}

/// Filters on the list of people returned based on the person's relationship to the account's company.
#[derive(Copy, Clone, Debug)]
pub struct PersonsAccountRelationship {
    /// A filter on the list of people returned based on whether these people are directors of the account's company.
    pub director: Option<bool>,
    /// A filter on the list of people returned based on whether these people are executives of the account's company.
    pub executive: Option<bool>,
    /// A filter on the list of people returned based on whether these people are legal guardians of the account's representative.
    pub legal_guardian: Option<bool>,
    /// A filter on the list of people returned based on whether these people are owners of the account's company.
    pub owner: Option<bool>,
    /// A filter on the list of people returned based on whether these people are the representative of the account's company.
    pub representative: Option<bool>,
}

impl PersonsAccountRelationship {
    pub fn new() -> (out: Self)
        ensures
            out == (PersonsAccountRelationship { director: None, executive: None, legal_guardian: None, owner: None, representative: None }),
    {
        Self { director: None, executive: None, legal_guardian: None, owner: None, representative: None, }
    }
}

impl Default for PersonsAccountRelationship {
    fn default() -> (out: Self)
        ensures
            out == (PersonsAccountRelationship { director: None, executive: None, legal_guardian: None, owner: None, representative: None }),
    {
        Self::new()
    }
}

/// Returns a list of people associated with the account's legal entity.
/// The people are returned sorted by creation date, with the most recent people appearing first.
#[derive(Clone, Debug)]
pub struct PersonsAccount<'a> {
    pub inner: PersonsAccountBuilder<'a>,
    pub account: &'a AccountId,
}

impl<'a> PersonsAccount<'a> {
    /// Construct a new `PersonsAccount`.
    pub fn new(account: &'a AccountId) -> (out: Self)
        ensures
            out == (PersonsAccount { account: account, inner: PersonsAccountBuilder { ending_before: None, expand: None, limit: None, relationship: None, starting_after: None } }),
    {
        Self { account, inner: PersonsAccountBuilder::new() }
    }

    /// A cursor for use in pagination.
    /// `ending_before` is an object ID that defines your place in the list.
    /// For instance, if you make a list request and receive 100 objects, starting with `obj_bar`, your subsequent call can include `ending_before=obj_bar` in order to fetch the previous page of the list.
    pub fn ending_before(self, ending_before: &'a str) -> (out: Self)
        ensures
            out == (PersonsAccount { inner: (PersonsAccountBuilder { ending_before: Some(ending_before), ..self.inner }), ..self }),
    {
        let mut out = self;
        out.inner.ending_before = Some(ending_before);
        out
    }

    /// Specifies which fields in the response should be expanded.
    pub fn expand(self, expand: &'a [&'a str]) -> (out: Self)
        ensures
            out == (PersonsAccount { inner: (PersonsAccountBuilder { expand: Some(expand), ..self.inner }), ..self }),
    {
        let mut out = self;
        out.inner.expand = Some(expand);
        out
    }

    /// A limit on the number of objects to be returned.
    /// Limit can range between 1 and 100, and the default is 10.
    pub fn limit(self, limit: i64) -> (out: Self)
        ensures
            out == (PersonsAccount { inner: (PersonsAccountBuilder { limit: Some(limit), ..self.inner }), ..self }),
    {
        let mut out = self;
        out.inner.limit = Some(limit);
        out
    }

    /// Filters on the list of people returned based on the person's relationship to the account's company.
    pub fn relationship(self, relationship: PersonsAccountRelationship) -> (out: Self)
        ensures
            out == (PersonsAccount { inner: (PersonsAccountBuilder { relationship: Some(relationship), ..self.inner }), ..self }),
    {
        let mut out = self;
        out.inner.relationship = Some(relationship);
        out
    }

    /// A cursor for use in pagination.
    /// `starting_after` is an object ID that defines your place in the list.
    /// For instance, if you make a list request and receive 100 objects, ending with `obj_foo`, your subsequent call can include `starting_after=obj_foo` in order to fetch the next page of the list.
    pub fn starting_after(self, starting_after: &'a str) -> (out: Self)
        ensures
            out == (PersonsAccount { inner: (PersonsAccountBuilder { starting_after: Some(starting_after), ..self.inner }), ..self }),
    {
        let mut out = self;
        out.inner.starting_after = Some(starting_after);
        out
    }
}

impl StripeRequest for PersonsAccount<'_> {
    open spec fn call(&self) -> RequestModel {
        RequestModel { method: StripeMethod::Get, path: "/accounts/"@ + self.account@ + "/persons"@, query: None, body: None, idempotency_key: None }
    }

    fn build(&self) -> (request: RequestDescription) {
        let mut path = String::from_str("/accounts/");
        path.append(self.account.as_str());
        path.append("/persons");
        RequestDescription::new(StripeMethod::Get, path)
    }
}

#[derive(Copy, Clone, Debug)]
pub struct CreateAccountBuilder<'a> {
    pub account_token: Option<&'a str>,
    pub business_profile: Option<BusinessProfileSpecs<'a>>,
    pub business_type: Option<AccountBusinessType>,
    pub capabilities: Option<CapabilitiesParam>,
    pub company: Option<CreateAccountCompany<'a>>,
    pub controller: Option<CreateAccountController>,
    pub country: Option<&'a str>,
    pub default_currency: Option<Currency>,
    pub documents: Option<DocumentsSpecs<'a>>,
    pub email: Option<&'a str>,
    pub expand: Option<&'a [&'a str]>,
    pub external_account: Option<&'a str>,
    pub individual: Option<CreateAccountIndividual<'a>>,
    pub metadata: Option<&'a HashMap<String, String>>,
    pub settings: Option<CreateAccountSettings<'a>>,
    pub tos_acceptance: Option<TosAcceptanceSpecs<'a>>,
    pub type_: Option<CreateAccountType>,
}

impl<'a> CreateAccountBuilder<'a> {
    pub fn new() -> (out: Self)
        ensures
            out == (CreateAccountBuilder { account_token: None, business_profile: None, business_type: None, capabilities: None, company: None, controller: None, country: None, default_currency: None, documents: None, email: None, expand: None, external_account: None, individual: None, metadata: None, settings: None, tos_acceptance: None, type_: None }),
    {
        Self { account_token: None, business_profile: None, business_type: None, capabilities: None, company: None, controller: None, country: None, default_currency: None, documents: None, email: None, expand: None, external_account: None, individual: None, metadata: None, settings: None, tos_acceptance: None, type_: None, }
    }
}

/// Information about the company or business.
/// This field is available for any `business_type`.
/// Once you create an [Account Link](/api/account_links) or [Account Session](/api/account_sessions), this property can only be updated for accounts where [controller.requirement_collection](/api/accounts/object#account_object-controller-requirement_collection) is `application`, which includes Custom accounts.
#[derive(Copy, Clone, Debug)]
pub struct CreateAccountCompany<'a> {
    /// The company's primary address.
    pub address: Option<AddressSpecs<'a>>,
    /// The Kana variation of the company's primary address (Japan only).
    pub address_kana: Option<CreateAccountCompanyAddressKana<'a>>,
    /// The Kanji variation of the company's primary address (Japan only).
    pub address_kanji: Option<CreateAccountCompanyAddressKanji<'a>>,
    /// Whether the company's directors have been provided.
    /// Set this Boolean to `true` after creating all the company's directors with [the Persons API](https://docs.stripe.com/api/persons) for accounts with a `relationship.director` requirement.
    /// This value is not automatically set to `true` after creating directors, so it needs to be updated to indicate all directors have been provided.
    pub directors_provided: Option<bool>,
    /// Whether the company's executives have been provided.
    /// Set this Boolean to `true` after creating all the company's executives with [the Persons API](https://docs.stripe.com/api/persons) for accounts with a `relationship.executive` requirement.
    pub executives_provided: Option<bool>,
    /// The export license ID number of the company, also referred as Import Export Code (India only).
    pub export_license_id: Option<&'a str>,
    /// The purpose code to use for export transactions (India only).
    pub export_purpose_code: Option<&'a str>,
    /// The company's legal name.
    pub name: Option<&'a str>,
    /// The Kana variation of the company's legal name (Japan only).
    pub name_kana: Option<&'a str>,
    /// The Kanji variation of the company's legal name (Japan only).
    pub name_kanji: Option<&'a str>,
    /// Whether the company's owners have been provided.
    /// Set this Boolean to `true` after creating all the company's owners with [the Persons API](https://docs.stripe.com/api/persons) for accounts with a `relationship.owner` requirement.
    pub owners_provided: Option<bool>,
    /// This hash is used to attest that the beneficial owner information provided to Stripe is both current and correct.
    pub ownership_declaration: Option<CompanyOwnershipDeclaration<'a>>,
    /// The company's phone number (used for verification).
    pub phone: Option<&'a str>,
    /// The identification number given to a company when it is registered or incorporated, if distinct from the identification number used for filing taxes.
    /// (Examples are the CIN for companies and LLP IN for partnerships in India, and the Company Registration Number in Hong Kong).
    pub registration_number: Option<&'a str>,
    /// The category identifying the legal structure of the company or legal entity.
    /// See [Business structure](https://docs.stripe.com/connect/identity-verification#business-structure) for more details.
    /// Pass an empty string to unset this value.
    pub structure: Option<CreateAccountCompanyStructure>,
    /// The business ID number of the company, as appropriate for the company's country.
    /// (Examples are an Employer ID Number in the U.S., a Business Number in Canada, or a Company Number in the UK.).
    pub tax_id: Option<&'a str>,
    /// The jurisdiction in which the `tax_id` is registered (Germany-based companies only).
    pub tax_id_registrar: Option<&'a str>,
    /// The VAT number of the company.
    pub vat_id: Option<&'a str>,
    /// Information on the verification state of the company.
    pub verification: Option<VerificationSpecs<'a>>,
}

impl<'a> CreateAccountCompany<'a> {
    pub fn new() -> (out: Self)
        ensures
            out == (CreateAccountCompany { address: None, address_kana: None, address_kanji: None, directors_provided: None, executives_provided: None, export_license_id: None, export_purpose_code: None, name: None, name_kana: None, name_kanji: None, owners_provided: None, ownership_declaration: None, phone: None, registration_number: None, structure: None, tax_id: None, tax_id_registrar: None, vat_id: None, verification: None }),
    {
        Self { address: None, address_kana: None, address_kanji: None, directors_provided: None, executives_provided: None, export_license_id: None, export_purpose_code: None, name: None, name_kana: None, name_kanji: None, owners_provided: None, ownership_declaration: None, phone: None, registration_number: None, structure: None, tax_id: None, tax_id_registrar: None, vat_id: None, verification: None, }
    }
}

impl<'a> Default for CreateAccountCompany<'a> {
    fn default() -> (out: Self)
        ensures
            out == (CreateAccountCompany { address: None, address_kana: None, address_kanji: None, directors_provided: None, executives_provided: None, export_license_id: None, export_purpose_code: None, name: None, name_kana: None, name_kanji: None, owners_provided: None, ownership_declaration: None, phone: None, registration_number: None, structure: None, tax_id: None, tax_id_registrar: None, vat_id: None, verification: None }),
    {
        Self::new()
    }
}

/// The Kana variation of the company's primary address (Japan only).
#[derive(Copy, Clone, Debug)]
pub struct CreateAccountCompanyAddressKana<'a> {
    /// City or ward.
    pub city: Option<&'a str>,
    /// Two-letter country code ([ISO 3166-1 alpha-2](https://en.wikipedia.org/wiki/ISO_3166-1_alpha-2)).
    pub country: Option<&'a str>,
    /// Block or building number.
    pub line1: Option<&'a str>,
    /// Building details.
    pub line2: Option<&'a str>,
    /// Postal code.
    pub postal_code: Option<&'a str>,
    /// Prefecture.
    pub state: Option<&'a str>,
    /// Town or cho-me.
    pub town: Option<&'a str>,
}

impl<'a> CreateAccountCompanyAddressKana<'a> {
    pub fn new() -> (out: Self)
        ensures
            out == (CreateAccountCompanyAddressKana { city: None, country: None, line1: None, line2: None, postal_code: None, state: None, town: None }),
    {
        Self { city: None, country: None, line1: None, line2: None, postal_code: None, state: None, town: None, }
    }
}

impl<'a> Default for CreateAccountCompanyAddressKana<'a> {
    fn default() -> (out: Self)
        ensures
            out == (CreateAccountCompanyAddressKana { city: None, country: None, line1: None, line2: None, postal_code: None, state: None, town: None }),
    {
        Self::new()
    }
}

/// The Kanji variation of the company's primary address (Japan only).
#[derive(Copy, Clone, Debug)]
pub struct CreateAccountCompanyAddressKanji<'a> {
    /// City or ward.
    pub city: Option<&'a str>,
    /// Two-letter country code ([ISO 3166-1 alpha-2](https://en.wikipedia.org/wiki/ISO_3166-1_alpha-2)).
    pub country: Option<&'a str>,
    /// Block or building number.
    pub line1: Option<&'a str>,
    /// Building details.
    pub line2: Option<&'a str>,
    /// Postal code.
    pub postal_code: Option<&'a str>,
    /// Prefecture.
    pub state: Option<&'a str>,
    /// Town or cho-me.
    pub town: Option<&'a str>,
}

impl<'a> CreateAccountCompanyAddressKanji<'a> {
    pub fn new() -> (out: Self)
        ensures
            out == (CreateAccountCompanyAddressKanji { city: None, country: None, line1: None, line2: None, postal_code: None, state: None, town: None }),
    {
        Self { city: None, country: None, line1: None, line2: None, postal_code: None, state: None, town: None, }
    }
}

impl<'a> Default for CreateAccountCompanyAddressKanji<'a> {
    fn default() -> (out: Self)
        ensures
            out == (CreateAccountCompanyAddressKanji { city: None, country: None, line1: None, line2: None, postal_code: None, state: None, town: None }),
    {
        Self::new()
    }
}

/// The category identifying the legal structure of the company or legal entity.
/// See [Business structure](https://docs.stripe.com/connect/identity-verification#business-structure) for more details.
/// Pass an empty string to unset this value.
#[derive(Copy, Clone, Debug, PartialEq, Eq, Structural)]
pub enum CreateAccountCompanyStructure {
    FreeZoneEstablishment,
    FreeZoneLlc,
    GovernmentInstrumentality,
    GovernmentalUnit,
    IncorporatedNonProfit,
    IncorporatedPartnership,
    LimitedLiabilityPartnership,
    Llc,
    MultiMemberLlc,
    PrivateCompany,
    PrivateCorporation,
    PrivatePartnership,
    PublicCompany,
    PublicCorporation,
    PublicPartnership,
    RegisteredCharity,
    SingleMemberLlc,
    SoleEstablishment,
    SoleProprietorship,
    TaxExemptGovernmentInstrumentality,
    UnincorporatedAssociation,
    UnincorporatedNonProfit,
    UnincorporatedPartnership,
    /// An unrecognized value from Stripe. Should not be used as a request parameter.
    Unknown,
}

impl CreateAccountCompanyStructure {
    /// The name of the value on the wire.
    pub open spec fn wire_name(self) -> Seq<char> {
        match self {
            CreateAccountCompanyStructure::FreeZoneEstablishment => "free_zone_establishment"@,
            CreateAccountCompanyStructure::FreeZoneLlc => "free_zone_llc"@,
            CreateAccountCompanyStructure::GovernmentInstrumentality => "government_instrumentality"@,
            CreateAccountCompanyStructure::GovernmentalUnit => "governmental_unit"@,
            CreateAccountCompanyStructure::IncorporatedNonProfit => "incorporated_non_profit"@,
            CreateAccountCompanyStructure::IncorporatedPartnership => "incorporated_partnership"@,
            CreateAccountCompanyStructure::LimitedLiabilityPartnership => "limited_liability_partnership"@,
            CreateAccountCompanyStructure::Llc => "llc"@,
            CreateAccountCompanyStructure::MultiMemberLlc => "multi_member_llc"@,
            CreateAccountCompanyStructure::PrivateCompany => "private_company"@,
            CreateAccountCompanyStructure::PrivateCorporation => "private_corporation"@,
            CreateAccountCompanyStructure::PrivatePartnership => "private_partnership"@,
            CreateAccountCompanyStructure::PublicCompany => "public_company"@,
            CreateAccountCompanyStructure::PublicCorporation => "public_corporation"@,
            CreateAccountCompanyStructure::PublicPartnership => "public_partnership"@,
            CreateAccountCompanyStructure::RegisteredCharity => "registered_charity"@,
            CreateAccountCompanyStructure::SingleMemberLlc => "single_member_llc"@,
            CreateAccountCompanyStructure::SoleEstablishment => "sole_establishment"@,
            CreateAccountCompanyStructure::SoleProprietorship => "sole_proprietorship"@,
            CreateAccountCompanyStructure::TaxExemptGovernmentInstrumentality => "tax_exempt_government_instrumentality"@,
            CreateAccountCompanyStructure::UnincorporatedAssociation => "unincorporated_association"@,
            CreateAccountCompanyStructure::UnincorporatedNonProfit => "unincorporated_non_profit"@,
            CreateAccountCompanyStructure::UnincorporatedPartnership => "unincorporated_partnership"@,
            CreateAccountCompanyStructure::Unknown => "unknown"@,
        }
    }

    pub fn as_str(self) -> (name: &'static str)
        ensures
            name@ == self.wire_name(),
    {
        match self {
            CreateAccountCompanyStructure::FreeZoneEstablishment => "free_zone_establishment",
            CreateAccountCompanyStructure::FreeZoneLlc => "free_zone_llc",
            CreateAccountCompanyStructure::GovernmentInstrumentality => "government_instrumentality",
            CreateAccountCompanyStructure::GovernmentalUnit => "governmental_unit",
            CreateAccountCompanyStructure::IncorporatedNonProfit => "incorporated_non_profit",
            CreateAccountCompanyStructure::IncorporatedPartnership => "incorporated_partnership",
            CreateAccountCompanyStructure::LimitedLiabilityPartnership => "limited_liability_partnership",
            CreateAccountCompanyStructure::Llc => "llc",
            CreateAccountCompanyStructure::MultiMemberLlc => "multi_member_llc",
            CreateAccountCompanyStructure::PrivateCompany => "private_company",
            CreateAccountCompanyStructure::PrivateCorporation => "private_corporation",
            CreateAccountCompanyStructure::PrivatePartnership => "private_partnership",
            CreateAccountCompanyStructure::PublicCompany => "public_company",
            CreateAccountCompanyStructure::PublicCorporation => "public_corporation",
            CreateAccountCompanyStructure::PublicPartnership => "public_partnership",
            CreateAccountCompanyStructure::RegisteredCharity => "registered_charity",
            CreateAccountCompanyStructure::SingleMemberLlc => "single_member_llc",
            CreateAccountCompanyStructure::SoleEstablishment => "sole_establishment",
            CreateAccountCompanyStructure::SoleProprietorship => "sole_proprietorship",
            CreateAccountCompanyStructure::TaxExemptGovernmentInstrumentality => "tax_exempt_government_instrumentality",
            CreateAccountCompanyStructure::UnincorporatedAssociation => "unincorporated_association",
            CreateAccountCompanyStructure::UnincorporatedNonProfit => "unincorporated_non_profit",
            CreateAccountCompanyStructure::UnincorporatedPartnership => "unincorporated_partnership",
            CreateAccountCompanyStructure::Unknown => "unknown",
        }
    }

    /// Whether `name` is the wire name of a value that the library knows.
    pub open spec fn is_known(name: Seq<char>) -> bool {
        exists|v: CreateAccountCompanyStructure| v != CreateAccountCompanyStructure::Unknown && #[trigger] v.wire_name() == name
    }
}

impl std::str::FromStr for CreateAccountCompanyStructure {
    type Err = std::convert::Infallible;

    /// Reads a wire name. A name that the library does not know gives
    /// `Unknown`; the call never fails.
    fn from_str(s: &str) -> (parsed: Result<Self, Self::Err>)
        ensures
            parsed is Ok,
            parsed->Ok_0 != CreateAccountCompanyStructure::Unknown ==> parsed->Ok_0.wire_name() == s@,
            parsed->Ok_0 == CreateAccountCompanyStructure::Unknown ==> !CreateAccountCompanyStructure::is_known(s@),
    {
        if str_eq(s, "free_zone_establishment") {
            Ok(CreateAccountCompanyStructure::FreeZoneEstablishment)
        } else if str_eq(s, "free_zone_llc") {
            Ok(CreateAccountCompanyStructure::FreeZoneLlc)
        } else if str_eq(s, "government_instrumentality") {
            Ok(CreateAccountCompanyStructure::GovernmentInstrumentality)
        } else if str_eq(s, "governmental_unit") {
            Ok(CreateAccountCompanyStructure::GovernmentalUnit)
        } else if str_eq(s, "incorporated_non_profit") {
            Ok(CreateAccountCompanyStructure::IncorporatedNonProfit)
        } else if str_eq(s, "incorporated_partnership") {
            Ok(CreateAccountCompanyStructure::IncorporatedPartnership)
        } else if str_eq(s, "limited_liability_partnership") {
            Ok(CreateAccountCompanyStructure::LimitedLiabilityPartnership)
        } else if str_eq(s, "llc") {
            Ok(CreateAccountCompanyStructure::Llc)
        } else if str_eq(s, "multi_member_llc") {
            Ok(CreateAccountCompanyStructure::MultiMemberLlc)
        } else if str_eq(s, "private_company") {
            Ok(CreateAccountCompanyStructure::PrivateCompany)
        } else if str_eq(s, "private_corporation") {
            Ok(CreateAccountCompanyStructure::PrivateCorporation)
        } else if str_eq(s, "private_partnership") {
            Ok(CreateAccountCompanyStructure::PrivatePartnership)
        } else if str_eq(s, "public_company") {
            Ok(CreateAccountCompanyStructure::PublicCompany)
        } else if str_eq(s, "public_corporation") {
            Ok(CreateAccountCompanyStructure::PublicCorporation)
        } else if str_eq(s, "public_partnership") {
            Ok(CreateAccountCompanyStructure::PublicPartnership)
        } else if str_eq(s, "registered_charity") {
            Ok(CreateAccountCompanyStructure::RegisteredCharity)
        } else if str_eq(s, "single_member_llc") {
            Ok(CreateAccountCompanyStructure::SingleMemberLlc)
        } else if str_eq(s, "sole_establishment") {
            Ok(CreateAccountCompanyStructure::SoleEstablishment)
        } else if str_eq(s, "sole_proprietorship") {
            Ok(CreateAccountCompanyStructure::SoleProprietorship)
        } else if str_eq(s, "tax_exempt_government_instrumentality") {
            Ok(CreateAccountCompanyStructure::TaxExemptGovernmentInstrumentality)
        } else if str_eq(s, "unincorporated_association") {
            Ok(CreateAccountCompanyStructure::UnincorporatedAssociation)
        } else if str_eq(s, "unincorporated_non_profit") {
            Ok(CreateAccountCompanyStructure::UnincorporatedNonProfit)
        } else if str_eq(s, "unincorporated_partnership") {
            Ok(CreateAccountCompanyStructure::UnincorporatedPartnership)
        } else {
            assert forall|v: CreateAccountCompanyStructure| v != CreateAccountCompanyStructure::Unknown implies #[trigger] v.wire_name() != s@ by {}
            Ok(CreateAccountCompanyStructure::Unknown)
        }
    }
}

/// Two values of `CreateAccountCompanyStructure` with one wire name are the same value, so
/// reading back what `as_str` gives returns the value it was called on.
pub proof fn lemma_create_account_company_structure_wire_names_differ(a: CreateAccountCompanyStructure, b: CreateAccountCompanyStructure)
    requires
        a.wire_name() == b.wire_name(),
    ensures
        a == b,
{
    reveal_strlit("free_zone_establishment");
    reveal_strlit("free_zone_llc");
    reveal_strlit("government_instrumentality");
    reveal_strlit("governmental_unit");
    reveal_strlit("incorporated_non_profit");
    reveal_strlit("incorporated_partnership");
    reveal_strlit("limited_liability_partnership");
    reveal_strlit("llc");
    reveal_strlit("multi_member_llc");
    reveal_strlit("private_company");
    reveal_strlit("private_corporation");
    reveal_strlit("private_partnership");
    reveal_strlit("public_company");
    reveal_strlit("public_corporation");
    reveal_strlit("public_partnership");
    reveal_strlit("registered_charity");
    reveal_strlit("single_member_llc");
    reveal_strlit("sole_establishment");
    reveal_strlit("sole_proprietorship");
    reveal_strlit("tax_exempt_government_instrumentality");
    reveal_strlit("unincorporated_association");
    reveal_strlit("unincorporated_non_profit");
    reveal_strlit("unincorporated_partnership");
    reveal_strlit("unknown");
    assert("free_zone_establishment"@.len() == 23);
    assert("free_zone_llc"@.len() == 13);
    assert("government_instrumentality"@.len() == 26);
    assert("governmental_unit"@.len() == 17);
    assert("incorporated_non_profit"@.len() == 23);
    assert("incorporated_partnership"@.len() == 24);
    assert("limited_liability_partnership"@.len() == 29);
    assert("llc"@.len() == 3);
    assert("multi_member_llc"@.len() == 16);
    assert("private_company"@.len() == 15);
    assert("private_corporation"@.len() == 19);
    assert("private_partnership"@.len() == 19);
    assert("public_company"@.len() == 14);
    assert("public_corporation"@.len() == 18);
    assert("public_partnership"@.len() == 18);
    assert("registered_charity"@.len() == 18);
    assert("single_member_llc"@.len() == 17);
    assert("sole_establishment"@.len() == 18);
    assert("sole_proprietorship"@.len() == 19);
    assert("tax_exempt_government_instrumentality"@.len() == 37);
    assert("unincorporated_association"@.len() == 26);
    assert("unincorporated_non_profit"@.len() == 25);
    assert("unincorporated_partnership"@.len() == 26);
    assert("unknown"@.len() == 7);
    assert("governmental_unit"@[0] != "single_member_llc"@[0]);
    assert("public_corporation"@[7] != "public_partnership"@[7]);
    assert("public_corporation"@[0] != "registered_charity"@[0]);
    assert("public_corporation"@[0] != "sole_establishment"@[0]);
    assert("public_partnership"@[0] != "registered_charity"@[0]);
    assert("public_partnership"@[0] != "sole_establishment"@[0]);
    assert("registered_charity"@[0] != "sole_establishment"@[0]);
    assert("private_corporation"@[8] != "private_partnership"@[8]);
    assert("private_corporation"@[0] != "sole_proprietorship"@[0]);
    assert("private_partnership"@[0] != "sole_proprietorship"@[0]);
    assert("free_zone_establishment"@[0] != "incorporated_non_profit"@[0]);
    assert("government_instrumentality"@[0] != "unincorporated_association"@[0]);
    assert("government_instrumentality"@[0] != "unincorporated_partnership"@[0]);
    assert("unincorporated_association"@[15] != "unincorporated_partnership"@[15]);
}

/// A hash of configuration describing the account controller's attributes.
#[derive(Copy, Clone, Debug)]
pub struct CreateAccountController {
    /// A hash of configuration for who pays Stripe fees for product usage on this account.
    pub fees: Option<CreateAccountControllerFees>,
    /// A hash of configuration for products that have negative balance liability, and whether Stripe or a Connect application is responsible for them.
    pub losses: Option<CreateAccountControllerLosses>,
    /// A value indicating responsibility for collecting updated information when requirements on the account are due or change.
    /// Defaults to `stripe`.
    pub requirement_collection: Option<CreateAccountControllerRequirementCollection>,
    /// A hash of configuration for Stripe-hosted dashboards.
    pub stripe_dashboard: Option<CreateAccountControllerStripeDashboard>,
}

impl CreateAccountController {
    pub fn new() -> (out: Self)
        ensures
            out == (CreateAccountController { fees: None, losses: None, requirement_collection: None, stripe_dashboard: None }),
    {
        Self { fees: None, losses: None, requirement_collection: None, stripe_dashboard: None }
    }
}

impl Default for CreateAccountController {
    fn default() -> (out: Self)
        ensures
            out == (CreateAccountController { fees: None, losses: None, requirement_collection: None, stripe_dashboard: None }),
    {
        Self::new()
    }
}

/// A hash of configuration for who pays Stripe fees for product usage on this account.
#[derive(Copy, Clone, Debug)]
pub struct CreateAccountControllerFees {
    /// A value indicating the responsible payer of Stripe fees on this account.
    /// Defaults to `account`.
    /// Learn more about [fee behavior on connected accounts](https://docs.stripe.com/connect/direct-charges-fee-payer-behavior).
    pub payer: Option<CreateAccountControllerFeesPayer>,
}

impl CreateAccountControllerFees {
    pub fn new() -> (out: Self)
        ensures
            out == (CreateAccountControllerFees { payer: None }),
    {
        Self { payer: None }
    }
}

impl Default for CreateAccountControllerFees {
    fn default() -> (out: Self)
        ensures
            out == (CreateAccountControllerFees { payer: None }),
    {
        Self::new()
    }
}

/// A value indicating the responsible payer of Stripe fees on this account.
/// Defaults to `account`.
/// Learn more about [fee behavior on connected accounts](https://docs.stripe.com/connect/direct-charges-fee-payer-behavior).
#[derive(Copy, Clone, Debug, PartialEq, Eq, Structural)]
pub enum CreateAccountControllerFeesPayer {
    Account,
    Application,
}

impl CreateAccountControllerFeesPayer {
    /// The name of the value on the wire.
    pub open spec fn wire_name(self) -> Seq<char> {
        match self {
            CreateAccountControllerFeesPayer::Account => "account"@,
            CreateAccountControllerFeesPayer::Application => "application"@,
        }
    }

    pub fn as_str(self) -> (name: &'static str)
        ensures
            name@ == self.wire_name(),
    {
        match self {
            CreateAccountControllerFeesPayer::Account => "account",
            CreateAccountControllerFeesPayer::Application => "application",
        }
    }
}

impl std::str::FromStr for CreateAccountControllerFeesPayer {
    type Err = StripeParseError;

    /// Reads a wire name; fails on a string that is the name of no value.
    fn from_str(s: &str) -> (parsed: Result<Self, Self::Err>)
        ensures
            match parsed {
                Ok(v) => v.wire_name() == s@,
                Err(_) => forall|v: CreateAccountControllerFeesPayer| #[trigger] v.wire_name() != s@,
            },
    {
        if str_eq(s, "account") {
            Ok(CreateAccountControllerFeesPayer::Account)
        } else if str_eq(s, "application") {
            Ok(CreateAccountControllerFeesPayer::Application)
        } else {
            Err(StripeParseError)
        }
    }
}

/// Two values of `CreateAccountControllerFeesPayer` with one wire name are the same value, so
/// reading back what `as_str` gives returns the value it was called on.
pub proof fn lemma_create_account_controller_fees_payer_wire_names_differ(a: CreateAccountControllerFeesPayer, b: CreateAccountControllerFeesPayer)
    requires
        a.wire_name() == b.wire_name(),
    ensures
        a == b,
{
    reveal_strlit("account");
    reveal_strlit("application");
    assert("account"@.len() == 7);
    assert("application"@.len() == 11);
}

/// A hash of configuration for products that have negative balance liability, and whether Stripe or a Connect application is responsible for them.
#[derive(Copy, Clone, Debug)]
pub struct CreateAccountControllerLosses {
    /// A value indicating who is liable when this account can't pay back negative balances resulting from payments.
    /// Defaults to `stripe`.
    pub payments: Option<CreateAccountControllerLossesPayments>,
}

impl CreateAccountControllerLosses {
    pub fn new() -> (out: Self)
        ensures
            out == (CreateAccountControllerLosses { payments: None }),
    {
        Self { payments: None }
    }
}

impl Default for CreateAccountControllerLosses {
    fn default() -> (out: Self)
        ensures
            out == (CreateAccountControllerLosses { payments: None }),
    {
        Self::new()
    }
}

/// A value indicating who is liable when this account can't pay back negative balances resulting from payments.
/// Defaults to `stripe`.
#[derive(Copy, Clone, Debug, PartialEq, Eq, Structural)]
pub enum CreateAccountControllerLossesPayments {
    Application,
    Stripe,
}

impl CreateAccountControllerLossesPayments {
    /// The name of the value on the wire.
    pub open spec fn wire_name(self) -> Seq<char> {
        match self {
            CreateAccountControllerLossesPayments::Application => "application"@,
            CreateAccountControllerLossesPayments::Stripe => "stripe"@,
        }
    }

    pub fn as_str(self) -> (name: &'static str)
        ensures
            name@ == self.wire_name(),
    {
        match self {
            CreateAccountControllerLossesPayments::Application => "application",
            CreateAccountControllerLossesPayments::Stripe => "stripe",
        }
    }
}

impl std::str::FromStr for CreateAccountControllerLossesPayments {
    type Err = StripeParseError;

    /// Reads a wire name; fails on a string that is the name of no value.
    fn from_str(s: &str) -> (parsed: Result<Self, Self::Err>)
        ensures
            match parsed {
                Ok(v) => v.wire_name() == s@,
                Err(_) => forall|v: CreateAccountControllerLossesPayments| #[trigger] v.wire_name() != s@,
            },
    {
        if str_eq(s, "application") {
            Ok(CreateAccountControllerLossesPayments::Application)
        } else if str_eq(s, "stripe") {
            Ok(CreateAccountControllerLossesPayments::Stripe)
        } else {
            Err(StripeParseError)
        }
    }
}

/// Two values of `CreateAccountControllerLossesPayments` with one wire name are the same value, so
/// reading back what `as_str` gives returns the value it was called on.
pub proof fn lemma_create_account_controller_losses_payments_wire_names_differ(a: CreateAccountControllerLossesPayments, b: CreateAccountControllerLossesPayments)
    requires
        a.wire_name() == b.wire_name(),
    ensures
        a == b,
{
    reveal_strlit("application");
    reveal_strlit("stripe");
    assert("application"@.len() == 11);
    assert("stripe"@.len() == 6);
}

/// A value indicating responsibility for collecting updated information when requirements on the account are due or change.
/// Defaults to `stripe`.
#[derive(Copy, Clone, Debug, PartialEq, Eq, Structural)]
pub enum CreateAccountControllerRequirementCollection {
    Application,
    Stripe,
}

impl CreateAccountControllerRequirementCollection {
    /// The name of the value on the wire.
    pub open spec fn wire_name(self) -> Seq<char> {
        match self {
            CreateAccountControllerRequirementCollection::Application => "application"@,
            CreateAccountControllerRequirementCollection::Stripe => "stripe"@,
        }
    }

    pub fn as_str(self) -> (name: &'static str)
        ensures
            name@ == self.wire_name(),
    {
        match self {
            CreateAccountControllerRequirementCollection::Application => "application",
            CreateAccountControllerRequirementCollection::Stripe => "stripe",
        }
    }
}

impl std::str::FromStr for CreateAccountControllerRequirementCollection {
    type Err = StripeParseError;

    /// Reads a wire name; fails on a string that is the name of no value.
    fn from_str(s: &str) -> (parsed: Result<Self, Self::Err>)
        ensures
            match parsed {
                Ok(v) => v.wire_name() == s@,
                Err(_) => forall|v: CreateAccountControllerRequirementCollection| #[trigger] v.wire_name() != s@,
            },
    {
        if str_eq(s, "application") {
            Ok(CreateAccountControllerRequirementCollection::Application)
        } else if str_eq(s, "stripe") {
            Ok(CreateAccountControllerRequirementCollection::Stripe)
        } else {
            Err(StripeParseError)
        }
    }
}

/// Two values of `CreateAccountControllerRequirementCollection` with one wire name are the same value, so
/// reading back what `as_str` gives returns the value it was called on.
pub proof fn lemma_create_account_controller_requirement_collection_wire_names_differ(a: CreateAccountControllerRequirementCollection, b: CreateAccountControllerRequirementCollection)
    requires
        a.wire_name() == b.wire_name(),
    ensures
        a == b,
{
    reveal_strlit("application");
    reveal_strlit("stripe");
    assert("application"@.len() == 11);
    assert("stripe"@.len() == 6);
}

/// A hash of configuration for Stripe-hosted dashboards.
#[derive(Copy, Clone, Debug)]
pub struct CreateAccountControllerStripeDashboard {
    /// Whether this account should have access to the full Stripe Dashboard (`full`), to the Express Dashboard (`express`), or to no Stripe-hosted dashboard (`none`).
    /// Defaults to `full`.
    pub type_: Option<CreateAccountControllerStripeDashboardType>,
}

impl CreateAccountControllerStripeDashboard {
    pub fn new() -> (out: Self)
        ensures
            out == (CreateAccountControllerStripeDashboard { type_: None }),
    {
        Self { type_: None }
    }
}

impl Default for CreateAccountControllerStripeDashboard {
    fn default() -> (out: Self)
        ensures
            out == (CreateAccountControllerStripeDashboard { type_: None }),
    {
        Self::new()
    }
}

/// Whether this account should have access to the full Stripe Dashboard (`full`), to the Express Dashboard (`express`), or to no Stripe-hosted dashboard (`none`).
/// Defaults to `full`.
#[derive(Copy, Clone, Debug, PartialEq, Eq, Structural)]
pub enum CreateAccountControllerStripeDashboardType {
    Express,
    Full,
    None_,
}

impl CreateAccountControllerStripeDashboardType {
    /// The name of the value on the wire.
    pub open spec fn wire_name(self) -> Seq<char> {
        match self {
            CreateAccountControllerStripeDashboardType::Express => "express"@,
            CreateAccountControllerStripeDashboardType::Full => "full"@,
            CreateAccountControllerStripeDashboardType::None_ => "none"@,
        }
    }

    pub fn as_str(self) -> (name: &'static str)
        ensures
            name@ == self.wire_name(),
    {
        match self {
            CreateAccountControllerStripeDashboardType::Express => "express",
            CreateAccountControllerStripeDashboardType::Full => "full",
            CreateAccountControllerStripeDashboardType::None_ => "none",
        }
    }
}

impl std::str::FromStr for CreateAccountControllerStripeDashboardType {
    type Err = StripeParseError;

    /// Reads a wire name; fails on a string that is the name of no value.
    fn from_str(s: &str) -> (parsed: Result<Self, Self::Err>)
        ensures
            match parsed {
                Ok(v) => v.wire_name() == s@,
                Err(_) => forall|v: CreateAccountControllerStripeDashboardType| #[trigger] v.wire_name() != s@,
            },
    {
        if str_eq(s, "express") {
            Ok(CreateAccountControllerStripeDashboardType::Express)
        } else if str_eq(s, "full") {
            Ok(CreateAccountControllerStripeDashboardType::Full)
        } else if str_eq(s, "none") {
            Ok(CreateAccountControllerStripeDashboardType::None_)
        } else {
            Err(StripeParseError)
        }
    }
}

/// Two values of `CreateAccountControllerStripeDashboardType` with one wire name are the same value, so
/// reading back what `as_str` gives returns the value it was called on.
pub proof fn lemma_create_account_controller_stripe_dashboard_type_wire_names_differ(a: CreateAccountControllerStripeDashboardType, b: CreateAccountControllerStripeDashboardType)
    requires
        a.wire_name() == b.wire_name(),
    ensures
        a == b,
{
    reveal_strlit("express");
    reveal_strlit("full");
    reveal_strlit("none");
    assert("express"@.len() == 7);
    assert("full"@.len() == 4);
    assert("none"@.len() == 4);
    assert("full"@[0] != "none"@[0]);
}

/// Information about the person represented by the account.
/// This field is null unless `business_type` is set to `individual`.
/// Once you create an [Account Link](/api/account_links) or [Account Session](/api/account_sessions), this property can only be updated for accounts where [controller.requirement_collection](/api/accounts/object#account_object-controller-requirement_collection) is `application`, which includes Custom accounts.
#[derive(Copy, Clone, Debug)]
pub struct CreateAccountIndividual<'a> {
    /// The individual's primary address.
    pub address: Option<AddressSpecs<'a>>,
    /// The Kana variation of the the individual's primary address (Japan only).
    pub address_kana: Option<CreateAccountIndividualAddressKana<'a>>,
    /// The Kanji variation of the the individual's primary address (Japan only).
    pub address_kanji: Option<CreateAccountIndividualAddressKanji<'a>>,
    /// The individual's date of birth.
    pub dob: Option<DateOfBirthSpecs>,
    /// The individual's email address.
    pub email: Option<&'a str>,
    /// The individual's first name.
    pub first_name: Option<&'a str>,
    /// The Kana variation of the the individual's first name (Japan only).
    pub first_name_kana: Option<&'a str>,
    /// The Kanji variation of the individual's first name (Japan only).
    pub first_name_kanji: Option<&'a str>,
    /// A list of alternate names or aliases that the individual is known by.
    pub full_name_aliases: Option<&'a [&'a str]>,
    /// The individual's gender (International regulations require either "male" or "female").
    pub gender: Option<&'a str>,
    /// The government-issued ID number of the individual, as appropriate for the representative's country.
    /// (Examples are a Social Security Number in the U.S., or a Social Insurance Number in Canada).
    /// Instead of the number itself, you can also provide a [PII token created with Stripe.js](https://docs.stripe.com/js/tokens/create_token?type=pii).
    pub id_number: Option<&'a str>,
    /// The government-issued secondary ID number of the individual, as appropriate for the representative's country, will be used for enhanced verification checks.
    /// In Thailand, this would be the laser code found on the back of an ID card.
    /// Instead of the number itself, you can also provide a [PII token created with Stripe.js](https://docs.stripe.com/js/tokens/create_token?type=pii).
    pub id_number_secondary: Option<&'a str>,
    /// The individual's last name.
    pub last_name: Option<&'a str>,
    /// The Kana variation of the individual's last name (Japan only).
    pub last_name_kana: Option<&'a str>,
    /// The Kanji variation of the individual's last name (Japan only).
    pub last_name_kanji: Option<&'a str>,
    /// The individual's maiden name.
    pub maiden_name: Option<&'a str>,
    /// Set of [key-value pairs](https://stripe.com/docs/api/metadata) that you can attach to an object.
    /// This can be useful for storing additional information about the object in a structured format.
    /// Individual keys can be unset by posting an empty value to them.
    /// All keys can be unset by posting an empty value to `metadata`.
    pub metadata: Option<&'a HashMap<String, String>>,
    /// The individual's phone number.
    pub phone: Option<&'a str>,
    /// Indicates if the person or any of their representatives, family members, or other closely related persons, declares that they hold or have held an important public job or function, in any jurisdiction.
    pub political_exposure: Option<CreateAccountIndividualPoliticalExposure>,
    /// The individual's registered address.
    pub registered_address: Option<AddressSpecs<'a>>,
    /// Describes the person's relationship to the account.
    pub relationship: Option<IndividualRelationshipSpecs<'a>>,
    /// The last four digits of the individual's Social Security Number (U.S. only).
    pub ssn_last_4: Option<&'a str>,
    /// The individual's verification document information.
    pub verification: Option<PersonVerificationSpecs<'a>>,
}

impl<'a> CreateAccountIndividual<'a> {
    pub fn new() -> (out: Self)
        ensures
            out == (CreateAccountIndividual { address: None, address_kana: None, address_kanji: None, dob: None, email: None, first_name: None, first_name_kana: None, first_name_kanji: None, full_name_aliases: None, gender: None, id_number: None, id_number_secondary: None, last_name: None, last_name_kana: None, last_name_kanji: None, maiden_name: None, metadata: None, phone: None, political_exposure: None, registered_address: None, relationship: None, ssn_last_4: None, verification: None }),
    {
        Self { address: None, address_kana: None, address_kanji: None, dob: None, email: None, first_name: None, first_name_kana: None, first_name_kanji: None, full_name_aliases: None, gender: None, id_number: None, id_number_secondary: None, last_name: None, last_name_kana: None, last_name_kanji: None, maiden_name: None, metadata: None, phone: None, political_exposure: None, registered_address: None, relationship: None, ssn_last_4: None, verification: None, }
    }
}

impl<'a> Default for CreateAccountIndividual<'a> {
    fn default() -> (out: Self)
        ensures
            out == (CreateAccountIndividual { address: None, address_kana: None, address_kanji: None, dob: None, email: None, first_name: None, first_name_kana: None, first_name_kanji: None, full_name_aliases: None, gender: None, id_number: None, id_number_secondary: None, last_name: None, last_name_kana: None, last_name_kanji: None, maiden_name: None, metadata: None, phone: None, political_exposure: None, registered_address: None, relationship: None, ssn_last_4: None, verification: None }),
    {
        Self::new()
    }
}

/// The Kana variation of the the individual's primary address (Japan only).
#[derive(Copy, Clone, Debug)]
pub struct CreateAccountIndividualAddressKana<'a> {
    /// City or ward.
    pub city: Option<&'a str>,
    /// Two-letter country code ([ISO 3166-1 alpha-2](https://en.wikipedia.org/wiki/ISO_3166-1_alpha-2)).
    pub country: Option<&'a str>,
    /// Block or building number.
    pub line1: Option<&'a str>,
    /// Building details.
    pub line2: Option<&'a str>,
    /// Postal code.
    pub postal_code: Option<&'a str>,
    /// Prefecture.
    pub state: Option<&'a str>,
    /// Town or cho-me.
    pub town: Option<&'a str>,
}

impl<'a> CreateAccountIndividualAddressKana<'a> {
    pub fn new() -> (out: Self)
        ensures
            out == (CreateAccountIndividualAddressKana { city: None, country: None, line1: None, line2: None, postal_code: None, state: None, town: None }),
    {
        Self { city: None, country: None, line1: None, line2: None, postal_code: None, state: None, town: None, }
    }
}

impl<'a> Default for CreateAccountIndividualAddressKana<'a> {
    fn default() -> (out: Self)
        ensures
            out == (CreateAccountIndividualAddressKana { city: None, country: None, line1: None, line2: None, postal_code: None, state: None, town: None }),
    {
        Self::new()
    }
}

/// The Kanji variation of the the individual's primary address (Japan only).
#[derive(Copy, Clone, Debug)]
pub struct CreateAccountIndividualAddressKanji<'a> {
    /// City or ward.
    pub city: Option<&'a str>,
    /// Two-letter country code ([ISO 3166-1 alpha-2](https://en.wikipedia.org/wiki/ISO_3166-1_alpha-2)).
    pub country: Option<&'a str>,
    /// Block or building number.
    pub line1: Option<&'a str>,
    /// Building details.
    pub line2: Option<&'a str>,
    /// Postal code.
    pub postal_code: Option<&'a str>,
    /// Prefecture.
    pub state: Option<&'a str>,
    /// Town or cho-me.
    pub town: Option<&'a str>,
}

impl<'a> CreateAccountIndividualAddressKanji<'a> {
    pub fn new() -> (out: Self)
        ensures
            out == (CreateAccountIndividualAddressKanji { city: None, country: None, line1: None, line2: None, postal_code: None, state: None, town: None }),
    {
        Self { city: None, country: None, line1: None, line2: None, postal_code: None, state: None, town: None, }
    }
}

impl<'a> Default for CreateAccountIndividualAddressKanji<'a> {
    fn default() -> (out: Self)
        ensures
            out == (CreateAccountIndividualAddressKanji { city: None, country: None, line1: None, line2: None, postal_code: None, state: None, town: None }),
    {
        Self::new()
    }
}

/// Indicates if the person or any of their representatives, family members, or other closely related persons, declares that they hold or have held an important public job or function, in any jurisdiction.
#[derive(Copy, Clone, Debug, PartialEq, Eq, Structural)]
pub enum CreateAccountIndividualPoliticalExposure {
    Existing,
    None_,
}

impl CreateAccountIndividualPoliticalExposure {
    /// The name of the value on the wire.
    pub open spec fn wire_name(self) -> Seq<char> {
        match self {
            CreateAccountIndividualPoliticalExposure::Existing => "existing"@,
            CreateAccountIndividualPoliticalExposure::None_ => "none"@,
        }
    }

    pub fn as_str(self) -> (name: &'static str)
        ensures
            name@ == self.wire_name(),
    {
        match self {
            CreateAccountIndividualPoliticalExposure::Existing => "existing",
            CreateAccountIndividualPoliticalExposure::None_ => "none",
        }
    }
}

impl std::str::FromStr for CreateAccountIndividualPoliticalExposure {
    type Err = StripeParseError;

    /// Reads a wire name; fails on a string that is the name of no value.
    fn from_str(s: &str) -> (parsed: Result<Self, Self::Err>)
        ensures
            match parsed {
                Ok(v) => v.wire_name() == s@,
                Err(_) => forall|v: CreateAccountIndividualPoliticalExposure| #[trigger] v.wire_name() != s@,
            },
    {
        if str_eq(s, "existing") {
            Ok(CreateAccountIndividualPoliticalExposure::Existing)
        } else if str_eq(s, "none") {
            Ok(CreateAccountIndividualPoliticalExposure::None_)
        } else {
            Err(StripeParseError)
        }
    }
}

/// Two values of `CreateAccountIndividualPoliticalExposure` with one wire name are the same value, so
/// reading back what `as_str` gives returns the value it was called on.
pub proof fn lemma_create_account_individual_political_exposure_wire_names_differ(a: CreateAccountIndividualPoliticalExposure, b: CreateAccountIndividualPoliticalExposure)
    requires
        a.wire_name() == b.wire_name(),
    ensures
        a == b,
{
    reveal_strlit("existing");
    reveal_strlit("none");
    assert("existing"@.len() == 8);
    assert("none"@.len() == 4);
}

/// Options for customizing how the account functions within Stripe.
#[derive(Copy, Clone, Debug)]
pub struct CreateAccountSettings<'a> {
    /// Settings specific to Bacs Direct Debit.
    pub bacs_debit_payments: Option<BacsDebitPaymentsSpecs<'a>>,
    /// Settings used to apply the account's branding to email receipts, invoices, Checkout, and other products.
    pub branding: Option<BrandingSettingsSpecs<'a>>,
    /// Settings specific to the account's use of the Card Issuing product.
    pub card_issuing: Option<CardIssuingSettingsSpecs<'a>>,
    /// Settings specific to card charging on the account.
    pub card_payments: Option<CardPaymentsSettingsSpecs<'a>>,
    /// Settings that apply across payment methods for charging on the account.
    pub payments: Option<PaymentsSettingsSpecs<'a>>,
    /// Settings specific to the account's payouts.
    pub payouts: Option<CreateAccountSettingsPayouts<'a>>,
    /// Settings specific to the account's Treasury FinancialAccounts.
    pub treasury: Option<TreasurySettingsSpecs<'a>>,
}

impl<'a> CreateAccountSettings<'a> {
    pub fn new() -> (out: Self)
        ensures
            out == (CreateAccountSettings { bacs_debit_payments: None, branding: None, card_issuing: None, card_payments: None, payments: None, payouts: None, treasury: None }),
    {
        Self { bacs_debit_payments: None, branding: None, card_issuing: None, card_payments: None, payments: None, payouts: None, treasury: None, }
    }
}

impl<'a> Default for CreateAccountSettings<'a> {
    fn default() -> (out: Self)
        ensures
            out == (CreateAccountSettings { bacs_debit_payments: None, branding: None, card_issuing: None, card_payments: None, payments: None, payouts: None, treasury: None }),
    {
        Self::new()
    }
}

/// Settings specific to the account's payouts.
#[derive(Copy, Clone, Debug)]
pub struct CreateAccountSettingsPayouts<'a> {
    /// A Boolean indicating whether Stripe should try to reclaim negative balances from an attached bank account.
    /// For details, see [Understanding Connect Account Balances](https://docs.stripe.com/connect/account-balances).
    pub debit_negative_balances: Option<bool>,
    /// Details on when funds from charges are available, and when they are paid out to an external account.
    /// For details, see our [Setting Bank and Debit Card Payouts](https://docs.stripe.com/connect/bank-transfers#payout-information) documentation.
    pub schedule: Option<CreateAccountSettingsPayoutsSchedule>,
    /// The text that appears on the bank account statement for payouts.
    /// If not set, this defaults to the platform's bank descriptor as set in the Dashboard.
    pub statement_descriptor: Option<&'a str>,
}

impl<'a> CreateAccountSettingsPayouts<'a> {
    pub fn new() -> (out: Self)
        ensures
            out == (CreateAccountSettingsPayouts { debit_negative_balances: None, schedule: None, statement_descriptor: None }),
    {
        Self { debit_negative_balances: None, schedule: None, statement_descriptor: None }
    }
}

impl<'a> Default for CreateAccountSettingsPayouts<'a> {
    fn default() -> (out: Self)
        ensures
            out == (CreateAccountSettingsPayouts { debit_negative_balances: None, schedule: None, statement_descriptor: None }),
    {
        Self::new()
    }
}

/// Details on when funds from charges are available, and when they are paid out to an external account.
/// For details, see our [Setting Bank and Debit Card Payouts](https://docs.stripe.com/connect/bank-transfers#payout-information) documentation.
#[derive(Copy, Clone, Debug)]
pub struct CreateAccountSettingsPayoutsSchedule {
    /// The number of days charge funds are held before being paid out.
    /// May also be set to `minimum`, representing the lowest available value for the account country.
    /// Default is `minimum`.
    /// The `delay_days` parameter remains at the last configured value if `interval` is `manual`.
    /// [Learn more about controlling payout delay days](https://docs.stripe.com/connect/manage-payout-schedule).
    pub delay_days: Option<CreateAccountSettingsPayoutsScheduleDelayDays>,
    /// How frequently available funds are paid out.
    /// One of: `daily`, `manual`, `weekly`, or `monthly`.
    /// Default is `daily`.
    pub interval: Option<CreateAccountSettingsPayoutsScheduleInterval>,
    /// The day of the month when available funds are paid out, specified as a number between 1--31.
    /// Payouts nominally scheduled between the 29th and 31st of the month are instead sent on the last day of a shorter month.
    /// Required and applicable only if `interval` is `monthly`.
    pub monthly_anchor: Option<u8>,
    /// The day of the week when available funds are paid out, specified as `monday`, `tuesday`, etc.
    /// (required and applicable only if `interval` is `weekly`.).
    pub weekly_anchor: Option<CreateAccountSettingsPayoutsScheduleWeeklyAnchor>,
}

impl CreateAccountSettingsPayoutsSchedule {
    pub fn new() -> (out: Self)
        ensures
            out == (CreateAccountSettingsPayoutsSchedule { delay_days: None, interval: None, monthly_anchor: None, weekly_anchor: None }),
    {
        Self { delay_days: None, interval: None, monthly_anchor: None, weekly_anchor: None }
    }
}

impl Default for CreateAccountSettingsPayoutsSchedule {
    fn default() -> (out: Self)
        ensures
            out == (CreateAccountSettingsPayoutsSchedule { delay_days: None, interval: None, monthly_anchor: None, weekly_anchor: None }),
    {
        Self::new()
    }
}

/// The number of days charge funds are held before being paid out.
/// May also be set to `minimum`, representing the lowest available value for the account country.
/// Default is `minimum`.
/// The `delay_days` parameter remains at the last configured value if `interval` is `manual`.
/// [Learn more about controlling payout delay days](https://docs.stripe.com/connect/manage-payout-schedule).
#[derive(Copy, Clone, Debug)]
pub enum CreateAccountSettingsPayoutsScheduleDelayDays {
    Minimum,
    U32(u32),
}

/// How frequently available funds are paid out.
/// One of: `daily`, `manual`, `weekly`, or `monthly`.
/// Default is `daily`.
#[derive(Copy, Clone, Debug, PartialEq, Eq, Structural)]
pub enum CreateAccountSettingsPayoutsScheduleInterval {
    Daily,
    Manual,
    Monthly,
    Weekly,
}

impl CreateAccountSettingsPayoutsScheduleInterval {
    /// The name of the value on the wire.
    pub open spec fn wire_name(self) -> Seq<char> {
        match self {
            CreateAccountSettingsPayoutsScheduleInterval::Daily => "daily"@,
            CreateAccountSettingsPayoutsScheduleInterval::Manual => "manual"@,
            CreateAccountSettingsPayoutsScheduleInterval::Monthly => "monthly"@,
            CreateAccountSettingsPayoutsScheduleInterval::Weekly => "weekly"@,
        }
    }

    pub fn as_str(self) -> (name: &'static str)
        ensures
            name@ == self.wire_name(),
    {
        match self {
            CreateAccountSettingsPayoutsScheduleInterval::Daily => "daily",
            CreateAccountSettingsPayoutsScheduleInterval::Manual => "manual",
            CreateAccountSettingsPayoutsScheduleInterval::Monthly => "monthly",
            CreateAccountSettingsPayoutsScheduleInterval::Weekly => "weekly",
        }
    }
}

impl std::str::FromStr for CreateAccountSettingsPayoutsScheduleInterval {
    type Err = StripeParseError;

    /// Reads a wire name; fails on a string that is the name of no value.
    fn from_str(s: &str) -> (parsed: Result<Self, Self::Err>)
        ensures
            match parsed {
                Ok(v) => v.wire_name() == s@,
                Err(_) => forall|v: CreateAccountSettingsPayoutsScheduleInterval| #[trigger] v.wire_name() != s@,
            },
    {
        if str_eq(s, "daily") {
            Ok(CreateAccountSettingsPayoutsScheduleInterval::Daily)
        } else if str_eq(s, "manual") {
            Ok(CreateAccountSettingsPayoutsScheduleInterval::Manual)
        } else if str_eq(s, "monthly") {
            Ok(CreateAccountSettingsPayoutsScheduleInterval::Monthly)
        } else if str_eq(s, "weekly") {
            Ok(CreateAccountSettingsPayoutsScheduleInterval::Weekly)
        } else {
            Err(StripeParseError)
        }
    }
}

/// Two values of `CreateAccountSettingsPayoutsScheduleInterval` with one wire name are the same value, so
/// reading back what `as_str` gives returns the value it was called on.
pub proof fn lemma_create_account_settings_payouts_schedule_interval_wire_names_differ(a: CreateAccountSettingsPayoutsScheduleInterval, b: CreateAccountSettingsPayoutsScheduleInterval)
    requires
        a.wire_name() == b.wire_name(),
    ensures
        a == b,
{
    reveal_strlit("daily");
    reveal_strlit("manual");
    reveal_strlit("monthly");
    reveal_strlit("weekly");
    assert("daily"@.len() == 5);
    assert("manual"@.len() == 6);
    assert("monthly"@.len() == 7);
    assert("weekly"@.len() == 6);
    assert("manual"@[0] != "weekly"@[0]);
}

/// The day of the week when available funds are paid out, specified as `monday`, `tuesday`, etc.
/// (required and applicable only if `interval` is `weekly`.).
#[derive(Copy, Clone, Debug, PartialEq, Eq, Structural)]
pub enum CreateAccountSettingsPayoutsScheduleWeeklyAnchor {
    Friday,
    Monday,
    Saturday,
    Sunday,
    Thursday,
    Tuesday,
    Wednesday,
}

impl CreateAccountSettingsPayoutsScheduleWeeklyAnchor {
    /// The name of the value on the wire.
    pub open spec fn wire_name(self) -> Seq<char> {
        match self {
            CreateAccountSettingsPayoutsScheduleWeeklyAnchor::Friday => "friday"@,
            CreateAccountSettingsPayoutsScheduleWeeklyAnchor::Monday => "monday"@,
            CreateAccountSettingsPayoutsScheduleWeeklyAnchor::Saturday => "saturday"@,
            CreateAccountSettingsPayoutsScheduleWeeklyAnchor::Sunday => "sunday"@,
            CreateAccountSettingsPayoutsScheduleWeeklyAnchor::Thursday => "thursday"@,
            CreateAccountSettingsPayoutsScheduleWeeklyAnchor::Tuesday => "tuesday"@,
            CreateAccountSettingsPayoutsScheduleWeeklyAnchor::Wednesday => "wednesday"@,
        }
    }

    pub fn as_str(self) -> (name: &'static str)
        ensures
            name@ == self.wire_name(),
    {
        match self {
            CreateAccountSettingsPayoutsScheduleWeeklyAnchor::Friday => "friday",
            CreateAccountSettingsPayoutsScheduleWeeklyAnchor::Monday => "monday",
            CreateAccountSettingsPayoutsScheduleWeeklyAnchor::Saturday => "saturday",
            CreateAccountSettingsPayoutsScheduleWeeklyAnchor::Sunday => "sunday",
            CreateAccountSettingsPayoutsScheduleWeeklyAnchor::Thursday => "thursday",
            CreateAccountSettingsPayoutsScheduleWeeklyAnchor::Tuesday => "tuesday",
            CreateAccountSettingsPayoutsScheduleWeeklyAnchor::Wednesday => "wednesday",
        }
    }
}

impl std::str::FromStr for CreateAccountSettingsPayoutsScheduleWeeklyAnchor {
    type Err = StripeParseError;

    /// Reads a wire name; fails on a string that is the name of no value.
    fn from_str(s: &str) -> (parsed: Result<Self, Self::Err>)
        ensures
            match parsed {
                Ok(v) => v.wire_name() == s@,
                Err(_) => forall|v: CreateAccountSettingsPayoutsScheduleWeeklyAnchor| #[trigger] v.wire_name() != s@,
            },
    {
        if str_eq(s, "friday") {
            Ok(CreateAccountSettingsPayoutsScheduleWeeklyAnchor::Friday)
        } else if str_eq(s, "monday") {
            Ok(CreateAccountSettingsPayoutsScheduleWeeklyAnchor::Monday)
        } else if str_eq(s, "saturday") {
            Ok(CreateAccountSettingsPayoutsScheduleWeeklyAnchor::Saturday)
        } else if str_eq(s, "sunday") {
            Ok(CreateAccountSettingsPayoutsScheduleWeeklyAnchor::Sunday)
        } else if str_eq(s, "thursday") {
            Ok(CreateAccountSettingsPayoutsScheduleWeeklyAnchor::Thursday)
        } else if str_eq(s, "tuesday") {
            Ok(CreateAccountSettingsPayoutsScheduleWeeklyAnchor::Tuesday)
        } else if str_eq(s, "wednesday") {
            Ok(CreateAccountSettingsPayoutsScheduleWeeklyAnchor::Wednesday)
        } else {
            Err(StripeParseError)
        }
    }
}

/// Two values of `CreateAccountSettingsPayoutsScheduleWeeklyAnchor` with one wire name are the same value, so
/// reading back what `as_str` gives returns the value it was called on.
pub proof fn lemma_create_account_settings_payouts_schedule_weekly_anchor_wire_names_differ(a: CreateAccountSettingsPayoutsScheduleWeeklyAnchor, b: CreateAccountSettingsPayoutsScheduleWeeklyAnchor)
    requires
        a.wire_name() == b.wire_name(),
    ensures
        a == b,
{
    reveal_strlit("friday");
    reveal_strlit("monday");
    reveal_strlit("saturday");
    reveal_strlit("sunday");
    reveal_strlit("thursday");
    reveal_strlit("tuesday");
    reveal_strlit("wednesday");
    assert("friday"@.len() == 6);
    assert("monday"@.len() == 6);
    assert("saturday"@.len() == 8);
    assert("sunday"@.len() == 6);
    assert("thursday"@.len() == 8);
    assert("tuesday"@.len() == 7);
    assert("wednesday"@.len() == 9);
    assert("friday"@[0] != "monday"@[0]);
    assert("friday"@[0] != "sunday"@[0]);
    assert("monday"@[0] != "sunday"@[0]);
    assert("saturday"@[0] != "thursday"@[0]);
}

/// The type of Stripe account to create. May be one of `custom`, `express` or `standard`.
#[derive(Copy, Clone, Debug, PartialEq, Eq, Structural)]
pub enum CreateAccountType {
    Custom,
    Express,
    Standard,
}

impl CreateAccountType {
    /// The name of the value on the wire.
    pub open spec fn wire_name(self) -> Seq<char> {
        match self {
            CreateAccountType::Custom => "custom"@,
            CreateAccountType::Express => "express"@,
            CreateAccountType::Standard => "standard"@,
        }
    }

    pub fn as_str(self) -> (name: &'static str)
        ensures
            name@ == self.wire_name(),
    {
        match self {
            CreateAccountType::Custom => "custom",
            CreateAccountType::Express => "express",
            CreateAccountType::Standard => "standard",
        }
    }
}

impl std::str::FromStr for CreateAccountType {
    type Err = StripeParseError;

    /// Reads a wire name; fails on a string that is the name of no value.
    fn from_str(s: &str) -> (parsed: Result<Self, Self::Err>)
        ensures
            match parsed {
                Ok(v) => v.wire_name() == s@,
                Err(_) => forall|v: CreateAccountType| #[trigger] v.wire_name() != s@,
            },
    {
        if str_eq(s, "custom") {
            Ok(CreateAccountType::Custom)
        } else if str_eq(s, "express") {
            Ok(CreateAccountType::Express)
        } else if str_eq(s, "standard") {
            Ok(CreateAccountType::Standard)
        } else {
            Err(StripeParseError)
        }
    }
}

/// Two values of `CreateAccountType` with one wire name are the same value, so
/// reading back what `as_str` gives returns the value it was called on.
pub proof fn lemma_create_account_type_wire_names_differ(a: CreateAccountType, b: CreateAccountType)
    requires
        a.wire_name() == b.wire_name(),
    ensures
        a == b,
{
    reveal_strlit("custom");
    reveal_strlit("express");
    reveal_strlit("standard");
    assert("custom"@.len() == 6);
    assert("express"@.len() == 7);
    assert("standard"@.len() == 8);
}

/// With [Connect](https://stripe.com/docs/connect), you can create Stripe accounts for your users.
/// To do this, you'll first need to [register your platform](https://dashboard.stripe.com/account/applications/settings).
///
/// If you've already collected information for your connected accounts, you [can prefill that information](https://stripe.com/docs/connect/best-practices#onboarding) when.
/// creating the account.
/// Connect Onboarding won't ask for the prefilled information during account onboarding.
/// You can prefill any information on the account.
#[derive(Clone, Debug)]
pub struct CreateAccount<'a> {
    pub inner: CreateAccountBuilder<'a>,
}

impl<'a> CreateAccount<'a> {
    /// Construct a new `CreateAccount`.
    pub fn new() -> (out: Self)
        ensures
            out == (CreateAccount { inner: CreateAccountBuilder { account_token: None, business_profile: None, business_type: None, capabilities: None, company: None, controller: None, country: None, default_currency: None, documents: None, email: None, expand: None, external_account: None, individual: None, metadata: None, settings: None, tos_acceptance: None, type_: None } }),
    {
        Self { inner: CreateAccountBuilder::new() }
    }

    /// An [account token](https://stripe.com/docs/api#create_account_token), used to securely provide details to the account.
    pub fn account_token(self, account_token: &'a str) -> (out: Self)
        ensures
            out == (CreateAccount { inner: (CreateAccountBuilder { account_token: Some(account_token), ..self.inner }), ..self }),
    {
        let mut out = self;
        out.inner.account_token = Some(account_token);
        out
    }

    /// Business information about the account.
    pub fn business_profile(self, business_profile: BusinessProfileSpecs<'a>) -> (out: Self)
        ensures
            out == (CreateAccount { inner: (CreateAccountBuilder { business_profile: Some(business_profile), ..self.inner }), ..self }),
    {
        let mut out = self;
        out.inner.business_profile = Some(business_profile);
        out
    }

    /// The business type.
    /// Once you create an [Account Link](/api/account_links) or [Account Session](/api/account_sessions), this property can only be updated for accounts where [controller.requirement_collection](/api/accounts/object#account_object-controller-requirement_collection) is `application`, which includes Custom accounts.
    pub fn business_type(self, business_type: AccountBusinessType) -> (out: Self)
        ensures
            out == (CreateAccount { inner: (CreateAccountBuilder { business_type: Some(business_type), ..self.inner }), ..self }),
    {
        let mut out = self;
        out.inner.business_type = Some(business_type);
        out
    }

    /// Each key of the dictionary represents a capability, and each capability
    /// maps to its settings (for example, whether it has been requested or not). Each
    /// capability is inactive until you have provided its specific
    /// requirements and Stripe has verified them. An account might have some
    /// of its requested capabilities be active and some be inactive.
    ///
    /// Required when [account.controller.stripe_dashboard.type](/api/accounts/create#create_account-controller-dashboard-type).
    /// is `none`, which includes Custom accounts.
    pub fn capabilities(self, capabilities: CapabilitiesParam) -> (out: Self)
        ensures
            out == (CreateAccount { inner: (CreateAccountBuilder { capabilities: Some(capabilities), ..self.inner }), ..self }),
    {
        let mut out = self;
        out.inner.capabilities = Some(capabilities);
        out
    }

    /// Information about the company or business.
    /// This field is available for any `business_type`.
    /// Once you create an [Account Link](/api/account_links) or [Account Session](/api/account_sessions), this property can only be updated for accounts where [controller.requirement_collection](/api/accounts/object#account_object-controller-requirement_collection) is `application`, which includes Custom accounts.
    pub fn company(self, company: CreateAccountCompany<'a>) -> (out: Self)
        ensures
            out == (CreateAccount { inner: (CreateAccountBuilder { company: Some(company), ..self.inner }), ..self }),
    {
        let mut out = self;
        out.inner.company = Some(company);
        out
    }

    /// A hash of configuration describing the account controller's attributes.
    pub fn controller(self, controller: CreateAccountController) -> (out: Self)
        ensures
            out == (CreateAccount { inner: (CreateAccountBuilder { controller: Some(controller), ..self.inner }), ..self }),
    {
        let mut out = self;
        out.inner.controller = Some(controller);
        out
    }

    /// The country in which the account holder resides, or in which the business is legally established.
    /// This should be an ISO 3166-1 alpha-2 country code.
    /// For example, if you are in the United States and the business for which you're creating an account is legally represented in Canada, you would use `CA` as the country for the account being created.
    /// Available countries include [Stripe's global markets](https://stripe.com/global) as well as countries where [cross-border payouts](https://stripe.com/docs/connect/cross-border-payouts) are supported.
    pub fn country(self, country: &'a str) -> (out: Self)
        ensures
            out == (CreateAccount { inner: (CreateAccountBuilder { country: Some(country), ..self.inner }), ..self }),
    {
        let mut out = self;
        out.inner.country = Some(country);
        out
    }

    /// Three-letter ISO currency code representing the default currency for the account.
    /// This must be a currency that [Stripe supports in the account's country](https://docs.stripe.com/payouts).
    pub fn default_currency(self, default_currency: Currency) -> (out: Self)
        ensures
            out == (CreateAccount { inner: (CreateAccountBuilder { default_currency: Some(default_currency), ..self.inner }), ..self }),
    {
        let mut out = self;
        out.inner.default_currency = Some(default_currency);
        out
    }

    /// Documents that may be submitted to satisfy various informational requests.
    pub fn documents(self, documents: DocumentsSpecs<'a>) -> (out: Self)
        ensures
            out == (CreateAccount { inner: (CreateAccountBuilder { documents: Some(documents), ..self.inner }), ..self }),
    {
        let mut out = self;
        out.inner.documents = Some(documents);
        out
    }

    /// The email address of the account holder.
    /// This is only to make the account easier to identify to you.
    /// If [controller.requirement_collection](/api/accounts/object#account_object-controller-requirement_collection) is `application`, which includes Custom accounts, Stripe doesn't email the account without your consent.
    pub fn email(self, email: &'a str) -> (out: Self)
        ensures
            out == (CreateAccount { inner: (CreateAccountBuilder { email: Some(email), ..self.inner }), ..self }),
    {
        let mut out = self;
        out.inner.email = Some(email);
        out
    }

    /// Specifies which fields in the response should be expanded.
    pub fn expand(self, expand: &'a [&'a str]) -> (out: Self)
        ensures
            out == (CreateAccount { inner: (CreateAccountBuilder { expand: Some(expand), ..self.inner }), ..self }),
    {
        let mut out = self;
        out.inner.expand = Some(expand);
        out
    }

    /// A card or bank account to attach to the account for receiving [payouts](/connect/bank-debit-card-payouts) (you won't be able to use it for top-ups).
    /// You can provide either a token, like the ones returned by [Stripe.js](/js), or a dictionary, as documented in the `external_account` parameter for [bank account](/api#account_create_bank_account) creation.
    ///
    ///
    /// By default, providing an external account sets it as the new default external account for its currency, and deletes the old default if one exists.
    /// To add additional external accounts without replacing the existing default for the currency, use the [bank account](/api#account_create_bank_account) or [card creation](/api#account_create_card) APIs.
    /// After you create an [Account Link](/api/account_links) or [Account Session](/api/account_sessions), this property can only be updated for accounts where [controller.requirement_collection](/api/accounts/object#account_object-controller-requirement_collection) is `application`, which includes Custom accounts.
    pub fn external_account(self, external_account: &'a str) -> (out: Self)
        ensures
            out == (CreateAccount { inner: (CreateAccountBuilder { external_account: Some(external_account), ..self.inner }), ..self }),
    {
        let mut out = self;
        out.inner.external_account = Some(external_account);
        out
    }

    /// Information about the person represented by the account.
    /// This field is null unless `business_type` is set to `individual`.
    /// Once you create an [Account Link](/api/account_links) or [Account Session](/api/account_sessions), this property can only be updated for accounts where [controller.requirement_collection](/api/accounts/object#account_object-controller-requirement_collection) is `application`, which includes Custom accounts.
    pub fn individual(self, individual: CreateAccountIndividual<'a>) -> (out: Self)
        ensures
            out == (CreateAccount { inner: (CreateAccountBuilder { individual: Some(individual), ..self.inner }), ..self }),
    {
        let mut out = self;
        out.inner.individual = Some(individual);
        out
    }

    /// Set of [key-value pairs](https://stripe.com/docs/api/metadata) that you can attach to an object.
    /// This can be useful for storing additional information about the object in a structured format.
    /// Individual keys can be unset by posting an empty value to them.
    /// All keys can be unset by posting an empty value to `metadata`.
    pub fn metadata(self, metadata: &'a HashMap<String, String>) -> (out: Self)
        ensures
            out == (CreateAccount { inner: (CreateAccountBuilder { metadata: Some(metadata), ..self.inner }), ..self }),
    {
        let mut out = self;
        out.inner.metadata = Some(metadata);
        out
    }

    /// Options for customizing how the account functions within Stripe.
    pub fn settings(self, settings: CreateAccountSettings<'a>) -> (out: Self)
        ensures
            out == (CreateAccount { inner: (CreateAccountBuilder { settings: Some(settings), ..self.inner }), ..self }),
    {
        let mut out = self;
        out.inner.settings = Some(settings);
        out
    }

    /// Details on the account's acceptance of the [Stripe Services Agreement](/connect/updating-accounts#tos-acceptance).
    /// This property can only be updated for accounts where [controller.requirement_collection](/api/accounts/object#account_object-controller-requirement_collection) is `application`, which includes Custom accounts.
    pub fn tos_acceptance(self, tos_acceptance: TosAcceptanceSpecs<'a>) -> (out: Self)
        ensures
            out == (CreateAccount { inner: (CreateAccountBuilder { tos_acceptance: Some(tos_acceptance), ..self.inner }), ..self }),
    {
        let mut out = self;
        out.inner.tos_acceptance = Some(tos_acceptance);
        out
    }

    /// The type of Stripe account to create. May be one of `custom`, `express` or `standard`.
    pub fn type_(self, type_: CreateAccountType) -> (out: Self)
        ensures
            out == (CreateAccount { inner: (CreateAccountBuilder { type_: Some(type_), ..self.inner }), ..self }),
    {
        let mut out = self;
        out.inner.type_ = Some(type_);
        out
    }
}

impl<'a> Default for CreateAccount<'a> {
    fn default() -> (out: Self)
        ensures
            out == (CreateAccount { inner: CreateAccountBuilder { account_token: None, business_profile: None, business_type: None, capabilities: None, company: None, controller: None, country: None, default_currency: None, documents: None, email: None, expand: None, external_account: None, individual: None, metadata: None, settings: None, tos_acceptance: None, type_: None } }),
    {
        Self::new()
    }
}

impl StripeRequest for CreateAccount<'_> {
    open spec fn call(&self) -> RequestModel {
        RequestModel { method: StripeMethod::Post, path: "/accounts"@, query: None, body: None, idempotency_key: None }
    }

    fn build(&self) -> (request: RequestDescription) {
        let path = String::from_str("/accounts");
        RequestDescription::new(StripeMethod::Post, path)
    }
}

#[derive(Copy, Clone, Debug)]
pub struct UpdateAccountBuilder<'a> {
    pub account_token: Option<&'a str>,
    pub business_profile: Option<BusinessProfileSpecs<'a>>,
    pub business_type: Option<AccountBusinessType>,
    pub capabilities: Option<CapabilitiesParam>,
    pub company: Option<UpdateAccountCompany<'a>>,
    pub default_currency: Option<Currency>,
    pub documents: Option<DocumentsSpecs<'a>>,
    pub email: Option<&'a str>,
    pub expand: Option<&'a [&'a str]>,
    pub external_account: Option<&'a str>,
    pub individual: Option<UpdateAccountIndividual<'a>>,
    pub metadata: Option<&'a HashMap<String, String>>,
    pub settings: Option<UpdateAccountSettings<'a>>,
    pub tos_acceptance: Option<TosAcceptanceSpecs<'a>>,
}

impl<'a> UpdateAccountBuilder<'a> {
    pub fn new() -> (out: Self)
        ensures
            out == (UpdateAccountBuilder { account_token: None, business_profile: None, business_type: None, capabilities: None, company: None, default_currency: None, documents: None, email: None, expand: None, external_account: None, individual: None, metadata: None, settings: None, tos_acceptance: None }),
    {
        Self { account_token: None, business_profile: None, business_type: None, capabilities: None, company: None, default_currency: None, documents: None, email: None, expand: None, external_account: None, individual: None, metadata: None, settings: None, tos_acceptance: None, }
    }
}

/// Information about the company or business.
/// This field is available for any `business_type`.
/// Once you create an [Account Link](/api/account_links) or [Account Session](/api/account_sessions), this property can only be updated for accounts where [controller.requirement_collection](/api/accounts/object#account_object-controller-requirement_collection) is `application`, which includes Custom accounts.
#[derive(Copy, Clone, Debug)]
pub struct UpdateAccountCompany<'a> {
    /// The company's primary address.
    pub address: Option<AddressSpecs<'a>>,
    /// The Kana variation of the company's primary address (Japan only).
    pub address_kana: Option<UpdateAccountCompanyAddressKana<'a>>,
    /// The Kanji variation of the company's primary address (Japan only).
    pub address_kanji: Option<UpdateAccountCompanyAddressKanji<'a>>,
    /// Whether the company's directors have been provided.
    /// Set this Boolean to `true` after creating all the company's directors with [the Persons API](https://docs.stripe.com/api/persons) for accounts with a `relationship.director` requirement.
    /// This value is not automatically set to `true` after creating directors, so it needs to be updated to indicate all directors have been provided.
    pub directors_provided: Option<bool>,
    /// Whether the company's executives have been provided.
    /// Set this Boolean to `true` after creating all the company's executives with [the Persons API](https://docs.stripe.com/api/persons) for accounts with a `relationship.executive` requirement.
    pub executives_provided: Option<bool>,
    /// The export license ID number of the company, also referred as Import Export Code (India only).
    pub export_license_id: Option<&'a str>,
    /// The purpose code to use for export transactions (India only).
    pub export_purpose_code: Option<&'a str>,
    /// The company's legal name.
    pub name: Option<&'a str>,
    /// The Kana variation of the company's legal name (Japan only).
    pub name_kana: Option<&'a str>,
    /// The Kanji variation of the company's legal name (Japan only).
    pub name_kanji: Option<&'a str>,
    /// Whether the company's owners have been provided.
    /// Set this Boolean to `true` after creating all the company's owners with [the Persons API](https://docs.stripe.com/api/persons) for accounts with a `relationship.owner` requirement.
    pub owners_provided: Option<bool>,
    /// This hash is used to attest that the beneficial owner information provided to Stripe is both current and correct.
    pub ownership_declaration: Option<CompanyOwnershipDeclaration<'a>>,
    /// The company's phone number (used for verification).
    pub phone: Option<&'a str>,
    /// The identification number given to a company when it is registered or incorporated, if distinct from the identification number used for filing taxes.
    /// (Examples are the CIN for companies and LLP IN for partnerships in India, and the Company Registration Number in Hong Kong).
    pub registration_number: Option<&'a str>,
    /// The category identifying the legal structure of the company or legal entity.
    /// See [Business structure](https://docs.stripe.com/connect/identity-verification#business-structure) for more details.
    /// Pass an empty string to unset this value.
    pub structure: Option<UpdateAccountCompanyStructure>,
    /// The business ID number of the company, as appropriate for the company's country.
    /// (Examples are an Employer ID Number in the U.S., a Business Number in Canada, or a Company Number in the UK.).
    pub tax_id: Option<&'a str>,
    /// The jurisdiction in which the `tax_id` is registered (Germany-based companies only).
    pub tax_id_registrar: Option<&'a str>,
    /// The VAT number of the company.
    pub vat_id: Option<&'a str>,
    /// Information on the verification state of the company.
    pub verification: Option<VerificationSpecs<'a>>,
}

impl<'a> UpdateAccountCompany<'a> {
    pub fn new() -> (out: Self)
        ensures
            out == (UpdateAccountCompany { address: None, address_kana: None, address_kanji: None, directors_provided: None, executives_provided: None, export_license_id: None, export_purpose_code: None, name: None, name_kana: None, name_kanji: None, owners_provided: None, ownership_declaration: None, phone: None, registration_number: None, structure: None, tax_id: None, tax_id_registrar: None, vat_id: None, verification: None }),
    {
        Self { address: None, address_kana: None, address_kanji: None, directors_provided: None, executives_provided: None, export_license_id: None, export_purpose_code: None, name: None, name_kana: None, name_kanji: None, owners_provided: None, ownership_declaration: None, phone: None, registration_number: None, structure: None, tax_id: None, tax_id_registrar: None, vat_id: None, verification: None, }
    }
}

impl<'a> Default for UpdateAccountCompany<'a> {
    fn default() -> (out: Self)
        ensures
            out == (UpdateAccountCompany { address: None, address_kana: None, address_kanji: None, directors_provided: None, executives_provided: None, export_license_id: None, export_purpose_code: None, name: None, name_kana: None, name_kanji: None, owners_provided: None, ownership_declaration: None, phone: None, registration_number: None, structure: None, tax_id: None, tax_id_registrar: None, vat_id: None, verification: None }),
    {
        Self::new()
    }
}

/// The Kana variation of the company's primary address (Japan only).
#[derive(Copy, Clone, Debug)]
pub struct UpdateAccountCompanyAddressKana<'a> {
    /// City or ward.
    pub city: Option<&'a str>,
    /// Two-letter country code ([ISO 3166-1 alpha-2](https://en.wikipedia.org/wiki/ISO_3166-1_alpha-2)).
    pub country: Option<&'a str>,
    /// Block or building number.
    pub line1: Option<&'a str>,
    /// Building details.
    pub line2: Option<&'a str>,
    /// Postal code.
    pub postal_code: Option<&'a str>,
    /// Prefecture.
    pub state: Option<&'a str>,
    /// Town or cho-me.
    pub town: Option<&'a str>,
}

impl<'a> UpdateAccountCompanyAddressKana<'a> {
    pub fn new() -> (out: Self)
        ensures
            out == (UpdateAccountCompanyAddressKana { city: None, country: None, line1: None, line2: None, postal_code: None, state: None, town: None }),
    {
        Self { city: None, country: None, line1: None, line2: None, postal_code: None, state: None, town: None, }
    }
}

impl<'a> Default for UpdateAccountCompanyAddressKana<'a> {
    fn default() -> (out: Self)
        ensures
            out == (UpdateAccountCompanyAddressKana { city: None, country: None, line1: None, line2: None, postal_code: None, state: None, town: None }),
    {
        Self::new()
    }
}

/// The Kanji variation of the company's primary address (Japan only).
#[derive(Copy, Clone, Debug)]
pub struct UpdateAccountCompanyAddressKanji<'a> {
    /// City or ward.
    pub city: Option<&'a str>,
    /// Two-letter country code ([ISO 3166-1 alpha-2](https://en.wikipedia.org/wiki/ISO_3166-1_alpha-2)).
    pub country: Option<&'a str>,
    /// Block or building number.
    pub line1: Option<&'a str>,
    /// Building details.
    pub line2: Option<&'a str>,
    /// Postal code.
    pub postal_code: Option<&'a str>,
    /// Prefecture.
    pub state: Option<&'a str>,
    /// Town or cho-me.
    pub town: Option<&'a str>,
}

impl<'a> UpdateAccountCompanyAddressKanji<'a> {
    pub fn new() -> (out: Self)
        ensures
            out == (UpdateAccountCompanyAddressKanji { city: None, country: None, line1: None, line2: None, postal_code: None, state: None, town: None }),
    {
        Self { city: None, country: None, line1: None, line2: None, postal_code: None, state: None, town: None, }
    }
}

impl<'a> Default for UpdateAccountCompanyAddressKanji<'a> {
    fn default() -> (out: Self)
        ensures
            out == (UpdateAccountCompanyAddressKanji { city: None, country: None, line1: None, line2: None, postal_code: None, state: None, town: None }),
    {
        Self::new()
    }
}

/// The category identifying the legal structure of the company or legal entity.
/// See [Business structure](https://docs.stripe.com/connect/identity-verification#business-structure) for more details.
/// Pass an empty string to unset this value.
#[derive(Copy, Clone, Debug, PartialEq, Eq, Structural)]
pub enum UpdateAccountCompanyStructure {
    FreeZoneEstablishment,
    FreeZoneLlc,
    GovernmentInstrumentality,
    GovernmentalUnit,
    IncorporatedNonProfit,
    IncorporatedPartnership,
    LimitedLiabilityPartnership,
    Llc,
    MultiMemberLlc,
    PrivateCompany,
    PrivateCorporation,
    PrivatePartnership,
    PublicCompany,
    PublicCorporation,
    PublicPartnership,
    RegisteredCharity,
    SingleMemberLlc,
    SoleEstablishment,
    SoleProprietorship,
    TaxExemptGovernmentInstrumentality,
    UnincorporatedAssociation,
    UnincorporatedNonProfit,
    UnincorporatedPartnership,
    /// An unrecognized value from Stripe. Should not be used as a request parameter.
    Unknown,
}

impl UpdateAccountCompanyStructure {
    /// The name of the value on the wire.
    pub open spec fn wire_name(self) -> Seq<char> {
        match self {
            UpdateAccountCompanyStructure::FreeZoneEstablishment => "free_zone_establishment"@,
            UpdateAccountCompanyStructure::FreeZoneLlc => "free_zone_llc"@,
            UpdateAccountCompanyStructure::GovernmentInstrumentality => "government_instrumentality"@,
            UpdateAccountCompanyStructure::GovernmentalUnit => "governmental_unit"@,
            UpdateAccountCompanyStructure::IncorporatedNonProfit => "incorporated_non_profit"@,
            UpdateAccountCompanyStructure::IncorporatedPartnership => "incorporated_partnership"@,
            UpdateAccountCompanyStructure::LimitedLiabilityPartnership => "limited_liability_partnership"@,
            UpdateAccountCompanyStructure::Llc => "llc"@,
            UpdateAccountCompanyStructure::MultiMemberLlc => "multi_member_llc"@,
            UpdateAccountCompanyStructure::PrivateCompany => "private_company"@,
            UpdateAccountCompanyStructure::PrivateCorporation => "private_corporation"@,
            UpdateAccountCompanyStructure::PrivatePartnership => "private_partnership"@,
            UpdateAccountCompanyStructure::PublicCompany => "public_company"@,
            UpdateAccountCompanyStructure::PublicCorporation => "public_corporation"@,
            UpdateAccountCompanyStructure::PublicPartnership => "public_partnership"@,
            UpdateAccountCompanyStructure::RegisteredCharity => "registered_charity"@,
            UpdateAccountCompanyStructure::SingleMemberLlc => "single_member_llc"@,
            UpdateAccountCompanyStructure::SoleEstablishment => "sole_establishment"@,
            UpdateAccountCompanyStructure::SoleProprietorship => "sole_proprietorship"@,
            UpdateAccountCompanyStructure::TaxExemptGovernmentInstrumentality => "tax_exempt_government_instrumentality"@,
            UpdateAccountCompanyStructure::UnincorporatedAssociation => "unincorporated_association"@,
            UpdateAccountCompanyStructure::UnincorporatedNonProfit => "unincorporated_non_profit"@,
            UpdateAccountCompanyStructure::UnincorporatedPartnership => "unincorporated_partnership"@,
            UpdateAccountCompanyStructure::Unknown => "unknown"@,
        }
    }

    pub fn as_str(self) -> (name: &'static str)
        ensures
            name@ == self.wire_name(),
    {
        match self {
            UpdateAccountCompanyStructure::FreeZoneEstablishment => "free_zone_establishment",
            UpdateAccountCompanyStructure::FreeZoneLlc => "free_zone_llc",
            UpdateAccountCompanyStructure::GovernmentInstrumentality => "government_instrumentality",
            UpdateAccountCompanyStructure::GovernmentalUnit => "governmental_unit",
            UpdateAccountCompanyStructure::IncorporatedNonProfit => "incorporated_non_profit",
            UpdateAccountCompanyStructure::IncorporatedPartnership => "incorporated_partnership",
            UpdateAccountCompanyStructure::LimitedLiabilityPartnership => "limited_liability_partnership",
            UpdateAccountCompanyStructure::Llc => "llc",
            UpdateAccountCompanyStructure::MultiMemberLlc => "multi_member_llc",
            UpdateAccountCompanyStructure::PrivateCompany => "private_company",
            UpdateAccountCompanyStructure::PrivateCorporation => "private_corporation",
            UpdateAccountCompanyStructure::PrivatePartnership => "private_partnership",
            UpdateAccountCompanyStructure::PublicCompany => "public_company",
            UpdateAccountCompanyStructure::PublicCorporation => "public_corporation",
            UpdateAccountCompanyStructure::PublicPartnership => "public_partnership",
            UpdateAccountCompanyStructure::RegisteredCharity => "registered_charity",
            UpdateAccountCompanyStructure::SingleMemberLlc => "single_member_llc",
            UpdateAccountCompanyStructure::SoleEstablishment => "sole_establishment",
            UpdateAccountCompanyStructure::SoleProprietorship => "sole_proprietorship",
            UpdateAccountCompanyStructure::TaxExemptGovernmentInstrumentality => "tax_exempt_government_instrumentality",
            UpdateAccountCompanyStructure::UnincorporatedAssociation => "unincorporated_association",
            UpdateAccountCompanyStructure::UnincorporatedNonProfit => "unincorporated_non_profit",
            UpdateAccountCompanyStructure::UnincorporatedPartnership => "unincorporated_partnership",
            UpdateAccountCompanyStructure::Unknown => "unknown",
        }
    }

    /// Whether `name` is the wire name of a value that the library knows.
    pub open spec fn is_known(name: Seq<char>) -> bool {
        exists|v: UpdateAccountCompanyStructure| v != UpdateAccountCompanyStructure::Unknown && #[trigger] v.wire_name() == name
    }
}

impl std::str::FromStr for UpdateAccountCompanyStructure {
    type Err = std::convert::Infallible;

    /// Reads a wire name. A name that the library does not know gives
    /// `Unknown`; the call never fails.
    fn from_str(s: &str) -> (parsed: Result<Self, Self::Err>)
        ensures
            parsed is Ok,
            parsed->Ok_0 != UpdateAccountCompanyStructure::Unknown ==> parsed->Ok_0.wire_name() == s@,
            parsed->Ok_0 == UpdateAccountCompanyStructure::Unknown ==> !UpdateAccountCompanyStructure::is_known(s@),
    {
        if str_eq(s, "free_zone_establishment") {
            Ok(UpdateAccountCompanyStructure::FreeZoneEstablishment)
        } else if str_eq(s, "free_zone_llc") {
            Ok(UpdateAccountCompanyStructure::FreeZoneLlc)
        } else if str_eq(s, "government_instrumentality") {
            Ok(UpdateAccountCompanyStructure::GovernmentInstrumentality)
        } else if str_eq(s, "governmental_unit") {
            Ok(UpdateAccountCompanyStructure::GovernmentalUnit)
        } else if str_eq(s, "incorporated_non_profit") {
            Ok(UpdateAccountCompanyStructure::IncorporatedNonProfit)
        } else if str_eq(s, "incorporated_partnership") {
            Ok(UpdateAccountCompanyStructure::IncorporatedPartnership)
        } else if str_eq(s, "limited_liability_partnership") {
            Ok(UpdateAccountCompanyStructure::LimitedLiabilityPartnership)
        } else if str_eq(s, "llc") {
            Ok(UpdateAccountCompanyStructure::Llc)
        } else if str_eq(s, "multi_member_llc") {
            Ok(UpdateAccountCompanyStructure::MultiMemberLlc)
        } else if str_eq(s, "private_company") {
            Ok(UpdateAccountCompanyStructure::PrivateCompany)
        } else if str_eq(s, "private_corporation") {
            Ok(UpdateAccountCompanyStructure::PrivateCorporation)
        } else if str_eq(s, "private_partnership") {
            Ok(UpdateAccountCompanyStructure::PrivatePartnership)
        } else if str_eq(s, "public_company") {
            Ok(UpdateAccountCompanyStructure::PublicCompany)
        } else if str_eq(s, "public_corporation") {
            Ok(UpdateAccountCompanyStructure::PublicCorporation)
        } else if str_eq(s, "public_partnership") {
            Ok(UpdateAccountCompanyStructure::PublicPartnership)
        } else if str_eq(s, "registered_charity") {
            Ok(UpdateAccountCompanyStructure::RegisteredCharity)
        } else if str_eq(s, "single_member_llc") {
            Ok(UpdateAccountCompanyStructure::SingleMemberLlc)
        } else if str_eq(s, "sole_establishment") {
            Ok(UpdateAccountCompanyStructure::SoleEstablishment)
        } else if str_eq(s, "sole_proprietorship") {
            Ok(UpdateAccountCompanyStructure::SoleProprietorship)
        } else if str_eq(s, "tax_exempt_government_instrumentality") {
            Ok(UpdateAccountCompanyStructure::TaxExemptGovernmentInstrumentality)
        } else if str_eq(s, "unincorporated_association") {
            Ok(UpdateAccountCompanyStructure::UnincorporatedAssociation)
        } else if str_eq(s, "unincorporated_non_profit") {
            Ok(UpdateAccountCompanyStructure::UnincorporatedNonProfit)
        } else if str_eq(s, "unincorporated_partnership") {
            Ok(UpdateAccountCompanyStructure::UnincorporatedPartnership)
        } else {
            assert forall|v: UpdateAccountCompanyStructure| v != UpdateAccountCompanyStructure::Unknown implies #[trigger] v.wire_name() != s@ by {}
            Ok(UpdateAccountCompanyStructure::Unknown)
        }
    }
}

/// Two values of `UpdateAccountCompanyStructure` with one wire name are the same value, so
/// reading back what `as_str` gives returns the value it was called on.
pub proof fn lemma_update_account_company_structure_wire_names_differ(a: UpdateAccountCompanyStructure, b: UpdateAccountCompanyStructure)
    requires
        a.wire_name() == b.wire_name(),
    ensures
        a == b,
{
    reveal_strlit("free_zone_establishment");
    reveal_strlit("free_zone_llc");
    reveal_strlit("government_instrumentality");
    reveal_strlit("governmental_unit");
    reveal_strlit("incorporated_non_profit");
    reveal_strlit("incorporated_partnership");
    reveal_strlit("limited_liability_partnership");
    reveal_strlit("llc");
    reveal_strlit("multi_member_llc");
    reveal_strlit("private_company");
    reveal_strlit("private_corporation");
    reveal_strlit("private_partnership");
    reveal_strlit("public_company");
    reveal_strlit("public_corporation");
    reveal_strlit("public_partnership");
    reveal_strlit("registered_charity");
    reveal_strlit("single_member_llc");
    reveal_strlit("sole_establishment");
    reveal_strlit("sole_proprietorship");
    reveal_strlit("tax_exempt_government_instrumentality");
    reveal_strlit("unincorporated_association");
    reveal_strlit("unincorporated_non_profit");
    reveal_strlit("unincorporated_partnership");
    reveal_strlit("unknown");
    assert("free_zone_establishment"@.len() == 23);
    assert("free_zone_llc"@.len() == 13);
    assert("government_instrumentality"@.len() == 26);
    assert("governmental_unit"@.len() == 17);
    assert("incorporated_non_profit"@.len() == 23);
    assert("incorporated_partnership"@.len() == 24);
    assert("limited_liability_partnership"@.len() == 29);
    assert("llc"@.len() == 3);
    assert("multi_member_llc"@.len() == 16);
    assert("private_company"@.len() == 15);
    assert("private_corporation"@.len() == 19);
    assert("private_partnership"@.len() == 19);
    assert("public_company"@.len() == 14);
    assert("public_corporation"@.len() == 18);
    assert("public_partnership"@.len() == 18);
    assert("registered_charity"@.len() == 18);
    assert("single_member_llc"@.len() == 17);
    assert("sole_establishment"@.len() == 18);
    assert("sole_proprietorship"@.len() == 19);
    assert("tax_exempt_government_instrumentality"@.len() == 37);
    assert("unincorporated_association"@.len() == 26);
    assert("unincorporated_non_profit"@.len() == 25);
    assert("unincorporated_partnership"@.len() == 26);
    assert("unknown"@.len() == 7);
    assert("governmental_unit"@[0] != "single_member_llc"@[0]);
    assert("public_corporation"@[7] != "public_partnership"@[7]);
    assert("public_corporation"@[0] != "registered_charity"@[0]);
    assert("public_corporation"@[0] != "sole_establishment"@[0]);
    assert("public_partnership"@[0] != "registered_charity"@[0]);
    assert("public_partnership"@[0] != "sole_establishment"@[0]);
    assert("registered_charity"@[0] != "sole_establishment"@[0]);
    assert("private_corporation"@[8] != "private_partnership"@[8]);
    assert("private_corporation"@[0] != "sole_proprietorship"@[0]);
    assert("private_partnership"@[0] != "sole_proprietorship"@[0]);
    assert("free_zone_establishment"@[0] != "incorporated_non_profit"@[0]);
    assert("government_instrumentality"@[0] != "unincorporated_association"@[0]);
    assert("government_instrumentality"@[0] != "unincorporated_partnership"@[0]);
    assert("unincorporated_association"@[15] != "unincorporated_partnership"@[15]);
}

/// Information about the person represented by the account.
/// This field is null unless `business_type` is set to `individual`.
/// Once you create an [Account Link](/api/account_links) or [Account Session](/api/account_sessions), this property can only be updated for accounts where [controller.requirement_collection](/api/accounts/object#account_object-controller-requirement_collection) is `application`, which includes Custom accounts.
#[derive(Copy, Clone, Debug)]
pub struct UpdateAccountIndividual<'a> {
    /// The individual's primary address.
    pub address: Option<AddressSpecs<'a>>,
    /// The Kana variation of the the individual's primary address (Japan only).
    pub address_kana: Option<UpdateAccountIndividualAddressKana<'a>>,
    /// The Kanji variation of the the individual's primary address (Japan only).
    pub address_kanji: Option<UpdateAccountIndividualAddressKanji<'a>>,
    /// The individual's date of birth.
    pub dob: Option<DateOfBirthSpecs>,
    /// The individual's email address.
    pub email: Option<&'a str>,
    /// The individual's first name.
    pub first_name: Option<&'a str>,
    /// The Kana variation of the the individual's first name (Japan only).
    pub first_name_kana: Option<&'a str>,
    /// The Kanji variation of the individual's first name (Japan only).
    pub first_name_kanji: Option<&'a str>,
    /// A list of alternate names or aliases that the individual is known by.
    pub full_name_aliases: Option<&'a [&'a str]>,
    /// The individual's gender (International regulations require either "male" or "female").
    pub gender: Option<&'a str>,
    /// The government-issued ID number of the individual, as appropriate for the representative's country.
    /// (Examples are a Social Security Number in the U.S., or a Social Insurance Number in Canada).
    /// Instead of the number itself, you can also provide a [PII token created with Stripe.js](https://docs.stripe.com/js/tokens/create_token?type=pii).
    pub id_number: Option<&'a str>,
    /// The government-issued secondary ID number of the individual, as appropriate for the representative's country, will be used for enhanced verification checks.
    /// In Thailand, this would be the laser code found on the back of an ID card.
    /// Instead of the number itself, you can also provide a [PII token created with Stripe.js](https://docs.stripe.com/js/tokens/create_token?type=pii).
    pub id_number_secondary: Option<&'a str>,
    /// The individual's last name.
    pub last_name: Option<&'a str>,
    /// The Kana variation of the individual's last name (Japan only).
    pub last_name_kana: Option<&'a str>,
    /// The Kanji variation of the individual's last name (Japan only).
    pub last_name_kanji: Option<&'a str>,
    /// The individual's maiden name.
    pub maiden_name: Option<&'a str>,
    /// Set of [key-value pairs](https://stripe.com/docs/api/metadata) that you can attach to an object.
    /// This can be useful for storing additional information about the object in a structured format.
    /// Individual keys can be unset by posting an empty value to them.
    /// All keys can be unset by posting an empty value to `metadata`.
    pub metadata: Option<&'a HashMap<String, String>>,
    /// The individual's phone number.
    pub phone: Option<&'a str>,
    /// Indicates if the person or any of their representatives, family members, or other closely related persons, declares that they hold or have held an important public job or function, in any jurisdiction.
    pub political_exposure: Option<UpdateAccountIndividualPoliticalExposure>,
    /// The individual's registered address.
    pub registered_address: Option<AddressSpecs<'a>>,
    /// Describes the person's relationship to the account.
    pub relationship: Option<IndividualRelationshipSpecs<'a>>,
    /// The last four digits of the individual's Social Security Number (U.S. only).
    pub ssn_last_4: Option<&'a str>,
    /// The individual's verification document information.
    pub verification: Option<PersonVerificationSpecs<'a>>,
}

impl<'a> UpdateAccountIndividual<'a> {
    pub fn new() -> (out: Self)
        ensures
            out == (UpdateAccountIndividual { address: None, address_kana: None, address_kanji: None, dob: None, email: None, first_name: None, first_name_kana: None, first_name_kanji: None, full_name_aliases: None, gender: None, id_number: None, id_number_secondary: None, last_name: None, last_name_kana: None, last_name_kanji: None, maiden_name: None, metadata: None, phone: None, political_exposure: None, registered_address: None, relationship: None, ssn_last_4: None, verification: None }),
    {
        Self { address: None, address_kana: None, address_kanji: None, dob: None, email: None, first_name: None, first_name_kana: None, first_name_kanji: None, full_name_aliases: None, gender: None, id_number: None, id_number_secondary: None, last_name: None, last_name_kana: None, last_name_kanji: None, maiden_name: None, metadata: None, phone: None, political_exposure: None, registered_address: None, relationship: None, ssn_last_4: None, verification: None, }
    }
}

impl<'a> Default for UpdateAccountIndividual<'a> {
    fn default() -> (out: Self)
        ensures
            out == (UpdateAccountIndividual { address: None, address_kana: None, address_kanji: None, dob: None, email: None, first_name: None, first_name_kana: None, first_name_kanji: None, full_name_aliases: None, gender: None, id_number: None, id_number_secondary: None, last_name: None, last_name_kana: None, last_name_kanji: None, maiden_name: None, metadata: None, phone: None, political_exposure: None, registered_address: None, relationship: None, ssn_last_4: None, verification: None }),
    {
        Self::new()
    }
}

/// The Kana variation of the the individual's primary address (Japan only).
#[derive(Copy, Clone, Debug)]
pub struct UpdateAccountIndividualAddressKana<'a> {
    /// City or ward.
    pub city: Option<&'a str>,
    /// Two-letter country code ([ISO 3166-1 alpha-2](https://en.wikipedia.org/wiki/ISO_3166-1_alpha-2)).
    pub country: Option<&'a str>,
    /// Block or building number.
    pub line1: Option<&'a str>,
    /// Building details.
    pub line2: Option<&'a str>,
    /// Postal code.
    pub postal_code: Option<&'a str>,
    /// Prefecture.
    pub state: Option<&'a str>,
    /// Town or cho-me.
    pub town: Option<&'a str>,
}

impl<'a> UpdateAccountIndividualAddressKana<'a> {
    pub fn new() -> (out: Self)
        ensures
            out == (UpdateAccountIndividualAddressKana { city: None, country: None, line1: None, line2: None, postal_code: None, state: None, town: None }),
    {
        Self { city: None, country: None, line1: None, line2: None, postal_code: None, state: None, town: None, }
    }
}

impl<'a> Default for UpdateAccountIndividualAddressKana<'a> {
    fn default() -> (out: Self)
        ensures
            out == (UpdateAccountIndividualAddressKana { city: None, country: None, line1: None, line2: None, postal_code: None, state: None, town: None }),
    {
        Self::new()
    }
}

/// The Kanji variation of the the individual's primary address (Japan only).
#[derive(Copy, Clone, Debug)]
pub struct UpdateAccountIndividualAddressKanji<'a> {
    /// City or ward.
    pub city: Option<&'a str>,
    /// Two-letter country code ([ISO 3166-1 alpha-2](https://en.wikipedia.org/wiki/ISO_3166-1_alpha-2)).
    pub country: Option<&'a str>,
    /// Block or building number.
    pub line1: Option<&'a str>,
    /// Building details.
    pub line2: Option<&'a str>,
    /// Postal code.
    pub postal_code: Option<&'a str>,
    /// Prefecture.
    pub state: Option<&'a str>,
    /// Town or cho-me.
    pub town: Option<&'a str>,
}

impl<'a> UpdateAccountIndividualAddressKanji<'a> {
    pub fn new() -> (out: Self)
        ensures
            out == (UpdateAccountIndividualAddressKanji { city: None, country: None, line1: None, line2: None, postal_code: None, state: None, town: None }),
    {
        Self { city: None, country: None, line1: None, line2: None, postal_code: None, state: None, town: None, }
    }
}

impl<'a> Default for UpdateAccountIndividualAddressKanji<'a> {
    fn default() -> (out: Self)
        ensures
            out == (UpdateAccountIndividualAddressKanji { city: None, country: None, line1: None, line2: None, postal_code: None, state: None, town: None }),
    {
        Self::new()
    }
}

/// Indicates if the person or any of their representatives, family members, or other closely related persons, declares that they hold or have held an important public job or function, in any jurisdiction.
#[derive(Copy, Clone, Debug, PartialEq, Eq, Structural)]
pub enum UpdateAccountIndividualPoliticalExposure {
    Existing,
    None_,
}

impl UpdateAccountIndividualPoliticalExposure {
    /// The name of the value on the wire.
    pub open spec fn wire_name(self) -> Seq<char> {
        match self {
            UpdateAccountIndividualPoliticalExposure::Existing => "existing"@,
            UpdateAccountIndividualPoliticalExposure::None_ => "none"@,
        }
    }

    pub fn as_str(self) -> (name: &'static str)
        ensures
            name@ == self.wire_name(),
    {
        match self {
            UpdateAccountIndividualPoliticalExposure::Existing => "existing",
            UpdateAccountIndividualPoliticalExposure::None_ => "none",
        }
    }
}

impl std::str::FromStr for UpdateAccountIndividualPoliticalExposure {
    type Err = StripeParseError;

    /// Reads a wire name; fails on a string that is the name of no value.
    fn from_str(s: &str) -> (parsed: Result<Self, Self::Err>)
        ensures
            match parsed {
                Ok(v) => v.wire_name() == s@,
                Err(_) => forall|v: UpdateAccountIndividualPoliticalExposure| #[trigger] v.wire_name() != s@,
            },
    {
        if str_eq(s, "existing") {
            Ok(UpdateAccountIndividualPoliticalExposure::Existing)
        } else if str_eq(s, "none") {
            Ok(UpdateAccountIndividualPoliticalExposure::None_)
        } else {
            Err(StripeParseError)
        }
    }
}

/// Two values of `UpdateAccountIndividualPoliticalExposure` with one wire name are the same value, so
/// reading back what `as_str` gives returns the value it was called on.
pub proof fn lemma_update_account_individual_political_exposure_wire_names_differ(a: UpdateAccountIndividualPoliticalExposure, b: UpdateAccountIndividualPoliticalExposure)
    requires
        a.wire_name() == b.wire_name(),
    ensures
        a == b,
{
    reveal_strlit("existing");
    reveal_strlit("none");
    assert("existing"@.len() == 8);
    assert("none"@.len() == 4);
}

/// Options for customizing how the account functions within Stripe.
#[derive(Copy, Clone, Debug)]
pub struct UpdateAccountSettings<'a> {
    /// Settings specific to Bacs Direct Debit payments.
    pub bacs_debit_payments: Option<BacsDebitPaymentsSpecs<'a>>,
    /// Settings used to apply the account's branding to email receipts, invoices, Checkout, and other products.
    pub branding: Option<BrandingSettingsSpecs<'a>>,
    /// Settings specific to the account's use of the Card Issuing product.
    pub card_issuing: Option<CardIssuingSettingsSpecs<'a>>,
    /// Settings specific to card charging on the account.
    pub card_payments: Option<CardPaymentsSettingsSpecs<'a>>,
    /// Settings specific to the account's use of Invoices.
    pub invoices: Option<UpdateAccountSettingsInvoices<'a>>,
    /// Settings that apply across payment methods for charging on the account.
    pub payments: Option<PaymentsSettingsSpecs<'a>>,
    /// Settings specific to the account's payouts.
    pub payouts: Option<UpdateAccountSettingsPayouts<'a>>,
    /// Settings specific to the account's Treasury FinancialAccounts.
    pub treasury: Option<TreasurySettingsSpecs<'a>>,
}

impl<'a> UpdateAccountSettings<'a> {
    pub fn new() -> (out: Self)
        ensures
            out == (UpdateAccountSettings { bacs_debit_payments: None, branding: None, card_issuing: None, card_payments: None, invoices: None, payments: None, payouts: None, treasury: None }),
    {
        Self { bacs_debit_payments: None, branding: None, card_issuing: None, card_payments: None, invoices: None, payments: None, payouts: None, treasury: None, }
    }
}

impl<'a> Default for UpdateAccountSettings<'a> {
    fn default() -> (out: Self)
        ensures
            out == (UpdateAccountSettings { bacs_debit_payments: None, branding: None, card_issuing: None, card_payments: None, invoices: None, payments: None, payouts: None, treasury: None }),
    {
        Self::new()
    }
}

/// Settings specific to the account's use of Invoices.
#[derive(Copy, Clone, Debug)]
pub struct UpdateAccountSettingsInvoices<'a> {
    /// The list of default Account Tax IDs to automatically include on invoices.
    /// Account Tax IDs get added when an invoice is finalized.
    pub default_account_tax_ids: Option<&'a [&'a str]>,
}

impl<'a> UpdateAccountSettingsInvoices<'a> {
    pub fn new() -> (out: Self)
        ensures
            out == (UpdateAccountSettingsInvoices { default_account_tax_ids: None }),
    {
        Self { default_account_tax_ids: None }
    }
}

impl<'a> Default for UpdateAccountSettingsInvoices<'a> {
    fn default() -> (out: Self)
        ensures
            out == (UpdateAccountSettingsInvoices { default_account_tax_ids: None }),
    {
        Self::new()
    }
}

/// Settings specific to the account's payouts.
#[derive(Copy, Clone, Debug)]
pub struct UpdateAccountSettingsPayouts<'a> {
    /// A Boolean indicating whether Stripe should try to reclaim negative balances from an attached bank account.
    /// For details, see [Understanding Connect Account Balances](https://docs.stripe.com/connect/account-balances).
    pub debit_negative_balances: Option<bool>,
    /// Details on when funds from charges are available, and when they are paid out to an external account.
    /// For details, see our [Setting Bank and Debit Card Payouts](https://docs.stripe.com/connect/bank-transfers#payout-information) documentation.
    pub schedule: Option<UpdateAccountSettingsPayoutsSchedule>,
    /// The text that appears on the bank account statement for payouts.
    /// If not set, this defaults to the platform's bank descriptor as set in the Dashboard.
    pub statement_descriptor: Option<&'a str>,
}

impl<'a> UpdateAccountSettingsPayouts<'a> {
    pub fn new() -> (out: Self)
        ensures
            out == (UpdateAccountSettingsPayouts { debit_negative_balances: None, schedule: None, statement_descriptor: None }),
    {
        Self { debit_negative_balances: None, schedule: None, statement_descriptor: None }
    }
}

impl<'a> Default for UpdateAccountSettingsPayouts<'a> {
    fn default() -> (out: Self)
        ensures
            out == (UpdateAccountSettingsPayouts { debit_negative_balances: None, schedule: None, statement_descriptor: None }),
    {
        Self::new()
    }
}

/// Details on when funds from charges are available, and when they are paid out to an external account.
/// For details, see our [Setting Bank and Debit Card Payouts](https://docs.stripe.com/connect/bank-transfers#payout-information) documentation.
#[derive(Copy, Clone, Debug)]
pub struct UpdateAccountSettingsPayoutsSchedule {
    /// The number of days charge funds are held before being paid out.
    /// May also be set to `minimum`, representing the lowest available value for the account country.
    /// Default is `minimum`.
    /// The `delay_days` parameter remains at the last configured value if `interval` is `manual`.
    /// [Learn more about controlling payout delay days](https://docs.stripe.com/connect/manage-payout-schedule).
    pub delay_days: Option<UpdateAccountSettingsPayoutsScheduleDelayDays>,
    /// How frequently available funds are paid out.
    /// One of: `daily`, `manual`, `weekly`, or `monthly`.
    /// Default is `daily`.
    pub interval: Option<UpdateAccountSettingsPayoutsScheduleInterval>,
    /// The day of the month when available funds are paid out, specified as a number between 1--31.
    /// Payouts nominally scheduled between the 29th and 31st of the month are instead sent on the last day of a shorter month.
    /// Required and applicable only if `interval` is `monthly`.
    pub monthly_anchor: Option<u8>,
    /// The day of the week when available funds are paid out, specified as `monday`, `tuesday`, etc.
    /// (required and applicable only if `interval` is `weekly`.).
    pub weekly_anchor: Option<UpdateAccountSettingsPayoutsScheduleWeeklyAnchor>,
}

impl UpdateAccountSettingsPayoutsSchedule {
    pub fn new() -> (out: Self)
        ensures
            out == (UpdateAccountSettingsPayoutsSchedule { delay_days: None, interval: None, monthly_anchor: None, weekly_anchor: None }),
    {
        Self { delay_days: None, interval: None, monthly_anchor: None, weekly_anchor: None }
    }
}

impl Default for UpdateAccountSettingsPayoutsSchedule {
    fn default() -> (out: Self)
        ensures
            out == (UpdateAccountSettingsPayoutsSchedule { delay_days: None, interval: None, monthly_anchor: None, weekly_anchor: None }),
    {
        Self::new()
    }
}

/// The number of days charge funds are held before being paid out.
/// May also be set to `minimum`, representing the lowest available value for the account country.
/// Default is `minimum`.
/// The `delay_days` parameter remains at the last configured value if `interval` is `manual`.
/// [Learn more about controlling payout delay days](https://docs.stripe.com/connect/manage-payout-schedule).
#[derive(Copy, Clone, Debug)]
pub enum UpdateAccountSettingsPayoutsScheduleDelayDays {
    Minimum,
    U32(u32),
}

/// How frequently available funds are paid out.
/// One of: `daily`, `manual`, `weekly`, or `monthly`.
/// Default is `daily`.
#[derive(Copy, Clone, Debug, PartialEq, Eq, Structural)]
pub enum UpdateAccountSettingsPayoutsScheduleInterval {
    Daily,
    Manual,
    Monthly,
    Weekly,
}

impl UpdateAccountSettingsPayoutsScheduleInterval {
    /// The name of the value on the wire.
    pub open spec fn wire_name(self) -> Seq<char> {
        match self {
            UpdateAccountSettingsPayoutsScheduleInterval::Daily => "daily"@,
            UpdateAccountSettingsPayoutsScheduleInterval::Manual => "manual"@,
            UpdateAccountSettingsPayoutsScheduleInterval::Monthly => "monthly"@,
            UpdateAccountSettingsPayoutsScheduleInterval::Weekly => "weekly"@,
        }
    }

    pub fn as_str(self) -> (name: &'static str)
        ensures
            name@ == self.wire_name(),
    {
        match self {
            UpdateAccountSettingsPayoutsScheduleInterval::Daily => "daily",
            UpdateAccountSettingsPayoutsScheduleInterval::Manual => "manual",
            UpdateAccountSettingsPayoutsScheduleInterval::Monthly => "monthly",
            UpdateAccountSettingsPayoutsScheduleInterval::Weekly => "weekly",
        }
    }
}

impl std::str::FromStr for UpdateAccountSettingsPayoutsScheduleInterval {
    type Err = StripeParseError;

    /// Reads a wire name; fails on a string that is the name of no value.
    fn from_str(s: &str) -> (parsed: Result<Self, Self::Err>)
        ensures
            match parsed {
                Ok(v) => v.wire_name() == s@,
                Err(_) => forall|v: UpdateAccountSettingsPayoutsScheduleInterval| #[trigger] v.wire_name() != s@,
            },
    {
        if str_eq(s, "daily") {
            Ok(UpdateAccountSettingsPayoutsScheduleInterval::Daily)
        } else if str_eq(s, "manual") {
            Ok(UpdateAccountSettingsPayoutsScheduleInterval::Manual)
        } else if str_eq(s, "monthly") {
            Ok(UpdateAccountSettingsPayoutsScheduleInterval::Monthly)
        } else if str_eq(s, "weekly") {
            Ok(UpdateAccountSettingsPayoutsScheduleInterval::Weekly)
        } else {
            Err(StripeParseError)
        }
    }
}

/// Two values of `UpdateAccountSettingsPayoutsScheduleInterval` with one wire name are the same value, so
/// reading back what `as_str` gives returns the value it was called on.
pub proof fn lemma_update_account_settings_payouts_schedule_interval_wire_names_differ(a: UpdateAccountSettingsPayoutsScheduleInterval, b: UpdateAccountSettingsPayoutsScheduleInterval)
    requires
        a.wire_name() == b.wire_name(),
    ensures
        a == b,
{
    reveal_strlit("daily");
    reveal_strlit("manual");
    reveal_strlit("monthly");
    reveal_strlit("weekly");
    assert("daily"@.len() == 5);
    assert("manual"@.len() == 6);
    assert("monthly"@.len() == 7);
    assert("weekly"@.len() == 6);
    assert("manual"@[0] != "weekly"@[0]);
}

/// The day of the week when available funds are paid out, specified as `monday`, `tuesday`, etc.
/// (required and applicable only if `interval` is `weekly`.).
#[derive(Copy, Clone, Debug, PartialEq, Eq, Structural)]
pub enum UpdateAccountSettingsPayoutsScheduleWeeklyAnchor {
    Friday,
    Monday,
    Saturday,
    Sunday,
    Thursday,
    Tuesday,
    Wednesday,
}

impl UpdateAccountSettingsPayoutsScheduleWeeklyAnchor {
    /// The name of the value on the wire.
    pub open spec fn wire_name(self) -> Seq<char> {
        match self {
            UpdateAccountSettingsPayoutsScheduleWeeklyAnchor::Friday => "friday"@,
            UpdateAccountSettingsPayoutsScheduleWeeklyAnchor::Monday => "monday"@,
            UpdateAccountSettingsPayoutsScheduleWeeklyAnchor::Saturday => "saturday"@,
            UpdateAccountSettingsPayoutsScheduleWeeklyAnchor::Sunday => "sunday"@,
            UpdateAccountSettingsPayoutsScheduleWeeklyAnchor::Thursday => "thursday"@,
            UpdateAccountSettingsPayoutsScheduleWeeklyAnchor::Tuesday => "tuesday"@,
            UpdateAccountSettingsPayoutsScheduleWeeklyAnchor::Wednesday => "wednesday"@,
        }
    }

    pub fn as_str(self) -> (name: &'static str)
        ensures
            name@ == self.wire_name(),
    {
        match self {
            UpdateAccountSettingsPayoutsScheduleWeeklyAnchor::Friday => "friday",
            UpdateAccountSettingsPayoutsScheduleWeeklyAnchor::Monday => "monday",
            UpdateAccountSettingsPayoutsScheduleWeeklyAnchor::Saturday => "saturday",
            UpdateAccountSettingsPayoutsScheduleWeeklyAnchor::Sunday => "sunday",
            UpdateAccountSettingsPayoutsScheduleWeeklyAnchor::Thursday => "thursday",
            UpdateAccountSettingsPayoutsScheduleWeeklyAnchor::Tuesday => "tuesday",
            UpdateAccountSettingsPayoutsScheduleWeeklyAnchor::Wednesday => "wednesday",
        }
    }
}

impl std::str::FromStr for UpdateAccountSettingsPayoutsScheduleWeeklyAnchor {
    type Err = StripeParseError;

    /// Reads a wire name; fails on a string that is the name of no value.
    fn from_str(s: &str) -> (parsed: Result<Self, Self::Err>)
        ensures
            match parsed {
                Ok(v) => v.wire_name() == s@,
                Err(_) => forall|v: UpdateAccountSettingsPayoutsScheduleWeeklyAnchor| #[trigger] v.wire_name() != s@,
            },
    {
        if str_eq(s, "friday") {
            Ok(UpdateAccountSettingsPayoutsScheduleWeeklyAnchor::Friday)
        } else if str_eq(s, "monday") {
            Ok(UpdateAccountSettingsPayoutsScheduleWeeklyAnchor::Monday)
        } else if str_eq(s, "saturday") {
            Ok(UpdateAccountSettingsPayoutsScheduleWeeklyAnchor::Saturday)
        } else if str_eq(s, "sunday") {
            Ok(UpdateAccountSettingsPayoutsScheduleWeeklyAnchor::Sunday)
        } else if str_eq(s, "thursday") {
            Ok(UpdateAccountSettingsPayoutsScheduleWeeklyAnchor::Thursday)
        } else if str_eq(s, "tuesday") {
            Ok(UpdateAccountSettingsPayoutsScheduleWeeklyAnchor::Tuesday)
        } else if str_eq(s, "wednesday") {
            Ok(UpdateAccountSettingsPayoutsScheduleWeeklyAnchor::Wednesday)
        } else {
            Err(StripeParseError)
        }
    }
}

/// Two values of `UpdateAccountSettingsPayoutsScheduleWeeklyAnchor` with one wire name are the same value, so
/// reading back what `as_str` gives returns the value it was called on.
pub proof fn lemma_update_account_settings_payouts_schedule_weekly_anchor_wire_names_differ(a: UpdateAccountSettingsPayoutsScheduleWeeklyAnchor, b: UpdateAccountSettingsPayoutsScheduleWeeklyAnchor)
    requires
        a.wire_name() == b.wire_name(),
    ensures
        a == b,
{
    reveal_strlit("friday");
    reveal_strlit("monday");
    reveal_strlit("saturday");
    reveal_strlit("sunday");
    reveal_strlit("thursday");
    reveal_strlit("tuesday");
    reveal_strlit("wednesday");
    assert("friday"@.len() == 6);
    assert("monday"@.len() == 6);
    assert("saturday"@.len() == 8);
    assert("sunday"@.len() == 6);
    assert("thursday"@.len() == 8);
    assert("tuesday"@.len() == 7);
    assert("wednesday"@.len() == 9);
    assert("friday"@[0] != "monday"@[0]);
    assert("friday"@[0] != "sunday"@[0]);
    assert("monday"@[0] != "sunday"@[0]);
    assert("saturday"@[0] != "thursday"@[0]);
}

/// Updates a <a href="/connect/accounts">connected account</a> by setting the values of the parameters passed.
/// Any parameters not provided are.
/// left unchanged.
///
/// For accounts where <a href="/api/accounts/object#account_object-controller-requirement_collection">controller.requirement_collection</a>.
/// is `application`, which includes Custom accounts, you can update any information on the account.
///
/// For accounts where <a href="/api/accounts/object#account_object-controller-requirement_collection">controller.requirement_collection</a>.
/// is `stripe`, which includes Standard and Express accounts, you can update all information until you create.
/// an <a href="/api/account_links">Account Link</a> or <a href="/api/account_sessions">Account Session</a> to start Connect onboarding,.
/// after which some properties can no longer be updated.
///
/// To update your own account, use the [Dashboard](https://dashboard.stripe.com/settings/account).
/// Refer to our.
/// [Connect](https://stripe.com/docs/connect/updating-accounts) documentation to learn more about updating accounts.
#[derive(Clone, Debug)]
pub struct UpdateAccount<'a> {
    pub inner: UpdateAccountBuilder<'a>,
    pub account: &'a AccountId,
}

impl<'a> UpdateAccount<'a> {
    /// Construct a new `UpdateAccount`.
    pub fn new(account: &'a AccountId) -> (out: Self)
        ensures
            out == (UpdateAccount { account: account, inner: UpdateAccountBuilder { account_token: None, business_profile: None, business_type: None, capabilities: None, company: None, default_currency: None, documents: None, email: None, expand: None, external_account: None, individual: None, metadata: None, settings: None, tos_acceptance: None } }),
    {
        Self { account, inner: UpdateAccountBuilder::new() }
    }

    /// An [account token](https://stripe.com/docs/api#create_account_token), used to securely provide details to the account.
    pub fn account_token(self, account_token: &'a str) -> (out: Self)
        ensures
            out == (UpdateAccount { inner: (UpdateAccountBuilder { account_token: Some(account_token), ..self.inner }), ..self }),
    {
        let mut out = self;
        out.inner.account_token = Some(account_token);
        out
    }

    /// Business information about the account.
    pub fn business_profile(self, business_profile: BusinessProfileSpecs<'a>) -> (out: Self)
        ensures
            out == (UpdateAccount { inner: (UpdateAccountBuilder { business_profile: Some(business_profile), ..self.inner }), ..self }),
    {
        let mut out = self;
        out.inner.business_profile = Some(business_profile);
        out
    }

    /// The business type.
    /// Once you create an [Account Link](/api/account_links) or [Account Session](/api/account_sessions), this property can only be updated for accounts where [controller.requirement_collection](/api/accounts/object#account_object-controller-requirement_collection) is `application`, which includes Custom accounts.
    pub fn business_type(self, business_type: AccountBusinessType) -> (out: Self)
        ensures
            out == (UpdateAccount { inner: (UpdateAccountBuilder { business_type: Some(business_type), ..self.inner }), ..self }),
    {
        let mut out = self;
        out.inner.business_type = Some(business_type);
        out
    }

    /// Each key of the dictionary represents a capability, and each capability
    /// maps to its settings (for example, whether it has been requested or not). Each
    /// capability is inactive until you have provided its specific
    /// requirements and Stripe has verified them. An account might have some
    /// of its requested capabilities be active and some be inactive.
    ///
    /// Required when [account.controller.stripe_dashboard.type](/api/accounts/create#create_account-controller-dashboard-type).
    /// is `none`, which includes Custom accounts.
    pub fn capabilities(self, capabilities: CapabilitiesParam) -> (out: Self)
        ensures
            out == (UpdateAccount { inner: (UpdateAccountBuilder { capabilities: Some(capabilities), ..self.inner }), ..self }),
    {
        let mut out = self;
        out.inner.capabilities = Some(capabilities);
        out
    }

    /// Information about the company or business.
    /// This field is available for any `business_type`.
    /// Once you create an [Account Link](/api/account_links) or [Account Session](/api/account_sessions), this property can only be updated for accounts where [controller.requirement_collection](/api/accounts/object#account_object-controller-requirement_collection) is `application`, which includes Custom accounts.
    pub fn company(self, company: UpdateAccountCompany<'a>) -> (out: Self)
        ensures
            out == (UpdateAccount { inner: (UpdateAccountBuilder { company: Some(company), ..self.inner }), ..self }),
    {
        let mut out = self;
        out.inner.company = Some(company);
        out
    }

    /// Three-letter ISO currency code representing the default currency for the account.
    /// This must be a currency that [Stripe supports in the account's country](https://docs.stripe.com/payouts).
    pub fn default_currency(self, default_currency: Currency) -> (out: Self)
        ensures
            out == (UpdateAccount { inner: (UpdateAccountBuilder { default_currency: Some(default_currency), ..self.inner }), ..self }),
    {
        let mut out = self;
        out.inner.default_currency = Some(default_currency);
        out
    }

    /// Documents that may be submitted to satisfy various informational requests.
    pub fn documents(self, documents: DocumentsSpecs<'a>) -> (out: Self)
        ensures
            out == (UpdateAccount { inner: (UpdateAccountBuilder { documents: Some(documents), ..self.inner }), ..self }),
    {
        let mut out = self;
        out.inner.documents = Some(documents);
        out
    }

    /// The email address of the account holder.
    /// This is only to make the account easier to identify to you.
    /// If [controller.requirement_collection](/api/accounts/object#account_object-controller-requirement_collection) is `application`, which includes Custom accounts, Stripe doesn't email the account without your consent.
    pub fn email(self, email: &'a str) -> (out: Self)
        ensures
            out == (UpdateAccount { inner: (UpdateAccountBuilder { email: Some(email), ..self.inner }), ..self }),
    {
        let mut out = self;
        out.inner.email = Some(email);
        out
    }

    /// Specifies which fields in the response should be expanded.
    pub fn expand(self, expand: &'a [&'a str]) -> (out: Self)
        ensures
            out == (UpdateAccount { inner: (UpdateAccountBuilder { expand: Some(expand), ..self.inner }), ..self }),
    {
        let mut out = self;
        out.inner.expand = Some(expand);
        out
    }

    /// A card or bank account to attach to the account for receiving [payouts](/connect/bank-debit-card-payouts) (you won't be able to use it for top-ups).
    /// You can provide either a token, like the ones returned by [Stripe.js](/js), or a dictionary, as documented in the `external_account` parameter for [bank account](/api#account_create_bank_account) creation.
    ///
    ///
    /// By default, providing an external account sets it as the new default external account for its currency, and deletes the old default if one exists.
    /// To add additional external accounts without replacing the existing default for the currency, use the [bank account](/api#account_create_bank_account) or [card creation](/api#account_create_card) APIs.
    /// After you create an [Account Link](/api/account_links) or [Account Session](/api/account_sessions), this property can only be updated for accounts where [controller.requirement_collection](/api/accounts/object#account_object-controller-requirement_collection) is `application`, which includes Custom accounts.
    pub fn external_account(self, external_account: &'a str) -> (out: Self)
        ensures
            out == (UpdateAccount { inner: (UpdateAccountBuilder { external_account: Some(external_account), ..self.inner }), ..self }),
    {
        let mut out = self;
        out.inner.external_account = Some(external_account);
        out
    }

    /// Information about the person represented by the account.
    /// This field is null unless `business_type` is set to `individual`.
    /// Once you create an [Account Link](/api/account_links) or [Account Session](/api/account_sessions), this property can only be updated for accounts where [controller.requirement_collection](/api/accounts/object#account_object-controller-requirement_collection) is `application`, which includes Custom accounts.
    pub fn individual(self, individual: UpdateAccountIndividual<'a>) -> (out: Self)
        ensures
            out == (UpdateAccount { inner: (UpdateAccountBuilder { individual: Some(individual), ..self.inner }), ..self }),
    {
        let mut out = self;
        out.inner.individual = Some(individual);
        out
    }

    /// Set of [key-value pairs](https://stripe.com/docs/api/metadata) that you can attach to an object.
    /// This can be useful for storing additional information about the object in a structured format.
    /// Individual keys can be unset by posting an empty value to them.
    /// All keys can be unset by posting an empty value to `metadata`.
    pub fn metadata(self, metadata: &'a HashMap<String, String>) -> (out: Self)
        ensures
            out == (UpdateAccount { inner: (UpdateAccountBuilder { metadata: Some(metadata), ..self.inner }), ..self }),
    {
        let mut out = self;
        out.inner.metadata = Some(metadata);
        out
    }

    /// Options for customizing how the account functions within Stripe.
    pub fn settings(self, settings: UpdateAccountSettings<'a>) -> (out: Self)
        ensures
            out == (UpdateAccount { inner: (UpdateAccountBuilder { settings: Some(settings), ..self.inner }), ..self }),
    {
        let mut out = self;
        out.inner.settings = Some(settings);
        out
    }

    /// Details on the account's acceptance of the [Stripe Services Agreement](/connect/updating-accounts#tos-acceptance).
    /// This property can only be updated for accounts where [controller.requirement_collection](/api/accounts/object#account_object-controller-requirement_collection) is `application`, which includes Custom accounts.
    pub fn tos_acceptance(self, tos_acceptance: TosAcceptanceSpecs<'a>) -> (out: Self)
        ensures
            out == (UpdateAccount { inner: (UpdateAccountBuilder { tos_acceptance: Some(tos_acceptance), ..self.inner }), ..self }),
    {
        let mut out = self;
        out.inner.tos_acceptance = Some(tos_acceptance);
        out
    }
}

impl StripeRequest for UpdateAccount<'_> {
    open spec fn call(&self) -> RequestModel {
        RequestModel { method: StripeMethod::Post, path: "/accounts/"@ + self.account@, query: None, body: None, idempotency_key: None }
    }

    fn build(&self) -> (request: RequestDescription) {
        let mut path = String::from_str("/accounts/");
        path.append(self.account.as_str());
        RequestDescription::new(StripeMethod::Post, path)
    }
}

#[derive(Copy, Clone, Debug)]
pub struct RejectAccountBuilder<'a> {
    pub expand: Option<&'a [&'a str]>,
    pub reason: &'a str,
}

impl<'a> RejectAccountBuilder<'a> {
    pub fn new(reason: &'a str) -> (out: Self)
        ensures
            out == (RejectAccountBuilder { expand: None, reason: reason }),
    {
        Self { expand: None, reason }
    }
}

/// With <a href="/connect">Connect</a>, you can reject accounts that you have flagged as suspicious.
///
/// Only accounts where your platform is liable for negative account balances, which includes Custom and Express accounts, can be rejected.
/// Test-mode accounts can be rejected at any time.
/// Live-mode accounts can only be rejected after all balances are zero.
#[derive(Clone, Debug)]
pub struct RejectAccount<'a> {
    pub inner: RejectAccountBuilder<'a>,
    pub account: &'a AccountId,
}

impl<'a> RejectAccount<'a> {
    /// Construct a new `RejectAccount`.
    pub fn new(account: &'a AccountId, reason: &'a str) -> (out: Self)
        ensures
            out == (RejectAccount { account: account, inner: RejectAccountBuilder { expand: None, reason: reason } }),
    {
        Self { account, inner: RejectAccountBuilder::new(reason) }
    }

    /// Specifies which fields in the response should be expanded.
    pub fn expand(self, expand: &'a [&'a str]) -> (out: Self)
        ensures
            out == (RejectAccount { inner: (RejectAccountBuilder { expand: Some(expand), ..self.inner }), ..self }),
    {
        let mut out = self;
        out.inner.expand = Some(expand);
        out
    }
}

impl StripeRequest for RejectAccount<'_> {
    open spec fn call(&self) -> RequestModel {
        RequestModel { method: StripeMethod::Post, path: "/accounts/"@ + self.account@ + "/reject"@, query: None, body: None, idempotency_key: None }
    }

    fn build(&self) -> (request: RequestDescription) {
        let mut path = String::from_str("/accounts/");
        path.append(self.account.as_str());
        path.append("/reject");
        RequestDescription::new(StripeMethod::Post, path)
    }
}

#[derive(Copy, Clone, Debug)]
pub struct AnnualRevenueSpecs<'a> {
    /// A non-negative integer representing the amount in the [smallest currency unit](https://docs.stripe.com/currencies#zero-decimal).
    pub amount: i64,
    /// Three-letter [ISO currency code](https://www.iso.org/iso-4217-currency-codes.html), in lowercase.
    /// Must be a [supported currency](https://stripe.com/docs/currencies).
    pub currency: Currency,
    /// The close-out date of the preceding fiscal year in ISO 8601 format.
    /// E.g.
    /// 2023-12-31 for the 31st of December, 2023.
    pub fiscal_year_end: &'a str,
}

impl<'a> AnnualRevenueSpecs<'a> {
    pub fn new(amount: i64, currency: Currency, fiscal_year_end: &'a str) -> (out: Self)
        ensures
            out == (AnnualRevenueSpecs { amount: amount, currency: currency, fiscal_year_end: fiscal_year_end }),
    {
        Self { amount, currency, fiscal_year_end }
    }
}

#[derive(Copy, Clone, Debug)]
pub struct MonthlyEstimatedRevenueSpecs {
    /// A non-negative integer representing how much to charge in the [smallest currency unit](https://docs.stripe.com/currencies#zero-decimal).
    pub amount: i64,
    /// Three-letter [ISO currency code](https://www.iso.org/iso-4217-currency-codes.html), in lowercase.
    /// Must be a [supported currency](https://stripe.com/docs/currencies).
    pub currency: Currency,
}

impl MonthlyEstimatedRevenueSpecs {
    pub fn new(amount: i64, currency: Currency) -> (out: Self)
        ensures
            out == (MonthlyEstimatedRevenueSpecs { amount: amount, currency: currency }),
    {
        Self { amount, currency }
    }
}

#[derive(Copy, Clone, Debug)]
pub struct AddressSpecs<'a> {
    /// City, district, suburb, town, or village.
    pub city: Option<&'a str>,
    /// Two-letter country code ([ISO 3166-1 alpha-2](https://en.wikipedia.org/wiki/ISO_3166-1_alpha-2)).
    pub country: Option<&'a str>,
    /// Address line 1 (e.g., street, PO Box, or company name).
    pub line1: Option<&'a str>,
    /// Address line 2 (e.g., apartment, suite, unit, or building).
    pub line2: Option<&'a str>,
    /// ZIP or postal code.
    pub postal_code: Option<&'a str>,
    /// State, county, province, or region.
    pub state: Option<&'a str>,
}

impl<'a> AddressSpecs<'a> {
    pub fn new() -> (out: Self)
        ensures
            out == (AddressSpecs { city: None, country: None, line1: None, line2: None, postal_code: None, state: None }),
    {
        Self { city: None, country: None, line1: None, line2: None, postal_code: None, state: None }
    }
}

impl<'a> Default for AddressSpecs<'a> {
    fn default() -> (out: Self)
        ensures
            out == (AddressSpecs { city: None, country: None, line1: None, line2: None, postal_code: None, state: None }),
    {
        Self::new()
    }
}

#[derive(Copy, Clone, Debug)]
pub struct CapabilityParam {
    /// Passing true requests the capability for the account, if it is not already requested.
    /// A requested capability may not immediately become active.
    /// Any requirements to activate the capability are returned in the `requirements` arrays.
    pub requested: Option<bool>,
}

impl CapabilityParam {
    pub fn new() -> (out: Self)
        ensures
            out == (CapabilityParam { requested: None }),
    {
        Self { requested: None }
    }
}

impl Default for CapabilityParam {
    fn default() -> (out: Self)
        ensures
            out == (CapabilityParam { requested: None }),
    {
        Self::new()
    }
}

#[derive(Copy, Clone, Debug)]
pub struct CompanyOwnershipDeclaration<'a> {
    /// The Unix timestamp marking when the beneficial owner attestation was made.
    pub date: Option<Timestamp>,
    /// The IP address from which the beneficial owner attestation was made.
    pub ip: Option<&'a str>,
    /// The user agent of the browser from which the beneficial owner attestation was made.
    pub user_agent: Option<&'a str>,
}

impl<'a> CompanyOwnershipDeclaration<'a> {
    pub fn new() -> (out: Self)
        ensures
            out == (CompanyOwnershipDeclaration { date: None, ip: None, user_agent: None }),
    {
        Self { date: None, ip: None, user_agent: None }
    }
}

impl<'a> Default for CompanyOwnershipDeclaration<'a> {
    fn default() -> (out: Self)
        ensures
            out == (CompanyOwnershipDeclaration { date: None, ip: None, user_agent: None }),
    {
        Self::new()
    }
}

#[derive(Copy, Clone, Debug)]
pub struct VerificationDocumentSpecs<'a> {
    /// The back of a document returned by a [file upload](https://stripe.com/docs/api#create_file) with a `purpose` value of `additional_verification`.
    /// The uploaded file needs to be a color image (smaller than 8,000px by 8,000px), in JPG, PNG, or PDF format, and less than 10 MB in size.
    pub back: Option<&'a str>,
    /// The front of a document returned by a [file upload](https://stripe.com/docs/api#create_file) with a `purpose` value of `additional_verification`.
    /// The uploaded file needs to be a color image (smaller than 8,000px by 8,000px), in JPG, PNG, or PDF format, and less than 10 MB in size.
    pub front: Option<&'a str>,
}

impl<'a> VerificationDocumentSpecs<'a> {
    pub fn new() -> (out: Self)
        ensures
            out == (VerificationDocumentSpecs { back: None, front: None }),
    {
        Self { back: None, front: None }
    }
}

impl<'a> Default for VerificationDocumentSpecs<'a> {
    fn default() -> (out: Self)
        ensures
            out == (VerificationDocumentSpecs { back: None, front: None }),
    {
        Self::new()
    }
}

#[derive(Copy, Clone, Debug)]
pub struct DocumentsParam<'a> {
    /// One or more document ids returned by a [file upload](https://stripe.com/docs/api#create_file) with a `purpose` value of `account_requirement`.
    pub files: Option<&'a [&'a str]>,
}

impl<'a> DocumentsParam<'a> {
    pub fn new() -> (out: Self)
        ensures
            out == (DocumentsParam { files: None }),
    {
        Self { files: None }
    }
}

impl<'a> Default for DocumentsParam<'a> {
    fn default() -> (out: Self)
        ensures
            out == (DocumentsParam { files: None }),
    {
        Self::new()
    }
}

#[derive(Copy, Clone, Debug)]
pub struct DateOfBirthSpecs {
    /// The day of birth, between 1 and 31.
    pub day: i64,
    /// The month of birth, between 1 and 12.
    pub month: i64,
    /// The four-digit year of birth.
    pub year: i64,
}

impl DateOfBirthSpecs {
    pub fn new(day: i64, month: i64, year: i64) -> (out: Self)
        ensures
            out == (DateOfBirthSpecs { day: day, month: month, year: year }),
    {
        Self { day, month, year }
    }
}

#[derive(Copy, Clone, Debug)]
pub struct IndividualRelationshipSpecs<'a> {
    /// Whether the person is a director of the account's legal entity.
    /// Directors are typically members of the governing board of the company, or responsible for ensuring the company meets its regulatory obligations.
    pub director: Option<bool>,
    /// Whether the person has significant responsibility to control, manage, or direct the organization.
    pub executive: Option<bool>,
    /// Whether the person is an owner of the account's legal entity.
    pub owner: Option<bool>,
    /// The percent owned by the person of the account's legal entity.
    /// Written as a decimal number.
    pub percent_ownership: Option<&'a str>,
    /// The person's title (e.g., CEO, Support Engineer).
    pub title: Option<&'a str>,
}

impl<'a> IndividualRelationshipSpecs<'a> {
    pub fn new() -> (out: Self)
        ensures
            out == (IndividualRelationshipSpecs { director: None, executive: None, owner: None, percent_ownership: None, title: None }),
    {
        Self { director: None, executive: None, owner: None, percent_ownership: None, title: None }
    }
}

impl<'a> Default for IndividualRelationshipSpecs<'a> {
    fn default() -> (out: Self)
        ensures
            out == (IndividualRelationshipSpecs { director: None, executive: None, owner: None, percent_ownership: None, title: None }),
    {
        Self::new()
    }
}

#[derive(Copy, Clone, Debug)]
pub struct PersonVerificationDocumentSpecs<'a> {
    /// The back of an ID returned by a [file upload](https://stripe.com/docs/api#create_file) with a `purpose` value of `identity_document`.
    /// The uploaded file needs to be a color image (smaller than 8,000px by 8,000px), in JPG, PNG, or PDF format, and less than 10 MB in size.
    pub back: Option<&'a str>,
    /// The front of an ID returned by a [file upload](https://stripe.com/docs/api#create_file) with a `purpose` value of `identity_document`.
    /// The uploaded file needs to be a color image (smaller than 8,000px by 8,000px), in JPG, PNG, or PDF format, and less than 10 MB in size.
    pub front: Option<&'a str>,
}

impl<'a> PersonVerificationDocumentSpecs<'a> {
    pub fn new() -> (out: Self)
        ensures
            out == (PersonVerificationDocumentSpecs { back: None, front: None }),
    {
        Self { back: None, front: None }
    }
}

impl<'a> Default for PersonVerificationDocumentSpecs<'a> {
    fn default() -> (out: Self)
        ensures
            out == (PersonVerificationDocumentSpecs { back: None, front: None }),
    {
        Self::new()
    }
}

#[derive(Copy, Clone, Debug)]
pub struct BacsDebitPaymentsSpecs<'a> {
    /// The Bacs Direct Debit Display Name for this account.
    /// For payments made with Bacs Direct Debit, this name appears on the mandate as the statement descriptor.
    /// Mobile banking apps display it as the name of the business.
    /// To use custom branding, set the Bacs Direct Debit Display Name during or right after creation.
    /// Custom branding incurs an additional monthly fee for the platform.
    /// If you don't set the display name before requesting Bacs capability, it's automatically set as "Stripe" and the account is onboarded to Stripe branding, which is free.
    pub display_name: Option<&'a str>,
}

impl<'a> BacsDebitPaymentsSpecs<'a> {
    pub fn new() -> (out: Self)
        ensures
            out == (BacsDebitPaymentsSpecs { display_name: None }),
    {
        Self { display_name: None }
    }
}

impl<'a> Default for BacsDebitPaymentsSpecs<'a> {
    fn default() -> (out: Self)
        ensures
            out == (BacsDebitPaymentsSpecs { display_name: None }),
    {
        Self::new()
    }
}

#[derive(Copy, Clone, Debug)]
pub struct BrandingSettingsSpecs<'a> {
    /// (ID of a [file upload](https://stripe.com/docs/guides/file-upload)) An icon for the account.
    /// Must be square and at least 128px x 128px.
    pub icon: Option<&'a str>,
    /// (ID of a [file upload](https://stripe.com/docs/guides/file-upload)) A logo for the account that will be used in Checkout instead of the icon and without the account's name next to it if provided.
    /// Must be at least 128px x 128px.
    pub logo: Option<&'a str>,
    /// A CSS hex color value representing the primary branding color for this account.
    pub primary_color: Option<&'a str>,
    /// A CSS hex color value representing the secondary branding color for this account.
    pub secondary_color: Option<&'a str>,
}

impl<'a> BrandingSettingsSpecs<'a> {
    pub fn new() -> (out: Self)
        ensures
            out == (BrandingSettingsSpecs { icon: None, logo: None, primary_color: None, secondary_color: None }),
    {
        Self { icon: None, logo: None, primary_color: None, secondary_color: None }
    }
}

impl<'a> Default for BrandingSettingsSpecs<'a> {
    fn default() -> (out: Self)
        ensures
            out == (BrandingSettingsSpecs { icon: None, logo: None, primary_color: None, secondary_color: None }),
    {
        Self::new()
    }
}

#[derive(Copy, Clone, Debug)]
pub struct SettingsTermsOfServiceSpecs<'a> {
    /// The Unix timestamp marking when the account representative accepted the service agreement.
    pub date: Option<Timestamp>,
    /// The IP address from which the account representative accepted the service agreement.
    pub ip: Option<&'a str>,
    /// The user agent of the browser from which the account representative accepted the service agreement.
    pub user_agent: Option<&'a str>,
}

impl<'a> SettingsTermsOfServiceSpecs<'a> {
    pub fn new() -> (out: Self)
        ensures
            out == (SettingsTermsOfServiceSpecs { date: None, ip: None, user_agent: None }),
    {
        Self { date: None, ip: None, user_agent: None }
    }
}

impl<'a> Default for SettingsTermsOfServiceSpecs<'a> {
    fn default() -> (out: Self)
        ensures
            out == (SettingsTermsOfServiceSpecs { date: None, ip: None, user_agent: None }),
    {
        Self::new()
    }
}

#[derive(Copy, Clone, Debug)]
pub struct DeclineChargeOnSpecs {
    /// Whether Stripe automatically declines charges with an incorrect ZIP or postal code.
    /// This setting only applies when a ZIP or postal code is provided and they fail bank verification.
    pub avs_failure: Option<bool>,
    /// Whether Stripe automatically declines charges with an incorrect CVC.
    /// This setting only applies when a CVC is provided and it fails bank verification.
    pub cvc_failure: Option<bool>,
}

impl DeclineChargeOnSpecs {
    pub fn new() -> (out: Self)
        ensures
            out == (DeclineChargeOnSpecs { avs_failure: None, cvc_failure: None }),
    {
        Self { avs_failure: None, cvc_failure: None }
    }
}

impl Default for DeclineChargeOnSpecs {
    fn default() -> (out: Self)
        ensures
            out == (DeclineChargeOnSpecs { avs_failure: None, cvc_failure: None }),
    {
        Self::new()
    }
}

#[derive(Copy, Clone, Debug)]
pub struct PaymentsSettingsSpecs<'a> {
    /// The default text that appears on credit card statements when a charge is made.
    /// This field prefixes any dynamic `statement_descriptor` specified on the charge.
    pub statement_descriptor: Option<&'a str>,
    /// The Kana variation of the default text that appears on credit card statements when a charge is made (Japan only).
    pub statement_descriptor_kana: Option<&'a str>,
    /// The Kanji variation of the default text that appears on credit card statements when a charge is made (Japan only).
    pub statement_descriptor_kanji: Option<&'a str>,
}

impl<'a> PaymentsSettingsSpecs<'a> {
    pub fn new() -> (out: Self)
        ensures
            out == (PaymentsSettingsSpecs { statement_descriptor: None, statement_descriptor_kana: None, statement_descriptor_kanji: None }),
    {
        Self { statement_descriptor: None, statement_descriptor_kana: None, statement_descriptor_kanji: None, }
    }
}

impl<'a> Default for PaymentsSettingsSpecs<'a> {
    fn default() -> (out: Self)
        ensures
            out == (PaymentsSettingsSpecs { statement_descriptor: None, statement_descriptor_kana: None, statement_descriptor_kanji: None }),
    {
        Self::new()
    }
}

#[derive(Copy, Clone, Debug)]
pub struct TosAcceptanceSpecs<'a> {
    /// The Unix timestamp marking when the account representative accepted their service agreement.
    pub date: Option<Timestamp>,
    /// The IP address from which the account representative accepted their service agreement.
    pub ip: Option<&'a str>,
    /// The user's service agreement type.
    pub service_agreement: Option<&'a str>,
    /// The user agent of the browser from which the account representative accepted their service agreement.
    pub user_agent: Option<&'a str>,
}

impl<'a> TosAcceptanceSpecs<'a> {
    pub fn new() -> (out: Self)
        ensures
            out == (TosAcceptanceSpecs { date: None, ip: None, service_agreement: None, user_agent: None }),
    {
        Self { date: None, ip: None, service_agreement: None, user_agent: None }
    }
}

impl<'a> Default for TosAcceptanceSpecs<'a> {
    fn default() -> (out: Self)
        ensures
            out == (TosAcceptanceSpecs { date: None, ip: None, service_agreement: None, user_agent: None }),
    {
        Self::new()
    }
}

#[derive(Copy, Clone, Debug)]
pub struct BusinessProfileSpecs<'a> {
    /// The applicant's gross annual revenue for its preceding fiscal year.
    pub annual_revenue: Option<AnnualRevenueSpecs<'a>>,
    /// An estimated upper bound of employees, contractors, vendors, etc.
    /// currently working for the business.
    pub estimated_worker_count: Option<u64>,
    /// [The merchant category code for the account](https://docs.stripe.com/connect/setting-mcc).
    /// MCCs are used to classify businesses based on the goods or services they provide.
    pub mcc: Option<&'a str>,
    /// An estimate of the monthly revenue of the business. Only accepted for accounts in Brazil and India.
    pub monthly_estimated_revenue: Option<MonthlyEstimatedRevenueSpecs>,
    /// The customer-facing business name.
    pub name: Option<&'a str>,
    /// Internal-only description of the product sold by, or service provided by, the business.
    /// Used by Stripe for risk and underwriting purposes.
    pub product_description: Option<&'a str>,
    /// A publicly available mailing address for sending support issues to.
    pub support_address: Option<AddressSpecs<'a>>,
    /// A publicly available email address for sending support issues to.
    pub support_email: Option<&'a str>,
    /// A publicly available phone number to call with support issues.
    pub support_phone: Option<&'a str>,
    /// A publicly available website for handling support issues.
    pub support_url: Option<&'a str>,
    /// The business's publicly available website.
    pub url: Option<&'a str>,
}

impl<'a> BusinessProfileSpecs<'a> {
    pub fn new() -> (out: Self)
        ensures
            out == (BusinessProfileSpecs { annual_revenue: None, estimated_worker_count: None, mcc: None, monthly_estimated_revenue: None, name: None, product_description: None, support_address: None, support_email: None, support_phone: None, support_url: None, url: None }),
    {
        Self { annual_revenue: None, estimated_worker_count: None, mcc: None, monthly_estimated_revenue: None, name: None, product_description: None, support_address: None, support_email: None, support_phone: None, support_url: None, url: None, }
    }
}

impl<'a> Default for BusinessProfileSpecs<'a> {
    fn default() -> (out: Self)
        ensures
            out == (BusinessProfileSpecs { annual_revenue: None, estimated_worker_count: None, mcc: None, monthly_estimated_revenue: None, name: None, product_description: None, support_address: None, support_email: None, support_phone: None, support_url: None, url: None }),
    {
        Self::new()
    }
}

#[derive(Copy, Clone, Debug)]
pub struct CapabilitiesParam {
    /// The acss_debit_payments capability.
    pub acss_debit_payments: Option<CapabilityParam>,
    /// The affirm_payments capability.
    pub affirm_payments: Option<CapabilityParam>,
    /// The afterpay_clearpay_payments capability.
    pub afterpay_clearpay_payments: Option<CapabilityParam>,
    /// The amazon_pay_payments capability.
    pub amazon_pay_payments: Option<CapabilityParam>,
    /// The au_becs_debit_payments capability.
    pub au_becs_debit_payments: Option<CapabilityParam>,
    /// The bacs_debit_payments capability.
    pub bacs_debit_payments: Option<CapabilityParam>,
    /// The bancontact_payments capability.
    pub bancontact_payments: Option<CapabilityParam>,
    /// The bank_transfer_payments capability.
    pub bank_transfer_payments: Option<CapabilityParam>,
    /// The blik_payments capability.
    pub blik_payments: Option<CapabilityParam>,
    /// The boleto_payments capability.
    pub boleto_payments: Option<CapabilityParam>,
    /// The card_issuing capability.
    pub card_issuing: Option<CapabilityParam>,
    /// The card_payments capability.
    pub card_payments: Option<CapabilityParam>,
    /// The cartes_bancaires_payments capability.
    pub cartes_bancaires_payments: Option<CapabilityParam>,
    /// The cashapp_payments capability.
    pub cashapp_payments: Option<CapabilityParam>,
    /// The eps_payments capability.
    pub eps_payments: Option<CapabilityParam>,
    /// The fpx_payments capability.
    pub fpx_payments: Option<CapabilityParam>,
    /// The giropay_payments capability.
    pub giropay_payments: Option<CapabilityParam>,
    /// The grabpay_payments capability.
    pub grabpay_payments: Option<CapabilityParam>,
    /// The ideal_payments capability.
    pub ideal_payments: Option<CapabilityParam>,
    /// The india_international_payments capability.
    pub india_international_payments: Option<CapabilityParam>,
    /// The jcb_payments capability.
    pub jcb_payments: Option<CapabilityParam>,
    /// The klarna_payments capability.
    pub klarna_payments: Option<CapabilityParam>,
    /// The konbini_payments capability.
    pub konbini_payments: Option<CapabilityParam>,
    /// The legacy_payments capability.
    pub legacy_payments: Option<CapabilityParam>,
    /// The link_payments capability.
    pub link_payments: Option<CapabilityParam>,
    /// The mobilepay_payments capability.
    pub mobilepay_payments: Option<CapabilityParam>,
    /// The oxxo_payments capability.
    pub oxxo_payments: Option<CapabilityParam>,
    /// The p24_payments capability.
    pub p24_payments: Option<CapabilityParam>,
    /// The paynow_payments capability.
    pub paynow_payments: Option<CapabilityParam>,
    /// The promptpay_payments capability.
    pub promptpay_payments: Option<CapabilityParam>,
    /// The revolut_pay_payments capability.
    pub revolut_pay_payments: Option<CapabilityParam>,
    /// The sepa_debit_payments capability.
    pub sepa_debit_payments: Option<CapabilityParam>,
    /// The sofort_payments capability.
    pub sofort_payments: Option<CapabilityParam>,
    /// The swish_payments capability.
    pub swish_payments: Option<CapabilityParam>,
    /// The tax_reporting_us_1099_k capability.
    pub tax_reporting_us_1099_k: Option<CapabilityParam>,
    /// The tax_reporting_us_1099_misc capability.
    pub tax_reporting_us_1099_misc: Option<CapabilityParam>,
    /// The transfers capability.
    pub transfers: Option<CapabilityParam>,
    /// The treasury capability.
    pub treasury: Option<CapabilityParam>,
    /// The us_bank_account_ach_payments capability.
    pub us_bank_account_ach_payments: Option<CapabilityParam>,
    /// The zip_payments capability.
    pub zip_payments: Option<CapabilityParam>,
}

impl CapabilitiesParam {
    pub fn new() -> (out: Self)
        ensures
            out == (CapabilitiesParam { acss_debit_payments: None, affirm_payments: None, afterpay_clearpay_payments: None, amazon_pay_payments: None, au_becs_debit_payments: None, bacs_debit_payments: None, bancontact_payments: None, bank_transfer_payments: None, blik_payments: None, boleto_payments: None, card_issuing: None, card_payments: None, cartes_bancaires_payments: None, cashapp_payments: None, eps_payments: None, fpx_payments: None, giropay_payments: None, grabpay_payments: None, ideal_payments: None, india_international_payments: None, jcb_payments: None, klarna_payments: None, konbini_payments: None, legacy_payments: None, link_payments: None, mobilepay_payments: None, oxxo_payments: None, p24_payments: None, paynow_payments: None, promptpay_payments: None, revolut_pay_payments: None, sepa_debit_payments: None, sofort_payments: None, swish_payments: None, tax_reporting_us_1099_k: None, tax_reporting_us_1099_misc: None, transfers: None, treasury: None, us_bank_account_ach_payments: None, zip_payments: None }),
    {
        Self { acss_debit_payments: None, affirm_payments: None, afterpay_clearpay_payments: None, amazon_pay_payments: None, au_becs_debit_payments: None, bacs_debit_payments: None, bancontact_payments: None, bank_transfer_payments: None, blik_payments: None, boleto_payments: None, card_issuing: None, card_payments: None, cartes_bancaires_payments: None, cashapp_payments: None, eps_payments: None, fpx_payments: None, giropay_payments: None, grabpay_payments: None, ideal_payments: None, india_international_payments: None, jcb_payments: None, klarna_payments: None, konbini_payments: None, legacy_payments: None, link_payments: None, mobilepay_payments: None, oxxo_payments: None, p24_payments: None, paynow_payments: None, promptpay_payments: None, revolut_pay_payments: None, sepa_debit_payments: None, sofort_payments: None, swish_payments: None, tax_reporting_us_1099_k: None, tax_reporting_us_1099_misc: None, transfers: None, treasury: None, us_bank_account_ach_payments: None, zip_payments: None, }
    }
}

impl Default for CapabilitiesParam {
    fn default() -> (out: Self)
        ensures
            out == (CapabilitiesParam { acss_debit_payments: None, affirm_payments: None, afterpay_clearpay_payments: None, amazon_pay_payments: None, au_becs_debit_payments: None, bacs_debit_payments: None, bancontact_payments: None, bank_transfer_payments: None, blik_payments: None, boleto_payments: None, card_issuing: None, card_payments: None, cartes_bancaires_payments: None, cashapp_payments: None, eps_payments: None, fpx_payments: None, giropay_payments: None, grabpay_payments: None, ideal_payments: None, india_international_payments: None, jcb_payments: None, klarna_payments: None, konbini_payments: None, legacy_payments: None, link_payments: None, mobilepay_payments: None, oxxo_payments: None, p24_payments: None, paynow_payments: None, promptpay_payments: None, revolut_pay_payments: None, sepa_debit_payments: None, sofort_payments: None, swish_payments: None, tax_reporting_us_1099_k: None, tax_reporting_us_1099_misc: None, transfers: None, treasury: None, us_bank_account_ach_payments: None, zip_payments: None }),
    {
        Self::new()
    }
}

#[derive(Copy, Clone, Debug)]
pub struct VerificationSpecs<'a> {
    /// A document verifying the business.
    pub document: Option<VerificationDocumentSpecs<'a>>,
}

impl<'a> VerificationSpecs<'a> {
    pub fn new() -> (out: Self)
        ensures
            out == (VerificationSpecs { document: None }),
    {
        Self { document: None }
    }
}

impl<'a> Default for VerificationSpecs<'a> {
    fn default() -> (out: Self)
        ensures
            out == (VerificationSpecs { document: None }),
    {
        Self::new()
    }
}

#[derive(Copy, Clone, Debug)]
pub struct DocumentsSpecs<'a> {
    /// One or more documents that support the [Bank account ownership verification](https://support.stripe.com/questions/bank-account-ownership-verification) requirement.
    /// Must be a document associated with the account's primary active bank account that displays the last 4 digits of the account number, either a statement or a voided check.
    pub bank_account_ownership_verification: Option<DocumentsParam<'a>>,
    /// One or more documents that demonstrate proof of a company's license to operate.
    pub company_license: Option<DocumentsParam<'a>>,
    /// One or more documents showing the company's Memorandum of Association.
    pub company_memorandum_of_association: Option<DocumentsParam<'a>>,
    /// (Certain countries only) One or more documents showing the ministerial decree legalizing the company's establishment.
    pub company_ministerial_decree: Option<DocumentsParam<'a>>,
    /// One or more documents that demonstrate proof of a company's registration with the appropriate local authorities.
    pub company_registration_verification: Option<DocumentsParam<'a>>,
    /// One or more documents that demonstrate proof of a company's tax ID.
    pub company_tax_id_verification: Option<DocumentsParam<'a>>,
    /// One or more documents showing the company's proof of registration with the national business registry.
    pub proof_of_registration: Option<DocumentsParam<'a>>,
}

impl<'a> DocumentsSpecs<'a> {
    pub fn new() -> (out: Self)
        ensures
            out == (DocumentsSpecs { bank_account_ownership_verification: None, company_license: None, company_memorandum_of_association: None, company_ministerial_decree: None, company_registration_verification: None, company_tax_id_verification: None, proof_of_registration: None }),
    {
        Self { bank_account_ownership_verification: None, company_license: None, company_memorandum_of_association: None, company_ministerial_decree: None, company_registration_verification: None, company_tax_id_verification: None, proof_of_registration: None, }
    }
}

impl<'a> Default for DocumentsSpecs<'a> {
    fn default() -> (out: Self)
        ensures
            out == (DocumentsSpecs { bank_account_ownership_verification: None, company_license: None, company_memorandum_of_association: None, company_ministerial_decree: None, company_registration_verification: None, company_tax_id_verification: None, proof_of_registration: None }),
    {
        Self::new()
    }
}

#[derive(Copy, Clone, Debug)]
pub struct PersonVerificationSpecs<'a> {
    /// A document showing address, either a passport, local ID card, or utility bill from a well-known utility company.
    pub additional_document: Option<PersonVerificationDocumentSpecs<'a>>,
    /// An identifying document, either a passport or local ID card.
    pub document: Option<PersonVerificationDocumentSpecs<'a>>,
}

impl<'a> PersonVerificationSpecs<'a> {
    pub fn new() -> (out: Self)
        ensures
            out == (PersonVerificationSpecs { additional_document: None, document: None }),
    {
        Self { additional_document: None, document: None }
    }
}

impl<'a> Default for PersonVerificationSpecs<'a> {
    fn default() -> (out: Self)
        ensures
            out == (PersonVerificationSpecs { additional_document: None, document: None }),
    {
        Self::new()
    }
}

#[derive(Copy, Clone, Debug)]
pub struct CardIssuingSettingsSpecs<'a> {
    /// Details on the account's acceptance of the [Stripe Issuing Terms and Disclosures](https://docs.stripe.com/issuing/connect/tos_acceptance).
    pub tos_acceptance: Option<SettingsTermsOfServiceSpecs<'a>>,
}

impl<'a> CardIssuingSettingsSpecs<'a> {
    pub fn new() -> (out: Self)
        ensures
            out == (CardIssuingSettingsSpecs { tos_acceptance: None }),
    {
        Self { tos_acceptance: None }
    }
}

impl<'a> Default for CardIssuingSettingsSpecs<'a> {
    fn default() -> (out: Self)
        ensures
            out == (CardIssuingSettingsSpecs { tos_acceptance: None }),
    {
        Self::new()
    }
}

#[derive(Copy, Clone, Debug)]
pub struct CardPaymentsSettingsSpecs<'a> {
    /// Automatically declines certain charge types regardless of whether the card issuer accepted or declined the charge.
    pub decline_on: Option<DeclineChargeOnSpecs>,
    /// The default text that appears on credit card statements when a charge is made.
    /// This field prefixes any dynamic `statement_descriptor` specified on the charge.
    /// `statement_descriptor_prefix` is useful for maximizing descriptor space for the dynamic portion.
    pub statement_descriptor_prefix: Option<&'a str>,
    /// The Kana variation of the default text that appears on credit card statements when a charge is made (Japan only).
    /// This field prefixes any dynamic `statement_descriptor_suffix_kana` specified on the charge.
    /// `statement_descriptor_prefix_kana` is useful for maximizing descriptor space for the dynamic portion.
    pub statement_descriptor_prefix_kana: Option<&'a str>,
    /// The Kanji variation of the default text that appears on credit card statements when a charge is made (Japan only).
    /// This field prefixes any dynamic `statement_descriptor_suffix_kanji` specified on the charge.
    /// `statement_descriptor_prefix_kanji` is useful for maximizing descriptor space for the dynamic portion.
    pub statement_descriptor_prefix_kanji: Option<&'a str>,
}

impl<'a> CardPaymentsSettingsSpecs<'a> {
    pub fn new() -> (out: Self)
        ensures
            out == (CardPaymentsSettingsSpecs { decline_on: None, statement_descriptor_prefix: None, statement_descriptor_prefix_kana: None, statement_descriptor_prefix_kanji: None }),
    {
        Self { decline_on: None, statement_descriptor_prefix: None, statement_descriptor_prefix_kana: None, statement_descriptor_prefix_kanji: None, }
    }
}

impl<'a> Default for CardPaymentsSettingsSpecs<'a> {
    fn default() -> (out: Self)
        ensures
            out == (CardPaymentsSettingsSpecs { decline_on: None, statement_descriptor_prefix: None, statement_descriptor_prefix_kana: None, statement_descriptor_prefix_kanji: None }),
    {
        Self::new()
    }
}

#[derive(Copy, Clone, Debug)]
pub struct TreasurySettingsSpecs<'a> {
    /// Details on the account's acceptance of the Stripe Treasury Services Agreement.
    pub tos_acceptance: Option<SettingsTermsOfServiceSpecs<'a>>,
}

impl<'a> TreasurySettingsSpecs<'a> {
    pub fn new() -> (out: Self)
        ensures
            out == (TreasurySettingsSpecs { tos_acceptance: None }),
    {
        Self { tos_acceptance: None }
    }
}

impl<'a> Default for TreasurySettingsSpecs<'a> {
    fn default() -> (out: Self)
        ensures
            out == (TreasurySettingsSpecs { tos_acceptance: None }),
    {
        Self::new()
    }
}

} // verus!
