//! The errors of the library, and the decoding of the error body that the
//! remote service sends with a failed request.

use vstd::prelude::*;
use std::str::FromStr;
use crate::json::{decoded_member, member_from_value, FromValueOpt, Json, JsonValue};
use crate::text::str_eq;

verus! {

/// A string that is the wire name of no value of the enum asked for.
#[derive(Copy, Clone, Debug, PartialEq, Eq, Structural)]
pub struct StripeParseError;

/// The kind of error that the remote service reports: one of `api_error`,
/// `card_error`, `idempotency_error` and `invalid_request_error`.
#[derive(Copy, Clone, Debug, PartialEq, Eq, Structural)]
pub enum ApiErrorsType {
    ApiError,
    CardError,
    IdempotencyError,
    InvalidRequestError,
}

impl ApiErrorsType {
    /// The name of the value on the wire.
    pub open spec fn wire_name(self) -> Seq<char> {
        match self {
            ApiErrorsType::ApiError => "api_error"@,
            ApiErrorsType::CardError => "card_error"@,
            ApiErrorsType::IdempotencyError => "idempotency_error"@,
            ApiErrorsType::InvalidRequestError => "invalid_request_error"@,
        }
    }

    pub fn as_str(self) -> (name: &'static str)
        ensures
            name@ == self.wire_name(),
    {
        match self {
            ApiErrorsType::ApiError => "api_error",
            ApiErrorsType::CardError => "card_error",
            ApiErrorsType::IdempotencyError => "idempotency_error",
            ApiErrorsType::InvalidRequestError => "invalid_request_error",
        }
    }
}

impl std::str::FromStr for ApiErrorsType {
    type Err = StripeParseError;

    /// Reads a wire name; fails on a string that is the name of no value.
    fn from_str(s: &str) -> (parsed: Result<Self, Self::Err>)
        ensures
            match parsed {
                Ok(v) => v.wire_name() == s@,
                Err(_) => forall|v: ApiErrorsType| #[trigger] v.wire_name() != s@,
            },
    {
        if str_eq(s, "api_error") {
            Ok(ApiErrorsType::ApiError)
        } else if str_eq(s, "card_error") {
            Ok(ApiErrorsType::CardError)
        } else if str_eq(s, "idempotency_error") {
            Ok(ApiErrorsType::IdempotencyError)
        } else if str_eq(s, "invalid_request_error") {
            Ok(ApiErrorsType::InvalidRequestError)
        } else {
            Err(StripeParseError)
        }
    }
}

/// Two values of `ApiErrorsType` with one wire name are the same value, so
/// reading back what `as_str` gives returns the value it was called on.
pub proof fn lemma_api_errors_type_wire_names_differ(a: ApiErrorsType, b: ApiErrorsType)
    requires
        a.wire_name() == b.wire_name(),
    ensures
        a == b,
{
    reveal_strlit("api_error");
    reveal_strlit("card_error");
    reveal_strlit("idempotency_error");
    reveal_strlit("invalid_request_error");
    assert("api_error"@.len() == 9);
    assert("card_error"@.len() == 10);
    assert("idempotency_error"@.len() == 17);
    assert("invalid_request_error"@.len() == 21);
}

impl DeepView for ApiErrorsType {
    type V = ApiErrorsType;

    open spec fn deep_view(&self) -> ApiErrorsType {
        *self
    }
}

impl FromValueOpt for ApiErrorsType {
    /// A JSON string that is the wire name of a value decodes to that value.
    open spec fn decoded(json: Json) -> Option<ApiErrorsType> {
        match json {
            Json::String(s) => if exists|v: ApiErrorsType| #[trigger] v.wire_name() == s {
                Some(choose|v: ApiErrorsType| #[trigger] v.wire_name() == s)
            } else {
                None
            },
            _ => None,
        }
    }

    fn from_value(value: &JsonValue) -> (out: Option<ApiErrorsType>) {
        match value {
            JsonValue::String(s) => match ApiErrorsType::from_str(s.as_str()) {
                Ok(v) => {
                    proof {
                        let w = choose|w: ApiErrorsType| #[trigger] w.wire_name() == s@;
                        lemma_api_errors_type_wire_names_differ(v, w);
                    }
                    Some(v)
                },
                Err(_) => None,
            },
            _ => None,
        }
    }
}

/// The machine-readable code of an error of the remote service. The service
/// adds codes over time, so a code that the library does not know reads as
/// `Unknown` and never fails the decoding of an error.
#[derive(Copy, Clone, Debug, PartialEq, Eq, Structural)]
pub enum ApiErrorsCode {
    AccountAlreadyExists,
    AccountCountryInvalidAddress,
    AccountInvalid,
    AccountNumberInvalid,
    AmountTooLarge,
    AmountTooSmall,
    ApiKeyExpired,
    BalanceInsufficient,
    BankAccountDeclined,
    BankAccountExists,
    BankAccountUnusable,
    BankAccountUnverified,
    CardDeclined,
    ChargeAlreadyCaptured,
    ChargeAlreadyRefunded,
    ChargeDisputed,
    ChargeExpiredForCapture,
    CountryUnsupported,
    CouponExpired,
    CustomerMaxSubscriptions,
    EmailInvalid,
    ExpiredCard,
    IdempotencyKeyInUse,
    IncorrectAddress,
    IncorrectCvc,
    IncorrectNumber,
    IncorrectZip,
    InsufficientFunds,
    InvalidCardType,
    InvalidChargeAmount,
    InvalidCvc,
    InvalidExpiryMonth,
    InvalidExpiryYear,
    InvalidNumber,
    LivemodeMismatch,
    LockTimeout,
    Missing,
    ParameterInvalidEmpty,
    ParameterInvalidInteger,
    ParameterMissing,
    ParameterUnknown,
    ParametersExclusive,
    PaymentMethodUnactivated,
    ProcessingError,
    RateLimit,
    ResourceAlreadyExists,
    ResourceMissing,
    RoutingNumberInvalid,
    SecretKeyRequired,
    StateUnsupported,
    TaxIdInvalid,
    TestmodeChargesOnly,
    TokenAlreadyUsed,
    TokenInUse,
    TransfersNotAllowed,
    UrlInvalid,
    /// A value that this version of the library does not know.
    Unknown,
}

impl ApiErrorsCode {
    /// The name of the value on the wire.
    pub open spec fn wire_name(self) -> Seq<char> {
        match self {
            ApiErrorsCode::AccountAlreadyExists => "account_already_exists"@,
            ApiErrorsCode::AccountCountryInvalidAddress => "account_country_invalid_address"@,
            ApiErrorsCode::AccountInvalid => "account_invalid"@,
            ApiErrorsCode::AccountNumberInvalid => "account_number_invalid"@,
            ApiErrorsCode::AmountTooLarge => "amount_too_large"@,
            ApiErrorsCode::AmountTooSmall => "amount_too_small"@,
            ApiErrorsCode::ApiKeyExpired => "api_key_expired"@,
            ApiErrorsCode::BalanceInsufficient => "balance_insufficient"@,
            ApiErrorsCode::BankAccountDeclined => "bank_account_declined"@,
            ApiErrorsCode::BankAccountExists => "bank_account_exists"@,
            ApiErrorsCode::BankAccountUnusable => "bank_account_unusable"@,
            ApiErrorsCode::BankAccountUnverified => "bank_account_unverified"@,
            ApiErrorsCode::CardDeclined => "card_declined"@,
            ApiErrorsCode::ChargeAlreadyCaptured => "charge_already_captured"@,
            ApiErrorsCode::ChargeAlreadyRefunded => "charge_already_refunded"@,
            ApiErrorsCode::ChargeDisputed => "charge_disputed"@,
            ApiErrorsCode::ChargeExpiredForCapture => "charge_expired_for_capture"@,
            ApiErrorsCode::CountryUnsupported => "country_unsupported"@,
            ApiErrorsCode::CouponExpired => "coupon_expired"@,
            ApiErrorsCode::CustomerMaxSubscriptions => "customer_max_subscriptions"@,
            ApiErrorsCode::EmailInvalid => "email_invalid"@,
            ApiErrorsCode::ExpiredCard => "expired_card"@,
            ApiErrorsCode::IdempotencyKeyInUse => "idempotency_key_in_use"@,
            ApiErrorsCode::IncorrectAddress => "incorrect_address"@,
            ApiErrorsCode::IncorrectCvc => "incorrect_cvc"@,
            ApiErrorsCode::IncorrectNumber => "incorrect_number"@,
            ApiErrorsCode::IncorrectZip => "incorrect_zip"@,
            ApiErrorsCode::InsufficientFunds => "insufficient_funds"@,
            ApiErrorsCode::InvalidCardType => "invalid_card_type"@,
            ApiErrorsCode::InvalidChargeAmount => "invalid_charge_amount"@,
            ApiErrorsCode::InvalidCvc => "invalid_cvc"@,
            ApiErrorsCode::InvalidExpiryMonth => "invalid_expiry_month"@,
            ApiErrorsCode::InvalidExpiryYear => "invalid_expiry_year"@,
            ApiErrorsCode::InvalidNumber => "invalid_number"@,
            ApiErrorsCode::LivemodeMismatch => "livemode_mismatch"@,
            ApiErrorsCode::LockTimeout => "lock_timeout"@,
            ApiErrorsCode::Missing => "missing"@,
            ApiErrorsCode::ParameterInvalidEmpty => "parameter_invalid_empty"@,
            ApiErrorsCode::ParameterInvalidInteger => "parameter_invalid_integer"@,
            ApiErrorsCode::ParameterMissing => "parameter_missing"@,
            ApiErrorsCode::ParameterUnknown => "parameter_unknown"@,
            ApiErrorsCode::ParametersExclusive => "parameters_exclusive"@,
            ApiErrorsCode::PaymentMethodUnactivated => "payment_method_unactivated"@,
            ApiErrorsCode::ProcessingError => "processing_error"@,
            ApiErrorsCode::RateLimit => "rate_limit"@,
            ApiErrorsCode::ResourceAlreadyExists => "resource_already_exists"@,
            ApiErrorsCode::ResourceMissing => "resource_missing"@,
            ApiErrorsCode::RoutingNumberInvalid => "routing_number_invalid"@,
            ApiErrorsCode::SecretKeyRequired => "secret_key_required"@,
            ApiErrorsCode::StateUnsupported => "state_unsupported"@,
            ApiErrorsCode::TaxIdInvalid => "tax_id_invalid"@,
            ApiErrorsCode::TestmodeChargesOnly => "testmode_charges_only"@,
            ApiErrorsCode::TokenAlreadyUsed => "token_already_used"@,
            ApiErrorsCode::TokenInUse => "token_in_use"@,
            ApiErrorsCode::TransfersNotAllowed => "transfers_not_allowed"@,
            ApiErrorsCode::UrlInvalid => "url_invalid"@,
            ApiErrorsCode::Unknown => "unknown"@,
        }
    }

    pub fn as_str(self) -> (name: &'static str)
        ensures
            name@ == self.wire_name(),
    {
        match self {
            ApiErrorsCode::AccountAlreadyExists => "account_already_exists",
            ApiErrorsCode::AccountCountryInvalidAddress => "account_country_invalid_address",
            ApiErrorsCode::AccountInvalid => "account_invalid",
            ApiErrorsCode::AccountNumberInvalid => "account_number_invalid",
            ApiErrorsCode::AmountTooLarge => "amount_too_large",
            ApiErrorsCode::AmountTooSmall => "amount_too_small",
            ApiErrorsCode::ApiKeyExpired => "api_key_expired",
            ApiErrorsCode::BalanceInsufficient => "balance_insufficient",
            ApiErrorsCode::BankAccountDeclined => "bank_account_declined",
            ApiErrorsCode::BankAccountExists => "bank_account_exists",
            ApiErrorsCode::BankAccountUnusable => "bank_account_unusable",
            ApiErrorsCode::BankAccountUnverified => "bank_account_unverified",
            ApiErrorsCode::CardDeclined => "card_declined",
            ApiErrorsCode::ChargeAlreadyCaptured => "charge_already_captured",
            ApiErrorsCode::ChargeAlreadyRefunded => "charge_already_refunded",
            ApiErrorsCode::ChargeDisputed => "charge_disputed",
            ApiErrorsCode::ChargeExpiredForCapture => "charge_expired_for_capture",
            ApiErrorsCode::CountryUnsupported => "country_unsupported",
            ApiErrorsCode::CouponExpired => "coupon_expired",
            ApiErrorsCode::CustomerMaxSubscriptions => "customer_max_subscriptions",
            ApiErrorsCode::EmailInvalid => "email_invalid",
            ApiErrorsCode::ExpiredCard => "expired_card",
            ApiErrorsCode::IdempotencyKeyInUse => "idempotency_key_in_use",
            ApiErrorsCode::IncorrectAddress => "incorrect_address",
            ApiErrorsCode::IncorrectCvc => "incorrect_cvc",
            ApiErrorsCode::IncorrectNumber => "incorrect_number",
            ApiErrorsCode::IncorrectZip => "incorrect_zip",
            ApiErrorsCode::InsufficientFunds => "insufficient_funds",
            ApiErrorsCode::InvalidCardType => "invalid_card_type",
            ApiErrorsCode::InvalidChargeAmount => "invalid_charge_amount",
            ApiErrorsCode::InvalidCvc => "invalid_cvc",
            ApiErrorsCode::InvalidExpiryMonth => "invalid_expiry_month",
            ApiErrorsCode::InvalidExpiryYear => "invalid_expiry_year",
            ApiErrorsCode::InvalidNumber => "invalid_number",
            ApiErrorsCode::LivemodeMismatch => "livemode_mismatch",
            ApiErrorsCode::LockTimeout => "lock_timeout",
            ApiErrorsCode::Missing => "missing",
            ApiErrorsCode::ParameterInvalidEmpty => "parameter_invalid_empty",
            ApiErrorsCode::ParameterInvalidInteger => "parameter_invalid_integer",
            ApiErrorsCode::ParameterMissing => "parameter_missing",
            ApiErrorsCode::ParameterUnknown => "parameter_unknown",
            ApiErrorsCode::ParametersExclusive => "parameters_exclusive",
            ApiErrorsCode::PaymentMethodUnactivated => "payment_method_unactivated",
            ApiErrorsCode::ProcessingError => "processing_error",
            ApiErrorsCode::RateLimit => "rate_limit",
            ApiErrorsCode::ResourceAlreadyExists => "resource_already_exists",
            ApiErrorsCode::ResourceMissing => "resource_missing",
            ApiErrorsCode::RoutingNumberInvalid => "routing_number_invalid",
            ApiErrorsCode::SecretKeyRequired => "secret_key_required",
            ApiErrorsCode::StateUnsupported => "state_unsupported",
            ApiErrorsCode::TaxIdInvalid => "tax_id_invalid",
            ApiErrorsCode::TestmodeChargesOnly => "testmode_charges_only",
            ApiErrorsCode::TokenAlreadyUsed => "token_already_used",
            ApiErrorsCode::TokenInUse => "token_in_use",
            ApiErrorsCode::TransfersNotAllowed => "transfers_not_allowed",
            ApiErrorsCode::UrlInvalid => "url_invalid",
            ApiErrorsCode::Unknown => "unknown",
        }
    }

    /// Whether `name` is the wire name of a value that the library knows.
    pub open spec fn is_known(name: Seq<char>) -> bool {
        exists|v: ApiErrorsCode| v != ApiErrorsCode::Unknown && #[trigger] v.wire_name() == name
    }
}

impl std::str::FromStr for ApiErrorsCode {
    type Err = StripeParseError;

    /// Reads a wire name. A name that the library does not know gives
    /// `Unknown`; the call never fails.
    fn from_str(s: &str) -> (parsed: Result<Self, Self::Err>)
        ensures
            parsed is Ok,
            parsed->Ok_0 != ApiErrorsCode::Unknown ==> parsed->Ok_0.wire_name() == s@,
            parsed->Ok_0 == ApiErrorsCode::Unknown ==> !ApiErrorsCode::is_known(s@),
    {
        if str_eq(s, "account_already_exists") {
            Ok(ApiErrorsCode::AccountAlreadyExists)
        } else if str_eq(s, "account_country_invalid_address") {
            Ok(ApiErrorsCode::AccountCountryInvalidAddress)
        } else if str_eq(s, "account_invalid") {
            Ok(ApiErrorsCode::AccountInvalid)
        } else if str_eq(s, "account_number_invalid") {
            Ok(ApiErrorsCode::AccountNumberInvalid)
        } else if str_eq(s, "amount_too_large") {
            Ok(ApiErrorsCode::AmountTooLarge)
        } else if str_eq(s, "amount_too_small") {
            Ok(ApiErrorsCode::AmountTooSmall)
        } else if str_eq(s, "api_key_expired") {
            Ok(ApiErrorsCode::ApiKeyExpired)
        } else if str_eq(s, "balance_insufficient") {
            Ok(ApiErrorsCode::BalanceInsufficient)
        } else if str_eq(s, "bank_account_declined") {
            Ok(ApiErrorsCode::BankAccountDeclined)
        } else if str_eq(s, "bank_account_exists") {
            Ok(ApiErrorsCode::BankAccountExists)
        } else if str_eq(s, "bank_account_unusable") {
            Ok(ApiErrorsCode::BankAccountUnusable)
        } else if str_eq(s, "bank_account_unverified") {
            Ok(ApiErrorsCode::BankAccountUnverified)
        } else if str_eq(s, "card_declined") {
            Ok(ApiErrorsCode::CardDeclined)
        } else if str_eq(s, "charge_already_captured") {
            Ok(ApiErrorsCode::ChargeAlreadyCaptured)
        } else if str_eq(s, "charge_already_refunded") {
            Ok(ApiErrorsCode::ChargeAlreadyRefunded)
        } else if str_eq(s, "charge_disputed") {
            Ok(ApiErrorsCode::ChargeDisputed)
        } else if str_eq(s, "charge_expired_for_capture") {
            Ok(ApiErrorsCode::ChargeExpiredForCapture)
        } else if str_eq(s, "country_unsupported") {
            Ok(ApiErrorsCode::CountryUnsupported)
        } else if str_eq(s, "coupon_expired") {
            Ok(ApiErrorsCode::CouponExpired)
        } else if str_eq(s, "customer_max_subscriptions") {
            Ok(ApiErrorsCode::CustomerMaxSubscriptions)
        } else if str_eq(s, "email_invalid") {
            Ok(ApiErrorsCode::EmailInvalid)
        } else if str_eq(s, "expired_card") {
            Ok(ApiErrorsCode::ExpiredCard)
        } else if str_eq(s, "idempotency_key_in_use") {
            Ok(ApiErrorsCode::IdempotencyKeyInUse)
        } else if str_eq(s, "incorrect_address") {
            Ok(ApiErrorsCode::IncorrectAddress)
        } else if str_eq(s, "incorrect_cvc") {
            Ok(ApiErrorsCode::IncorrectCvc)
        } else if str_eq(s, "incorrect_number") {
            Ok(ApiErrorsCode::IncorrectNumber)
        } else if str_eq(s, "incorrect_zip") {
            Ok(ApiErrorsCode::IncorrectZip)
        } else if str_eq(s, "insufficient_funds") {
            Ok(ApiErrorsCode::InsufficientFunds)
        } else if str_eq(s, "invalid_card_type") {
            Ok(ApiErrorsCode::InvalidCardType)
        } else if str_eq(s, "invalid_charge_amount") {
            Ok(ApiErrorsCode::InvalidChargeAmount)
        } else if str_eq(s, "invalid_cvc") {
            Ok(ApiErrorsCode::InvalidCvc)
        } else if str_eq(s, "invalid_expiry_month") {
            Ok(ApiErrorsCode::InvalidExpiryMonth)
        } else if str_eq(s, "invalid_expiry_year") {
            Ok(ApiErrorsCode::InvalidExpiryYear)
        } else if str_eq(s, "invalid_number") {
            Ok(ApiErrorsCode::InvalidNumber)
        } else if str_eq(s, "livemode_mismatch") {
            Ok(ApiErrorsCode::LivemodeMismatch)
        } else if str_eq(s, "lock_timeout") {
            Ok(ApiErrorsCode::LockTimeout)
        } else if str_eq(s, "missing") {
            Ok(ApiErrorsCode::Missing)
        } else if str_eq(s, "parameter_invalid_empty") {
            Ok(ApiErrorsCode::ParameterInvalidEmpty)
        } else if str_eq(s, "parameter_invalid_integer") {
            Ok(ApiErrorsCode::ParameterInvalidInteger)
        } else if str_eq(s, "parameter_missing") {
            Ok(ApiErrorsCode::ParameterMissing)
        } else if str_eq(s, "parameter_unknown") {
            Ok(ApiErrorsCode::ParameterUnknown)
        } else if str_eq(s, "parameters_exclusive") {
            Ok(ApiErrorsCode::ParametersExclusive)
        } else if str_eq(s, "payment_method_unactivated") {
            Ok(ApiErrorsCode::PaymentMethodUnactivated)
        } else if str_eq(s, "processing_error") {
            Ok(ApiErrorsCode::ProcessingError)
        } else if str_eq(s, "rate_limit") {
            Ok(ApiErrorsCode::RateLimit)
        } else if str_eq(s, "resource_already_exists") {
            Ok(ApiErrorsCode::ResourceAlreadyExists)
        } else if str_eq(s, "resource_missing") {
            Ok(ApiErrorsCode::ResourceMissing)
        } else if str_eq(s, "routing_number_invalid") {
            Ok(ApiErrorsCode::RoutingNumberInvalid)
        } else if str_eq(s, "secret_key_required") {
            Ok(ApiErrorsCode::SecretKeyRequired)
        } else if str_eq(s, "state_unsupported") {
            Ok(ApiErrorsCode::StateUnsupported)
        } else if str_eq(s, "tax_id_invalid") {
            Ok(ApiErrorsCode::TaxIdInvalid)
        } else if str_eq(s, "testmode_charges_only") {
            Ok(ApiErrorsCode::TestmodeChargesOnly)
        } else if str_eq(s, "token_already_used") {
            Ok(ApiErrorsCode::TokenAlreadyUsed)
        } else if str_eq(s, "token_in_use") {
            Ok(ApiErrorsCode::TokenInUse)
        } else if str_eq(s, "transfers_not_allowed") {
            Ok(ApiErrorsCode::TransfersNotAllowed)
        } else if str_eq(s, "url_invalid") {
            Ok(ApiErrorsCode::UrlInvalid)
        } else {
            assert forall|v: ApiErrorsCode| v != ApiErrorsCode::Unknown implies #[trigger] v.wire_name() != s@ by {}
            Ok(ApiErrorsCode::Unknown)
        }
    }
}

/// Two values of `ApiErrorsCode` with one wire name are the same value, so
/// reading back what `as_str` gives returns the value it was called on.
pub proof fn lemma_api_errors_code_wire_names_differ(a: ApiErrorsCode, b: ApiErrorsCode)
    requires
        a.wire_name() == b.wire_name(),
    ensures
        a == b,
{
    reveal_strlit("account_already_exists");
    reveal_strlit("account_country_invalid_address");
    reveal_strlit("account_invalid");
    reveal_strlit("account_number_invalid");
    reveal_strlit("amount_too_large");
    reveal_strlit("amount_too_small");
    reveal_strlit("api_key_expired");
    reveal_strlit("balance_insufficient");
    reveal_strlit("bank_account_declined");
    reveal_strlit("bank_account_exists");
    reveal_strlit("bank_account_unusable");
    reveal_strlit("bank_account_unverified");
    reveal_strlit("card_declined");
    reveal_strlit("charge_already_captured");
    reveal_strlit("charge_already_refunded");
    reveal_strlit("charge_disputed");
    reveal_strlit("charge_expired_for_capture");
    reveal_strlit("country_unsupported");
    reveal_strlit("coupon_expired");
    reveal_strlit("customer_max_subscriptions");
    reveal_strlit("email_invalid");
    reveal_strlit("expired_card");
    reveal_strlit("idempotency_key_in_use");
    reveal_strlit("incorrect_address");
    reveal_strlit("incorrect_cvc");
    reveal_strlit("incorrect_number");
    reveal_strlit("incorrect_zip");
    reveal_strlit("insufficient_funds");
    reveal_strlit("invalid_card_type");
    reveal_strlit("invalid_charge_amount");
    reveal_strlit("invalid_cvc");
    reveal_strlit("invalid_expiry_month");
    reveal_strlit("invalid_expiry_year");
    reveal_strlit("invalid_number");
    reveal_strlit("livemode_mismatch");
    reveal_strlit("lock_timeout");
    reveal_strlit("missing");
    reveal_strlit("parameter_invalid_empty");
    reveal_strlit("parameter_invalid_integer");
    reveal_strlit("parameter_missing");
    reveal_strlit("parameter_unknown");
    reveal_strlit("parameters_exclusive");
    reveal_strlit("payment_method_unactivated");
    reveal_strlit("processing_error");
    reveal_strlit("rate_limit");
    reveal_strlit("resource_already_exists");
    reveal_strlit("resource_missing");
    reveal_strlit("routing_number_invalid");
    reveal_strlit("secret_key_required");
    reveal_strlit("state_unsupported");
    reveal_strlit("tax_id_invalid");
    reveal_strlit("testmode_charges_only");
    reveal_strlit("token_already_used");
    reveal_strlit("token_in_use");
    reveal_strlit("transfers_not_allowed");
    reveal_strlit("url_invalid");
    reveal_strlit("unknown");
    assert("account_already_exists"@.len() == 22);
    assert("account_country_invalid_address"@.len() == 31);
    assert("account_invalid"@.len() == 15);
    assert("account_number_invalid"@.len() == 22);
    assert("amount_too_large"@.len() == 16);
    assert("amount_too_small"@.len() == 16);
    assert("api_key_expired"@.len() == 15);
    assert("balance_insufficient"@.len() == 20);
    assert("bank_account_declined"@.len() == 21);
    assert("bank_account_exists"@.len() == 19);
    assert("bank_account_unusable"@.len() == 21);
    assert("bank_account_unverified"@.len() == 23);
    assert("card_declined"@.len() == 13);
    assert("charge_already_captured"@.len() == 23);
    assert("charge_already_refunded"@.len() == 23);
    assert("charge_disputed"@.len() == 15);
    assert("charge_expired_for_capture"@.len() == 26);
    assert("country_unsupported"@.len() == 19);
    assert("coupon_expired"@.len() == 14);
    assert("customer_max_subscriptions"@.len() == 26);
    assert("email_invalid"@.len() == 13);
    assert("expired_card"@.len() == 12);
    assert("idempotency_key_in_use"@.len() == 22);
    assert("incorrect_address"@.len() == 17);
    assert("incorrect_cvc"@.len() == 13);
    assert("incorrect_number"@.len() == 16);
    assert("incorrect_zip"@.len() == 13);
    assert("insufficient_funds"@.len() == 18);
    assert("invalid_card_type"@.len() == 17);
    assert("invalid_charge_amount"@.len() == 21);
    assert("invalid_cvc"@.len() == 11);
    assert("invalid_expiry_month"@.len() == 20);
    assert("invalid_expiry_year"@.len() == 19);
    assert("invalid_number"@.len() == 14);
    assert("livemode_mismatch"@.len() == 17);
    assert("lock_timeout"@.len() == 12);
    assert("missing"@.len() == 7);
    assert("parameter_invalid_empty"@.len() == 23);
    assert("parameter_invalid_integer"@.len() == 25);
    assert("parameter_missing"@.len() == 17);
    assert("parameter_unknown"@.len() == 17);
    assert("parameters_exclusive"@.len() == 20);
    assert("payment_method_unactivated"@.len() == 26);
    assert("processing_error"@.len() == 16);
    assert("rate_limit"@.len() == 10);
    assert("resource_already_exists"@.len() == 23);
    assert("resource_missing"@.len() == 16);
    assert("routing_number_invalid"@.len() == 22);
    assert("secret_key_required"@.len() == 19);
    assert("state_unsupported"@.len() == 17);
    assert("tax_id_invalid"@.len() == 14);
    assert("testmode_charges_only"@.len() == 21);
    assert("token_already_used"@.len() == 18);
    assert("token_in_use"@.len() == 12);
    assert("transfers_not_allowed"@.len() == 21);
    assert("url_invalid"@.len() == 11);
    assert("unknown"@.len() == 7);
    assert("missing"@[0] != "unknown"@[0]);
    assert("invalid_cvc"@[0] != "url_invalid"@[0]);
    assert("expired_card"@[0] != "lock_timeout"@[0]);
    assert("expired_card"@[0] != "token_in_use"@[0]);
    assert("lock_timeout"@[0] != "token_in_use"@[0]);
    assert("card_declined"@[0] != "email_invalid"@[0]);
    assert("card_declined"@[0] != "incorrect_cvc"@[0]);
    assert("card_declined"@[0] != "incorrect_zip"@[0]);
    assert("email_invalid"@[0] != "incorrect_cvc"@[0]);
    assert("email_invalid"@[0] != "incorrect_zip"@[0]);
    assert("incorrect_cvc"@[10] != "incorrect_zip"@[10]);
    assert("coupon_expired"@[0] != "invalid_number"@[0]);
    assert("coupon_expired"@[0] != "tax_id_invalid"@[0]);
    assert("invalid_number"@[0] != "tax_id_invalid"@[0]);
    assert("account_invalid"@[1] != "api_key_expired"@[1]);
    assert("account_invalid"@[0] != "charge_disputed"@[0]);
    assert("api_key_expired"@[0] != "charge_disputed"@[0]);
    assert("amount_too_large"@[11] != "amount_too_small"@[11]);
    assert("amount_too_large"@[0] != "incorrect_number"@[0]);
    assert("amount_too_large"@[0] != "processing_error"@[0]);
    assert("amount_too_large"@[0] != "resource_missing"@[0]);
    assert("amount_too_small"@[0] != "incorrect_number"@[0]);
    assert("amount_too_small"@[0] != "processing_error"@[0]);
    assert("amount_too_small"@[0] != "resource_missing"@[0]);
    assert("incorrect_number"@[0] != "processing_error"@[0]);
    assert("incorrect_number"@[0] != "resource_missing"@[0]);
    assert("processing_error"@[0] != "resource_missing"@[0]);
    assert("incorrect_address"@[2] != "invalid_card_type"@[2]);
    assert("incorrect_address"@[0] != "livemode_mismatch"@[0]);
    assert("incorrect_address"@[0] != "parameter_missing"@[0]);
    assert("incorrect_address"@[0] != "parameter_unknown"@[0]);
    assert("incorrect_address"@[0] != "state_unsupported"@[0]);
    assert("invalid_card_type"@[0] != "livemode_mismatch"@[0]);
    assert("invalid_card_type"@[0] != "parameter_missing"@[0]);
    assert("invalid_card_type"@[0] != "parameter_unknown"@[0]);
    assert("invalid_card_type"@[0] != "state_unsupported"@[0]);
    assert("livemode_mismatch"@[0] != "parameter_missing"@[0]);
    assert("livemode_mismatch"@[0] != "parameter_unknown"@[0]);
    assert("livemode_mismatch"@[0] != "state_unsupported"@[0]);
    assert("parameter_missing"@[10] != "parameter_unknown"@[10]);
    assert("parameter_missing"@[0] != "state_unsupported"@[0]);
    assert("parameter_unknown"@[0] != "state_unsupported"@[0]);
    assert("insufficient_funds"@[0] != "token_already_used"@[0]);
    assert("bank_account_exists"@[0] != "country_unsupported"@[0]);
    assert("bank_account_exists"@[0] != "invalid_expiry_year"@[0]);
    assert("bank_account_exists"@[0] != "secret_key_required"@[0]);
    assert("country_unsupported"@[0] != "invalid_expiry_year"@[0]);
    assert("country_unsupported"@[0] != "secret_key_required"@[0]);
    assert("invalid_expiry_year"@[0] != "secret_key_required"@[0]);
    assert("balance_insufficient"@[0] != "invalid_expiry_month"@[0]);
    assert("balance_insufficient"@[0] != "parameters_exclusive"@[0]);
    assert("invalid_expiry_month"@[0] != "parameters_exclusive"@[0]);
    assert("bank_account_declined"@[13] != "bank_account_unusable"@[13]);
    assert("bank_account_declined"@[0] != "invalid_charge_amount"@[0]);
    assert("bank_account_declined"@[0] != "testmode_charges_only"@[0]);
    assert("bank_account_declined"@[0] != "transfers_not_allowed"@[0]);
    assert("bank_account_unusable"@[0] != "invalid_charge_amount"@[0]);
    assert("bank_account_unusable"@[0] != "testmode_charges_only"@[0]);
    assert("bank_account_unusable"@[0] != "transfers_not_allowed"@[0]);
    assert("invalid_charge_amount"@[0] != "testmode_charges_only"@[0]);
    assert("invalid_charge_amount"@[0] != "transfers_not_allowed"@[0]);
    assert("testmode_charges_only"@[1] != "transfers_not_allowed"@[1]);
    assert("account_already_exists"@[8] != "account_number_invalid"@[8]);
    assert("account_already_exists"@[0] != "idempotency_key_in_use"@[0]);
    assert("account_already_exists"@[0] != "routing_number_invalid"@[0]);
    assert("account_number_invalid"@[0] != "idempotency_key_in_use"@[0]);
    assert("account_number_invalid"@[0] != "routing_number_invalid"@[0]);
    assert("idempotency_key_in_use"@[0] != "routing_number_invalid"@[0]);
    assert("bank_account_unverified"@[0] != "charge_already_captured"@[0]);
    assert("bank_account_unverified"@[0] != "charge_already_refunded"@[0]);
    assert("bank_account_unverified"@[0] != "parameter_invalid_empty"@[0]);
    assert("bank_account_unverified"@[0] != "resource_already_exists"@[0]);
    assert("charge_already_captured"@[15] != "charge_already_refunded"@[15]);
    assert("charge_already_captured"@[0] != "parameter_invalid_empty"@[0]);
    assert("charge_already_captured"@[0] != "resource_already_exists"@[0]);
    assert("charge_already_refunded"@[0] != "parameter_invalid_empty"@[0]);
    assert("charge_already_refunded"@[0] != "resource_already_exists"@[0]);
    assert("parameter_invalid_empty"@[0] != "resource_already_exists"@[0]);
    assert("charge_expired_for_capture"@[1] != "customer_max_subscriptions"@[1]);
    assert("charge_expired_for_capture"@[0] != "payment_method_unactivated"@[0]);
    assert("customer_max_subscriptions"@[0] != "payment_method_unactivated"@[0]);
}

impl DeepView for ApiErrorsCode {
    type V = ApiErrorsCode;

    open spec fn deep_view(&self) -> ApiErrorsCode {
        *self
    }
}

impl FromValueOpt for ApiErrorsCode {
    /// A JSON string that is the wire name of a value decodes to that value.
    open spec fn decoded(json: Json) -> Option<ApiErrorsCode> {
        match json {
            Json::String(s) => if ApiErrorsCode::is_known(s) {
                Some(choose|v: ApiErrorsCode| v != ApiErrorsCode::Unknown && #[trigger] v.wire_name() == s)
            } else {
                Some(ApiErrorsCode::Unknown)
            },
            _ => None,
        }
    }

    fn from_value(value: &JsonValue) -> (out: Option<ApiErrorsCode>) {
        match value {
            JsonValue::String(s) => match ApiErrorsCode::from_str(s.as_str()) {
                Ok(v) => {
                    proof {
                        if v != ApiErrorsCode::Unknown {
                            let w = choose|w: ApiErrorsCode| w != ApiErrorsCode::Unknown && #[trigger] w.wire_name() == s@;
                            lemma_api_errors_code_wire_names_differ(v, w);
                        }
                    }
                    Some(v)
                },
                Err(_) => None,
            },
            _ => None,
        }
    }
}

/// The error that the remote service describes in the body of a failed
/// request.
#[derive(Debug)]
pub struct ApiErrors {
    /// For card errors, the ID of the failed charge.
    pub charge: Option<String>,
    /// For some errors that could be handled programmatically, a short string
    /// indicating the error code reported.
    pub code: Option<ApiErrorsCode>,
    /// For card errors resulting from a card issuer decline, a short string
    /// indicating the card issuer's reason for the decline if they provide one.
    pub decline_code: Option<String>,
    /// A URL to more information about the error code reported.
    pub doc_url: Option<String>,
    /// A human-readable message providing more details about the error.
    pub message: Option<String>,
    /// If the error is parameter-specific, the parameter related to the error.
    pub param: Option<String>,
    /// A URL to the request log entry in the dashboard.
    pub request_log_url: Option<String>,
    /// The type of error returned.
    pub type_: ApiErrorsType,
}

/// The model of an [`ApiErrors`].
pub struct ApiErrorsModel {
    pub charge: Option<Seq<char>>,
    pub code: Option<ApiErrorsCode>,
    pub decline_code: Option<Seq<char>>,
    pub doc_url: Option<Seq<char>>,
    pub message: Option<Seq<char>>,
    pub param: Option<Seq<char>>,
    pub request_log_url: Option<Seq<char>>,
    pub type_: ApiErrorsType,
}

impl DeepView for ApiErrors {
    type V = ApiErrorsModel;

    open spec fn deep_view(&self) -> ApiErrorsModel {
        ApiErrorsModel {
            charge: self.charge.deep_view(),
            code: self.code,
            decline_code: self.decline_code.deep_view(),
            doc_url: self.doc_url.deep_view(),
            message: self.message.deep_view(),
            param: self.param.deep_view(),
            request_log_url: self.request_log_url.deep_view(),
            type_: self.type_,
        }
    }
}

impl View for ApiErrors {
    type V = ApiErrorsModel;

    open spec fn view(&self) -> ApiErrorsModel {
        self.deep_view()
    }
}

/// The members of an [`ApiErrors`] as far as they have been read; `None`
/// stands for a member that is still missing.
#[derive(Debug)]
pub struct ApiErrorsBuilder {
    pub charge: Option<Option<String>>,
    pub code: Option<Option<ApiErrorsCode>>,
    pub decline_code: Option<Option<String>>,
    pub doc_url: Option<Option<String>>,
    pub message: Option<Option<String>>,
    pub param: Option<Option<String>>,
    pub request_log_url: Option<Option<String>>,
    pub type_: Option<ApiErrorsType>,
}

impl ApiErrorsBuilder {
    /// The builder before any member was read: every optional member is
    /// there and empty, the required `type` is missing.
    pub fn deser_default() -> (builder: Self)
        ensures
            builder.charge == Some(None::<String>),
            builder.code == Some(None::<ApiErrorsCode>),
            builder.decline_code == Some(None::<String>),
            builder.doc_url == Some(None::<String>),
            builder.message == Some(None::<String>),
            builder.param == Some(None::<String>),
            builder.request_log_url == Some(None::<String>),
            builder.type_ is None,
    {
        ApiErrorsBuilder {
            charge: Some(None),
            code: Some(None),
            decline_code: Some(None),
            doc_url: Some(None),
            message: Some(None),
            param: Some(None),
            request_log_url: Some(None),
            type_: None,
        }
    }

    /// Whether every member has been read.
    pub open spec fn is_complete(self) -> bool {
        &&& self.charge is Some
        &&& self.code is Some
        &&& self.decline_code is Some
        &&& self.doc_url is Some
        &&& self.message is Some
        &&& self.param is Some
        &&& self.request_log_url is Some
        &&& self.type_ is Some
    }

    /// The error that a complete builder holds.
    pub open spec fn output(self) -> ApiErrors {
        ApiErrors {
            charge: self.charge->Some_0,
            code: self.code->Some_0,
            decline_code: self.decline_code->Some_0,
            doc_url: self.doc_url->Some_0,
            message: self.message->Some_0,
            param: self.param->Some_0,
            request_log_url: self.request_log_url->Some_0,
            type_: self.type_->Some_0,
        }
    }

    /// Hands out the error once every member has been read.
    pub fn take_out(self) -> (out: Option<ApiErrors>)
        ensures
            out == if self.is_complete() {
                Some(self.output())
            } else {
                None
            },
    {
        Some(
            ApiErrors {
                charge: self.charge?,
                code: self.code?,
                decline_code: self.decline_code?,
                doc_url: self.doc_url?,
                message: self.message?,
                param: self.param?,
                request_log_url: self.request_log_url?,
                type_: self.type_?,
            },
        )
    }
}

impl FromValueOpt for ApiErrors {
    /// A JSON object decodes to an error where it has a `type` and every
    /// member that the error knows holds a value of the member's type; a
    /// missing optional member reads as `None`, members that the error does
    /// not know are passed over.
    open spec fn decoded(json: Json) -> Option<ApiErrorsModel> {
        let charge = decoded_member::<Option<String>>(json, "charge"@, Some(None));
        let code = decoded_member::<Option<ApiErrorsCode>>(json, "code"@, Some(None));
        let decline_code = decoded_member::<Option<String>>(json, "decline_code"@, Some(None));
        let doc_url = decoded_member::<Option<String>>(json, "doc_url"@, Some(None));
        let message = decoded_member::<Option<String>>(json, "message"@, Some(None));
        let param = decoded_member::<Option<String>>(json, "param"@, Some(None));
        let request_log_url = decoded_member::<Option<String>>(json, "request_log_url"@, Some(None));
        let type_ = decoded_member::<ApiErrorsType>(json, "type"@, None);
        if json is Object && charge is Some && code is Some && decline_code is Some && doc_url is Some
            && message is Some && param is Some && request_log_url is Some && type_ is Some {
            Some(
                ApiErrorsModel {
                    charge: charge->Some_0,
                    code: code->Some_0,
                    decline_code: decline_code->Some_0,
                    doc_url: doc_url->Some_0,
                    message: message->Some_0,
                    param: param->Some_0,
                    request_log_url: request_log_url->Some_0,
                    type_: type_->Some_0,
                },
            )
        } else {
            None
        }
    }

    fn from_value(value: &JsonValue) -> (out: Option<ApiErrors>) {
        match value {
            JsonValue::Object(_) => {},
            _ => {
                return None;
            },
        }
        let mut b = ApiErrorsBuilder::deser_default();
        b.charge = Some(member_from_value(value, "charge", b.charge)?);
        b.code = Some(member_from_value(value, "code", b.code)?);
        b.decline_code = Some(member_from_value(value, "decline_code", b.decline_code)?);
        b.doc_url = Some(member_from_value(value, "doc_url", b.doc_url)?);
        b.message = Some(member_from_value(value, "message", b.message)?);
        b.param = Some(member_from_value(value, "param", b.param)?);
        b.request_log_url = Some(member_from_value(value, "request_log_url", b.request_log_url)?);
        b.type_ = Some(member_from_value(value, "type", b.type_)?);
        b.take_out()
    }
}

/// The body of a failed request: an object with the error under `error`.
#[derive(Debug)]
pub struct Error {
    pub error: Box<ApiErrors>,
}

impl DeepView for Error {
    type V = ApiErrorsModel;

    open spec fn deep_view(&self) -> ApiErrorsModel {
        self.error.deep_view()
    }
}

impl FromValueOpt for Error {
    /// A JSON object decodes to an error body where its member `error`
    /// decodes to an error.
    open spec fn decoded(json: Json) -> Option<ApiErrorsModel> {
        decoded_member::<ApiErrors>(json, "error"@, None)
    }

    fn from_value(value: &JsonValue) -> (out: Option<Error>) {
        let error: ApiErrors = member_from_value(value, "error", None)?;
        Some(Error { error: Box::new(error) })
    }
}

/// What can go wrong with a request.
#[derive(Debug)]
pub enum StripeError {
    /// The remote service answered with an error of its own; the number is
    /// the HTTP status of the response.
    Stripe(ApiErrors, u16),
    /// A body did not have the JSON shape that was expected of it.
    JSONDeserialize(String),
    /// A body was not valid UTF-8.
    InvalidEncoding,
    /// The request did not get through: the connection failed or timed out.
    ClientError(String),
    /// The retry policy allowed no attempt at all.
    PolicyMisconfiguration,
}

/// The model of a [`StripeError`].
pub enum StripeErrorModel {
    Stripe(ApiErrorsModel, u16),
    JSONDeserialize(Seq<char>),
    InvalidEncoding,
    ClientError(Seq<char>),
    PolicyMisconfiguration,
}

impl DeepView for StripeError {
    type V = StripeErrorModel;

    open spec fn deep_view(&self) -> StripeErrorModel {
        match self {
            StripeError::Stripe(error, status) => StripeErrorModel::Stripe(error.deep_view(), *status),
            StripeError::JSONDeserialize(message) => StripeErrorModel::JSONDeserialize(message@),
            StripeError::InvalidEncoding => StripeErrorModel::InvalidEncoding,
            StripeError::ClientError(message) => StripeErrorModel::ClientError(message@),
            StripeError::PolicyMisconfiguration => StripeErrorModel::PolicyMisconfiguration,
        }
    }
}

impl View for StripeError {
    type V = StripeErrorModel;

    open spec fn view(&self) -> StripeErrorModel {
        self.deep_view()
    }
}

} // verus!
