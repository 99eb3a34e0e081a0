use async_stripe::error::{ApiErrors, ApiErrorsBuilder, ApiErrorsCode, ApiErrorsType, Error, StripeParseError};
use async_stripe::json::{parse, FromValueOpt};
use std::str::FromStr;

#[test]
fn error_type_names_round_trip() {
    let all = [
        (ApiErrorsType::ApiError, "api_error"),
        (ApiErrorsType::CardError, "card_error"),
        (ApiErrorsType::IdempotencyError, "idempotency_error"),
        (ApiErrorsType::InvalidRequestError, "invalid_request_error"),
    ];
    for (value, name) in all {
        assert_eq!(value.as_str(), name);
        assert_eq!(ApiErrorsType::from_str(name), Ok(value));
    }
    assert_eq!(ApiErrorsType::from_str("unknown"), Err(StripeParseError));
    assert_eq!(ApiErrorsType::from_str(""), Err(StripeParseError));
    assert_eq!(ApiErrorsType::from_str("Api_error"), Err(StripeParseError));
}

#[test]
fn error_codes_fall_back_to_unknown() {
    assert_eq!(ApiErrorsCode::from_str("card_declined"), Ok(ApiErrorsCode::CardDeclined));
    assert_eq!(ApiErrorsCode::from_str("resource_missing"), Ok(ApiErrorsCode::ResourceMissing));
    assert_eq!(ApiErrorsCode::from_str("rate_limit"), Ok(ApiErrorsCode::RateLimit));
    assert_eq!(ApiErrorsCode::from_str("insufficient_capabilities_for_transfer"), Ok(ApiErrorsCode::Unknown));
    assert_eq!(ApiErrorsCode::from_str(""), Ok(ApiErrorsCode::Unknown));
    assert_eq!(ApiErrorsCode::from_str("unknown"), Ok(ApiErrorsCode::Unknown));
    assert_eq!(ApiErrorsCode::CardDeclined.as_str(), "card_declined");
    assert_eq!(ApiErrorsCode::Unknown.as_str(), "unknown");
    assert_eq!(ApiErrorsCode::from_str(ApiErrorsCode::UrlInvalid.as_str()), Ok(ApiErrorsCode::UrlInvalid));
}

#[test]
fn api_errors_decode_from_an_object() {
    let json = parse(
        "{\"type\": \"api_error\", \"code\": \"brand_new_code\", \"message\": null, \"param\": \"amount\", \"extra\": [1]}",
    )
    .unwrap();
    let error = ApiErrors::from_value(&json).unwrap();
    assert_eq!(error.type_, ApiErrorsType::ApiError);
    assert_eq!(error.code, Some(ApiErrorsCode::Unknown));
    assert_eq!(error.message, None);
    assert_eq!(error.param.as_deref(), Some("amount"));
    assert_eq!(error.charge, None);
    assert_eq!(error.decline_code, None);
    assert_eq!(error.doc_url, None);
    assert_eq!(error.request_log_url, None);
}

#[test]
fn api_errors_need_a_type_and_well_typed_members() {
    assert!(ApiErrors::from_value(&parse("{}").unwrap()).is_none());
    assert!(ApiErrors::from_value(&parse("{\"type\": \"other_error\"}").unwrap()).is_none());
    assert!(ApiErrors::from_value(&parse("{\"type\": null}").unwrap()).is_none());
    assert!(ApiErrors::from_value(&parse("{\"type\": \"api_error\", \"message\": 3}").unwrap()).is_none());
    assert!(ApiErrors::from_value(&parse("{\"type\": \"api_error\", \"code\": 3}").unwrap()).is_none());
    assert!(ApiErrors::from_value(&parse("[\"api_error\"]").unwrap()).is_none());
    assert!(ApiErrors::from_value(&parse("{\"type\": \"api_error\"}").unwrap()).is_some());
}

#[test]
fn error_body_holds_the_error_under_its_key() {
    let body = Error::from_value(&parse("{\"error\": {\"type\": \"card_error\"}}").unwrap()).unwrap();
    assert_eq!(body.error.type_, ApiErrorsType::CardError);
    assert!(Error::from_value(&parse("{\"type\": \"card_error\"}").unwrap()).is_none());
    assert!(Error::from_value(&parse("{\"error\": null}").unwrap()).is_none());
    assert!(Error::from_value(&parse("null").unwrap()).is_none());
}

#[test]
fn builder_hands_out_only_when_complete() {
    let builder = ApiErrorsBuilder::deser_default();
    assert_eq!(builder.message, Some(None));
    assert_eq!(builder.type_, None);
    assert!(builder.take_out().is_none());
    let mut builder = ApiErrorsBuilder::deser_default();
    builder.type_ = Some(ApiErrorsType::IdempotencyError);
    builder.message = Some(Some("again".to_string()));
    let error = builder.take_out().unwrap();
    assert_eq!(error.type_, ApiErrorsType::IdempotencyError);
    assert_eq!(error.message.as_deref(), Some("again"));
    let mut builder = ApiErrorsBuilder::deser_default();
    builder.type_ = Some(ApiErrorsType::IdempotencyError);
    builder.code = None;
    assert!(builder.take_out().is_none());
}
