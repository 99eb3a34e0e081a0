use async_stripe::error::{ApiErrorsCode, ApiErrorsType, StripeError};
use async_stripe::executor::{
    classify_failure, decode_response, parse_retry_hint, replay, typed, Completed, Executor, Step, TransportEvent,
};
use async_stripe::json::{parse, FromValueOpt, Json, JsonValue};
use async_stripe::objects::networks::Networks;
use async_stripe::request::{RequestDescription, StripeMethod, WireRequest};
use async_stripe::retry_policy::RetryPolicy;

const TEST_URL: &str = "https://api.stripe.com/v1/";

#[derive(Debug)]
struct DataType {
    #[allow(dead_code)]
    id: String,
    #[allow(dead_code)]
    name: String,
}

impl vstd::view::DeepView for DataType {
    type V = (String, String);

    fn deep_view(&self) -> (String, String) {
        unreachable!()
    }
}

impl FromValueOpt for DataType {
    fn decoded(_: Json) -> Option<(String, String)> {
        unreachable!()
    }

    fn from_value(value: &JsonValue) -> Option<Self> {
        let id = String::from_value(value.get("id")?)?;
        let name = String::from_value(value.get("name")?)?;
        Some(DataType { id, name })
    }
}

fn get(path: &str) -> RequestDescription {
    RequestDescription::new(StripeMethod::Get, path.to_string())
}

fn response(status: u16, body: &str) -> TransportEvent {
    TransportEvent::Response { status, should_retry: None, body: body.as_bytes().to_vec() }
}

fn responses(count: usize, status: u16, body: &str) -> Vec<TransportEvent> {
    let mut events = Vec::new();
    for _ in 0..count {
        events.push(response(status, body));
    }
    events
}

/// Drives a call by hand over `events` and gives the request that each attempt
/// sent, with the result of the call if it came to one.
fn drive(
    request: RequestDescription,
    policy: RetryPolicy,
    events: Vec<TransportEvent>,
) -> (Vec<(StripeMethod, String, Vec<(String, String)>, Vec<u8>)>, Option<Result<Vec<u8>, StripeError>>) {
    let mut sent = Vec::new();
    let mut executor = Executor::new(request, policy);
    let mut events = events.into_iter();
    loop {
        match executor.step() {
            Step::Stop(error) => return (sent, Some(Err(error))),
            Step::Attempt(pending) => {
                let Some(event) = events.next() else {
                    return (sent, None);
                };
                let wire: &WireRequest = pending.request();
                sent.push((wire.method, wire.path.clone(), wire.headers.clone(), wire.body.clone()));
                match pending.complete(event) {
                    Completed::Done(result) => return (sent, Some(result)),
                    Completed::Retry(next) => executor = next,
                }
            },
        }
    }
}

#[test]
fn basic_conversion() {
    let wire = get(TEST_URL).into_wire();
    assert_eq!(wire.method, StripeMethod::Get);
    assert_eq!(wire.body.len(), 0);
}

#[test]
fn bytes_body_conversion() {
    let body = "test".as_bytes();
    let request = RequestDescription::new(StripeMethod::Post, TEST_URL.to_string()).body(body.to_vec());
    let wire = request.into_wire();
    assert_eq!(wire.method, StripeMethod::Post);
    assert_eq!(wire.body.len(), body.len());
}

#[test]
fn string_body_conversion() {
    let body = "test";
    let request = RequestDescription::new(StripeMethod::Post, TEST_URL.to_string()).body(String::from(body).into_bytes());
    let wire = request.into_wire();
    assert_eq!(wire.method, StripeMethod::Post);
    assert_eq!(wire.body.len(), body.len());
    assert_eq!(wire.body, b"test".to_vec());
}

#[test]
fn retry() {
    let res = replay::<()>(get("/server-errors"), RetryPolicy::RetryUpTo(5), responses(8, 500, ""));
    assert_eq!(res.attempts, 5);
    assert!(res.result.unwrap().is_err());
}

#[test]
fn user_error() {
    let body = "{
                \"error\": {
                  \"message\": \"Unrecognized request URL (GET: /v1/missing). Please see https://stripe.com/docs or we can help at https://support.stripe.com/.\",
                  \"type\": \"invalid_request_error\"
                }
              }
              ";
    let res = replay::<()>(get("/v1/missing"), RetryPolicy::RetryUpTo(3), responses(3, 404, body));
    assert_eq!(res.attempts, 1);
    match res.result {
        Some(Err(StripeError::Stripe(x, _))) => println!("{:?}", x),
        other => panic!("Expected stripe error {:?}", other),
    }
}

#[test]
fn nice_serde_error() {
    let body = "{
                \"id\": \"test\",
                \"name\": 10
              }
              ";
    let res = replay::<DataType>(get("/v1/odd_data"), RetryPolicy::RetryUpTo(3), responses(3, 200, body));
    assert_eq!(res.attempts, 1);
    match res.result {
        Some(Err(StripeError::JSONDeserialize(_))) => {},
        other => panic!("Expected stripe error {:?}", other),
    }
}

#[test]
fn retry_header() {
    let mut events = Vec::new();
    for _ in 0..5 {
        events.push(TransportEvent::Response { status: 500, should_retry: Some("false".to_string()), body: Vec::new() });
    }
    let res = replay::<()>(get("/server-errors"), RetryPolicy::RetryUpTo(5), events);
    assert_eq!(res.attempts, 1);
    assert!(res.result.unwrap().is_err());
}

#[test]
fn retry_body() {
    let request = RequestDescription::new(StripeMethod::Post, "/server-errors".to_string()).body(b"body".to_vec());
    let (sent, result) = drive(request, RetryPolicy::RetryUpTo(5), responses(8, 500, ""));
    assert_eq!(sent.len(), 5);
    for attempt in &sent {
        assert_eq!(attempt.0, StripeMethod::Post);
        assert_eq!(attempt.1, "/server-errors");
        assert_eq!(attempt.3, b"body".to_vec());
    }
    assert!(result.unwrap().is_err());
}

#[test]
fn user_error_transfers() {
    let message = "Your destination account needs to have at least one of the following capabilities enabled: transfers, crypto_transfers, legacy_payments";
    let log_url = "https://dashboard.stripe.com/logs/req_nIhlutaV4amLEs?t=1685040634";
    let body = format!(
        "{{\"error\":{{\"code\":\"insufficient_capabilities_for_transfer\",\"message\":\"{}\",\"request_log_url\":\"{}\",\"type\":\"invalid_request_error\"}}}}",
        message, log_url
    );
    let res = replay::<()>(get("/v1/transfers"), RetryPolicy::Once, responses(1, 400, &body));
    assert_eq!(res.attempts, 1);
    match res.result.unwrap().unwrap_err() {
        StripeError::Stripe(err, status_code) => {
            assert_eq!(status_code, 400);
            assert_eq!(err.type_, ApiErrorsType::InvalidRequestError);
            assert_eq!(err.message.as_deref(), Some(message));
            assert_eq!(err.request_log_url.as_deref(), Some(log_url));
            assert_eq!(err.code, Some(ApiErrorsCode::Unknown));
        },
        other => panic!("Expected stripe error, got {:?}", other),
    }
}

#[test]
fn retry_up_to_zero_reports_the_policy() {
    let res = replay::<()>(get("/v1/anything"), RetryPolicy::RetryUpTo(0), responses(2, 500, ""));
    assert_eq!(res.attempts, 0);
    assert!(matches!(res.result, Some(Err(StripeError::PolicyMisconfiguration))));
}

#[test]
fn retry_up_to_ends_with_the_last_error() {
    let events = vec![
        TransportEvent::Failed("connection reset".to_string()),
        response(503, "not json"),
        TransportEvent::Failed("timed out".to_string()),
        response(200, "null"),
    ];
    let res = replay::<()>(get("/v1/anything"), RetryPolicy::RetryUpTo(3), events);
    assert_eq!(res.attempts, 3);
    match res.result {
        Some(Err(StripeError::ClientError(message))) => assert_eq!(message, "timed out"),
        other => panic!("expected the last transport failure, got {:?}", other),
    }
}

#[test]
fn once_and_no_retry_make_a_single_attempt() {
    for policy in [RetryPolicy::Once, RetryPolicy::NoRetry] {
        let res = replay::<()>(get("/v1/anything"), policy, responses(3, 500, ""));
        assert_eq!(res.attempts, 1);
        match res.result {
            Some(Err(StripeError::JSONDeserialize(message))) => {
                assert_eq!(message, "Could not deserialize Stripe error")
            },
            other => panic!("expected a deserialization error, got {:?}", other),
        }
    }
}

#[test]
fn success_is_decoded_on_the_first_attempt() {
    let body = "{\"available\": [\"visa\", \"cartes_bancaires\"], \"preferred\": null, \"more\": 1}";
    let res = replay::<Networks>(get("/v1/networks"), RetryPolicy::RetryUpTo(4), responses(4, 200, body));
    assert_eq!(res.attempts, 1);
    let networks = res.result.unwrap().unwrap();
    assert_eq!(networks.available, vec!["visa".to_string(), "cartes_bancaires".to_string()]);
    assert_eq!(networks.preferred, None);
}

#[test]
fn success_after_failures_counts_every_attempt() {
    let events = vec![response(500, ""), TransportEvent::Failed("reset".to_string()), response(201, "null")];
    let res = replay::<()>(get("/v1/anything"), RetryPolicy::RetryUpTo(5), events);
    assert_eq!(res.attempts, 3);
    assert!(matches!(res.result, Some(Ok(()))));
}

#[test]
fn schema_mismatch_is_returned_at_once() {
    let body = "{\"available\": 10}";
    let res = replay::<Networks>(get("/v1/networks"), RetryPolicy::RetryUpTo(4), responses(4, 200, body));
    assert_eq!(res.attempts, 1);
    match res.result {
        Some(Err(StripeError::JSONDeserialize(message))) => assert_eq!(message, "error deserializing request data"),
        other => panic!("expected a deserialization error, got {:?}", other),
    }
}

#[test]
fn invalid_utf8_ends_the_call() {
    let bad = vec![0xff_u8, 0xfe, 0xfd];
    let ok = TransportEvent::Response { status: 200, should_retry: None, body: bad.clone() };
    let res = replay::<()>(get("/v1/anything"), RetryPolicy::RetryUpTo(4), vec![ok]);
    assert_eq!(res.attempts, 1);
    assert!(matches!(res.result, Some(Err(StripeError::InvalidEncoding))));

    let failed = TransportEvent::Response { status: 500, should_retry: None, body: bad };
    let res = replay::<()>(get("/v1/anything"), RetryPolicy::RetryUpTo(4), vec![failed, response(200, "null")]);
    assert_eq!(res.attempts, 1);
    assert!(matches!(res.result, Some(Err(StripeError::InvalidEncoding))));
}

#[test]
fn unreadable_body_is_retried_like_any_transport_failure() {
    let events = vec![TransportEvent::BodyFailed("connection closed".to_string()), response(200, "null")];
    let res = replay::<()>(get("/v1/anything"), RetryPolicy::RetryUpTo(4), events);
    assert_eq!(res.attempts, 2);
    assert!(matches!(res.result, Some(Ok(()))));

    let mut events = Vec::new();
    for _ in 0..6 {
        events.push(TransportEvent::BodyFailed("connection closed".to_string()));
    }
    let res = replay::<()>(get("/v1/anything"), RetryPolicy::RetryUpTo(4), events);
    assert_eq!(res.attempts, 4);
    match res.result {
        Some(Err(StripeError::ClientError(message))) => assert_eq!(message, "connection closed"),
        other => panic!("expected a client error, got {:?}", other),
    }

    let events = vec![TransportEvent::BodyFailed("connection closed".to_string()), response(200, "null")];
    let res = replay::<()>(get("/v1/anything"), RetryPolicy::Once, events);
    assert_eq!(res.attempts, 1);
    match res.result {
        Some(Err(StripeError::ClientError(message))) => assert_eq!(message, "connection closed"),
        other => panic!("expected a client error, got {:?}", other),
    }
}

#[test]
fn unreadable_body_keeps_the_status_and_hint_of_the_last_full_response() {
    let events = vec![
        TransportEvent::Response { status: 500, should_retry: Some("false".to_string()), body: Vec::new() },
        TransportEvent::BodyFailed("connection closed".to_string()),
    ];
    let res = replay::<()>(get("/v1/anything"), RetryPolicy::RetryUpTo(5), events);
    assert_eq!(res.attempts, 1);
    let events = vec![
        TransportEvent::BodyFailed("first".to_string()),
        response(404, ""),
        TransportEvent::BodyFailed("second".to_string()),
    ];
    let res = replay::<()>(get("/v1/anything"), RetryPolicy::RetryUpTo(5), events);
    assert_eq!(res.attempts, 2);
    assert!(matches!(res.result, Some(Err(StripeError::JSONDeserialize(_)))));
}

#[test]
fn a_script_that_runs_out_has_no_result() {
    let res = replay::<()>(get("/v1/anything"), RetryPolicy::RetryUpTo(4), responses(2, 500, ""));
    assert_eq!(res.attempts, 2);
    assert!(res.result.is_none());
}

#[test]
fn unregistered_status_is_remembered_as_server_error() {
    // 499 is a client error by its number, but no registered status: the
    // policy sees 500 and retries.
    let res = replay::<()>(get("/v1/anything"), RetryPolicy::RetryUpTo(3), responses(5, 499, ""));
    assert_eq!(res.attempts, 3);
    let res = replay::<()>(get("/v1/anything"), RetryPolicy::RetryUpTo(3), responses(5, 429, ""));
    assert_eq!(res.attempts, 1);
}

#[test]
fn hint_of_true_does_not_override_a_client_error() {
    let event = TransportEvent::Response { status: 409, should_retry: Some("true".to_string()), body: Vec::new() };
    let res = replay::<()>(get("/v1/anything"), RetryPolicy::RetryUpTo(3), vec![event, response(200, "null")]);
    assert_eq!(res.attempts, 1);
    assert!(res.result.unwrap().is_err());
}

#[test]
fn every_attempt_sends_method_path_and_key() {
    let request = RequestDescription::new(StripeMethod::Post, "/v1/refunds".to_string())
        .query("expand[0]=charge".to_string())
        .body(b"amount=100".to_vec())
        .idempotency_key("key_123".to_string());
    let events = vec![response(500, ""), TransportEvent::Failed("reset".to_string()), response(502, ""), response(200, "null")];
    let (sent, result) = drive(request, RetryPolicy::RetryUpTo(10), events);
    assert_eq!(sent.len(), 4);
    for attempt in &sent {
        assert_eq!(attempt.0, StripeMethod::Post);
        assert_eq!(attempt.1, "/v1/refunds");
        assert_eq!(attempt.2, vec![("Idempotency-Key".to_string(), "key_123".to_string())]);
        assert_eq!(attempt.3, b"amount=100".to_vec());
    }
    assert_eq!(result.unwrap().unwrap(), b"null".to_vec());
}

#[test]
fn request_without_key_has_no_header() {
    let wire = get("/v1/refunds").into_wire();
    assert!(wire.headers.is_empty());
    assert_eq!(wire.query, None);
    assert_eq!(wire.path, "/v1/refunds");
}

#[test]
fn pauses_grow_from_the_second_attempt_on() {
    let executor = Executor::new(get("/v1/anything"), RetryPolicy::RetryUpTo(9));
    let Step::Attempt(pending) = executor.step() else { panic!("expected an attempt") };
    assert_eq!(pending.delay(), None);
    let event = TransportEvent::Response { status: 503, should_retry: Some("true".to_string()), body: Vec::new() };
    let Completed::Retry(executor) = pending.complete(event) else { panic!("expected a retry") };
    let Step::Attempt(pending) = executor.step() else { panic!("expected an attempt") };
    assert_eq!(pending.delay(), Some(2));
    let Completed::Retry(executor) = pending.complete(TransportEvent::Failed("reset".to_string())) else {
        panic!("expected a retry")
    };
    let Step::Attempt(pending) = executor.step() else { panic!("expected an attempt") };
    assert_eq!(pending.delay(), Some(4));
    // a transport failure leaves the last status and hint in place
    let event = TransportEvent::Response { status: 500, should_retry: Some("false".to_string()), body: Vec::new() };
    let Completed::Retry(executor) = pending.complete(event) else { panic!("expected a retry") };
    assert!(matches!(executor.step(), Step::Stop(StripeError::JSONDeserialize(_))));
}

#[test]
fn a_transport_failure_keeps_the_hint_of_the_last_response() {
    let events = vec![
        TransportEvent::Response { status: 500, should_retry: Some("false".to_string()), body: Vec::new() },
        TransportEvent::Failed("reset".to_string()),
    ];
    let res = replay::<()>(get("/v1/anything"), RetryPolicy::RetryUpTo(5), events);
    assert_eq!(res.attempts, 1);
    let events = vec![
        TransportEvent::Failed("reset".to_string()),
        TransportEvent::Response { status: 404, should_retry: None, body: Vec::new() },
        TransportEvent::Failed("reset".to_string()),
    ];
    let res = replay::<()>(get("/v1/anything"), RetryPolicy::RetryUpTo(5), events);
    assert_eq!(res.attempts, 2);
    assert!(matches!(res.result, Some(Err(StripeError::JSONDeserialize(_)))));
}

#[test]
fn retry_hint_reads_exactly_true_and_false() {
    assert_eq!(parse_retry_hint(Some("true")), Some(true));
    assert_eq!(parse_retry_hint(Some("false")), Some(false));
    assert_eq!(parse_retry_hint(Some("False")), None);
    assert_eq!(parse_retry_hint(Some(" true")), None);
    assert_eq!(parse_retry_hint(Some("")), None);
    assert_eq!(parse_retry_hint(None), None);
}

#[test]
fn classify_failure_reads_the_error_body() {
    let parsed = parse("{\"error\": {\"type\": \"card_error\", \"code\": \"card_declined\", \"message\": \"declined\"}}");
    match classify_failure(parsed, 402) {
        StripeError::Stripe(error, status) => {
            assert_eq!(status, 402);
            assert_eq!(error.type_, ApiErrorsType::CardError);
            assert_eq!(error.code, Some(ApiErrorsCode::CardDeclined));
            assert_eq!(error.message.as_deref(), Some("declined"));
            assert_eq!(error.param, None);
        },
        other => panic!("expected a stripe error, got {:?}", other),
    }
    assert!(matches!(classify_failure(None, 500), StripeError::JSONDeserialize(_)));
    assert!(matches!(classify_failure(parse("{\"error\": {}}"), 500), StripeError::JSONDeserialize(_)));
    assert!(matches!(classify_failure(parse("[1, 2]"), 500), StripeError::JSONDeserialize(_)));
}

#[test]
fn decode_response_tells_encoding_from_schema() {
    assert!(matches!(decode_response::<()>(b"null"), Ok(())));
    assert!(matches!(decode_response::<()>(b"1"), Err(StripeError::JSONDeserialize(_))));
    assert!(matches!(decode_response::<()>(b"{"), Err(StripeError::JSONDeserialize(_))));
    assert!(matches!(decode_response::<()>(&[0xc3, 0x28]), Err(StripeError::InvalidEncoding)));
    assert_eq!(decode_response::<String>("\"gr\u{fc}n\"".as_bytes()).unwrap(), "gr\u{fc}n");
    assert!(matches!(typed::<bool>(parse("true")), Ok(true)));
    assert!(matches!(typed::<bool>(None), Err(StripeError::JSONDeserialize(_))));
}
