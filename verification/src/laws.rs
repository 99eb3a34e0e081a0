//! What holds of every call that the executor carries out.

use vstd::prelude::*;
use crate::error::{ApiErrorsCode, ApiErrorsModel, Error, StripeErrorModel};
use crate::executor::{
    advance, decision, decoded_response, initial, remote_failure, retry_hint, run, typed_run,
    undecodable_data_message, Advance, ExecutorModel, TransportEventModel,
};
use crate::json::{parsed, FromValueOpt, Json};
use crate::request::{idempotency_header, prepared, RequestModel};
use crate::retry_policy::RetryPolicy;
use crate::status::{is_client_error, is_success, remembered};

verus! {

/// An attempt that failed in a way that leaves the decision to the number of
/// attempts: a transport failure, before a response or while its body was
/// read, or a response that is no success, no client error and no request to
/// stop, with a body that can be read as text.
pub open spec fn is_retryable_failure(event: TransportEventModel) -> bool {
    match event {
        TransportEventModel::Failed(_) => true,
        TransportEventModel::BodyFailed(_) => true,
        TransportEventModel::Response { status, should_retry, body } => {
            &&& !is_success(status)
            &&& !is_client_error(remembered(status))
            &&& retry_hint(should_retry) != Some(false)
            &&& vstd::utf8::valid_utf8(body)
        },
    }
}

/// The error that a failed attempt leaves behind.
pub open spec fn error_of(event: TransportEventModel) -> StripeErrorModel {
    match event {
        TransportEventModel::Failed(message) => StripeErrorModel::ClientError(message),
        TransportEventModel::BodyFailed(message) => StripeErrorModel::ClientError(message),
        TransportEventModel::Response { status, should_retry, body } => if vstd::utf8::valid_utf8(body) {
            remote_failure(vstd::utf8::decode_utf8(body), status)
        } else {
            StripeErrorModel::InvalidEncoding
        },
    }
}

proof fn lemma_retries_from(state: ExecutorModel, n: u32, events: Seq<TransportEventModel>)
    requires
        state.policy == RetryPolicy::RetryUpTo(n),
        state.outcome.attempts <= n,
        state.outcome.should_retry != Some(false),
        !(state.outcome.status is Some && is_client_error(state.outcome.status->Some_0)),
        events.len() >= n - state.outcome.attempts,
        forall|i: int| 0 <= i < n - state.outcome.attempts ==> is_retryable_failure(#[trigger] events[i]),
    ensures
        run(state, events).attempts() == n - state.outcome.attempts,
        run(state, events).result == Some(
            Err::<Seq<u8>, StripeErrorModel>(
                if state.outcome.attempts == n {
                    state.last_error
                } else {
                    error_of(events[n - state.outcome.attempts - 1])
                },
            ),
        ),
        forall|i: int| 0 <= i < run(state, events).sent.len() ==> run(state, events).sent[i] == state.request,
    decreases n - state.outcome.attempts,
{
    if state.outcome.attempts < n {
        assert(is_retryable_failure(events[0]));
        let next = advance(state, events[0])->Retry_0;
        let rest = events.drop_first();
        assert forall|i: int| 0 <= i < n - next.outcome.attempts implies is_retryable_failure(#[trigger] rest[i]) by {
            assert(rest[i] == events[i + 1]);
        }
        lemma_retries_from(next, n, rest);
        if next.outcome.attempts < n {
            assert(rest[n - next.outcome.attempts - 1] == events[n - state.outcome.attempts - 1]);
        }
    }
}

/// Under `RetryUpTo(n)`, a call whose attempts all fail in a way that may be
/// retried makes exactly `n` attempts and then fails with the error of the
/// last of them; with `n` of zero it makes none and reports the policy.
pub proof fn lemma_retry_up_to_makes_all_attempts(n: u32, request: RequestModel, events: Seq<TransportEventModel>)
    requires
        events.len() >= n,
        forall|i: int| 0 <= i < n ==> is_retryable_failure(#[trigger] events[i]),
    ensures
        run(initial(request, RetryPolicy::RetryUpTo(n)), events).attempts() == n,
        n > 0 ==> run(initial(request, RetryPolicy::RetryUpTo(n)), events).result == Some(
            Err::<Seq<u8>, StripeErrorModel>(error_of(events[n - 1])),
        ),
        n == 0 ==> run(initial(request, RetryPolicy::RetryUpTo(n)), events).result == Some(
            Err::<Seq<u8>, StripeErrorModel>(StripeErrorModel::PolicyMisconfiguration),
        ),
{
    lemma_retries_from(initial(request, RetryPolicy::RetryUpTo(n)), n, events);
}

proof fn lemma_attempts_from(state: ExecutorModel, events: Seq<TransportEventModel>)
    requires
        state.outcome.attempts <= state.policy.max_attempts(),
    ensures
        run(state, events).attempts() + state.outcome.attempts <= state.policy.max_attempts(),
        run(state, events).attempts() <= events.len(),
    decreases events.len(),
{
    if decision(state) is Continue && events.len() > 0 {
        match advance(state, events[0]) {
            Advance::Done(_) => {},
            Advance::Retry(next) => {
                lemma_attempts_from(next, events.drop_first());
            },
        }
    }
}

/// No call makes more attempts than its policy allows, whatever happens to
/// them, nor more than there are events to meet.
pub proof fn lemma_attempts_are_bounded(policy: RetryPolicy, request: RequestModel, events: Seq<TransportEventModel>)
    ensures
        run(initial(request, policy), events).attempts() <= policy.max_attempts(),
        run(initial(request, policy), events).attempts() <= events.len(),
{
    lemma_attempts_from(initial(request, policy), events);
}

/// Whatever the policy, as long as it allows a first attempt: where the
/// response to that attempt says `Stripe-Should-Retry: false`, the call ends
/// after this one attempt; where the response is a failure, the call fails
/// with the error of the response.
pub proof fn lemma_hint_stops_after_one_attempt(
    policy: RetryPolicy,
    request: RequestModel,
    events: Seq<TransportEventModel>,
)
    requires
        policy.max_attempts() > 0,
        events.len() > 0,
        events[0] is Response,
        retry_hint(events[0]->Response_should_retry) == Some(false),
    ensures
        run(initial(request, policy), events).attempts() == 1,
        !is_success(events[0]->Response_status) ==> run(initial(request, policy), events).result == Some(
            Err::<Seq<u8>, StripeErrorModel>(error_of(events[0])),
        ),
{
    let start = initial(request, policy);
    assert(decision(start) is Continue);
    match advance(start, events[0]) {
        Advance::Done(_) => {},
        Advance::Retry(next) => {
            assert(decision(next) is Stop);
            assert(run(next, events.drop_first()).sent =~= Seq::empty());
        },
    }
}

/// Every attempt of a call sends the same request: the method, path and
/// query of the description, its idempotency key as the header
/// `Idempotency-Key`, and its body.
pub proof fn lemma_every_attempt_sends_the_request(
    policy: RetryPolicy,
    request: RequestModel,
    events: Seq<TransportEventModel>,
    attempt: int,
)
    requires
        0 <= attempt < run(initial(request, policy), events).attempts(),
    ensures
        run(initial(request, policy), events).sent[attempt] == prepared(request),
        prepared(request).method == request.method,
        prepared(request).path == request.path,
        prepared(request).query == request.query,
        request.body matches Some(body) ==> prepared(request).body == body,
        request.idempotency_key matches Some(key) ==> prepared(request).headers == seq![(idempotency_header(), key)],
{
    lemma_sent_from(initial(request, policy), events, attempt);
}

proof fn lemma_sent_from(state: ExecutorModel, events: Seq<TransportEventModel>, attempt: int)
    requires
        0 <= attempt < run(state, events).attempts(),
    ensures
        run(state, events).sent[attempt] == state.request,
    decreases events.len(),
{
    if decision(state) is Continue && events.len() > 0 && attempt > 0 {
        match advance(state, events[0]) {
            Advance::Done(_) => {},
            Advance::Retry(next) => {
                lemma_sent_from(next, events.drop_first(), attempt - 1);
            },
        }
    }
}

/// Whatever the policy, as long as it allows a first attempt: where the
/// response to that attempt has a status of success, the call ends after
/// this one attempt and gives what the body decodes to; that is the value
/// `value` where the body is the JSON text of one.
pub proof fn lemma_success_needs_one_attempt<T: FromValueOpt>(
    policy: RetryPolicy,
    request: RequestModel,
    events: Seq<TransportEventModel>,
    value: T::V,
)
    requires
        policy.max_attempts() > 0,
        events.len() > 0,
        events[0] is Response,
        is_success(events[0]->Response_status),
    ensures
        run(initial(request, policy), events).attempts() == 1,
        run(initial(request, policy), events).result == Some(
            Ok::<Seq<u8>, StripeErrorModel>(events[0]->Response_body),
        ),
        typed_run::<T>(run(initial(request, policy), events)).0 == Some(
            decoded_response::<T>(events[0]->Response_body),
        ),
        ({
            let body = events[0]->Response_body;
            &&& vstd::utf8::valid_utf8(body)
            &&& parsed(vstd::utf8::decode_utf8(body)) matches Some(json)
            &&& T::decoded(json) == Some(value)
        }) ==> typed_run::<T>(run(initial(request, policy), events)).0 == Some(
            Ok::<T::V, StripeErrorModel>(value),
        ),
{
    let start = initial(request, policy);
    assert(decision(start) is Continue);
}

/// Whatever the policy, as long as it allows a first attempt: where the
/// response to that attempt has a status of success and a body that is text
/// but not the JSON of what the caller asked for, the call ends after this
/// one attempt with a deserialization error.
pub proof fn lemma_schema_mismatch_is_not_retried<T: FromValueOpt>(
    policy: RetryPolicy,
    request: RequestModel,
    events: Seq<TransportEventModel>,
)
    requires
        policy.max_attempts() > 0,
        events.len() > 0,
        events[0] is Response,
        is_success(events[0]->Response_status),
        vstd::utf8::valid_utf8(events[0]->Response_body),
        match parsed(vstd::utf8::decode_utf8(events[0]->Response_body)) {
            Some(json) => T::decoded(json) is None,
            None => true,
        },
    ensures
        typed_run::<T>(run(initial(request, policy), events)) == (
            Some(Err::<T::V, StripeErrorModel>(StripeErrorModel::JSONDeserialize(undecodable_data_message()))),
            1nat,
        ),
{
    let start = initial(request, policy);
    assert(decision(start) is Continue);
}

/// The member of `json` under `key` as a string, if it is one.
pub open spec fn string_member(json: Json, key: Seq<char>) -> Option<Seq<char>> {
    match json.member(key) {
        Some(Json::String(s)) => Some(s),
        _ => None,
    }
}

/// Where the body of a failed response is the JSON of an error of the remote
/// service, the error that goes on record holds the HTTP status of the
/// response, the message of the body, and its code: the code that the
/// library knows under that name, and `Unknown` for any other name.
pub proof fn lemma_remote_error_is_passed_on(state: ExecutorModel, event: TransportEventModel, json: Json)
    requires
        event is Response,
        !is_success(event->Response_status),
        vstd::utf8::valid_utf8(event->Response_body),
        parsed(vstd::utf8::decode_utf8(event->Response_body)) == Some(json),
        Error::decoded(json) is Some,
    ensures
        advance(state, event) matches Advance::Retry(next) && next.last_error == StripeErrorModel::Stripe(
            Error::decoded(json)->Some_0,
            event->Response_status,
        ),
        json.member("error"@) matches Some(inner) && ({
            let error: ApiErrorsModel = Error::decoded(json)->Some_0;
            &&& error.message == string_member(inner, "message"@)
            &&& match string_member(inner, "code"@) {
                Some(name) => error.code is Some && (error.code->Some_0 != ApiErrorsCode::Unknown
                    ==> error.code->Some_0.wire_name() == name) && (error.code->Some_0
                    == ApiErrorsCode::Unknown ==> !ApiErrorsCode::is_known(name)),
                None => error.code is None,
            }
        }),
{
}

/// Under a policy of a single attempt, a failed response whose body is the
/// JSON of an error of the remote service ends the call with that error and
/// the HTTP status of the response.
pub proof fn lemma_single_attempt_returns_remote_error(
    policy: RetryPolicy,
    request: RequestModel,
    events: Seq<TransportEventModel>,
    json: Json,
)
    requires
        policy == RetryPolicy::Once || policy == RetryPolicy::NoRetry,
        events.len() > 0,
        events[0] is Response,
        !is_success(events[0]->Response_status),
        vstd::utf8::valid_utf8(events[0]->Response_body),
        parsed(vstd::utf8::decode_utf8(events[0]->Response_body)) == Some(json),
        Error::decoded(json) is Some,
    ensures
        run(initial(request, policy), events).attempts() == 1,
        run(initial(request, policy), events).result == Some(
            Err::<Seq<u8>, StripeErrorModel>(
                StripeErrorModel::Stripe(Error::decoded(json)->Some_0, events[0]->Response_status),
            ),
        ),
{
    let start = initial(request, policy);
    assert(decision(start) is Continue);
    match advance(start, events[0]) {
        Advance::Done(_) => {},
        Advance::Retry(next) => {
            assert(decision(next) is Stop);
            assert(run(next, events.drop_first()).sent =~= Seq::empty());
        },
    }
}

} // verus!
