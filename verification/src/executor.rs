//! The request executor: one API call from its first attempt to its result.
//!
//! The executor decides; it does not send. [`Executor::step`] asks the retry
//! policy whether an attempt is due, the caller makes that attempt over
//! whatever transport it has and reports what came of it to
//! [`PendingAttempt::complete`], which either ends the call or records the
//! failure for the policy to judge. [`run`] says what the whole call comes to
//! for a given course of events, and [`replay`] computes it.

use vstd::prelude::*;
use vstd::string::StringExecFns;
use crate::error::{ApiErrors, Error, StripeError, StripeErrorModel};
use crate::json::{parse, parsed, FromValueOpt, Json, JsonValue};
use crate::request::{prepared, RequestDescription, RequestModel, WireRequest, WireRequestModel};
use crate::retry_policy::{Outcome, RetryPolicy};
use crate::status::{is_success, remembered, remembered_status, status_is_success};
use crate::text::{str_eq, text_of};

verus! {

/// What the last attempt showed, for the retry policy to judge.
#[derive(Copy, Clone, Debug, PartialEq, Eq, Structural)]
pub struct AttemptOutcome {
    /// The HTTP status of the last response, if one has come.
    pub status: Option<u16>,
    /// What the last response said of retrying, if it said anything.
    pub should_retry: Option<bool>,
    /// The number of attempts that failed so far.
    pub attempts: u32,
}

/// What came of one attempt.
#[derive(Debug)]
pub enum TransportEvent {
    /// No response came: the connection failed or timed out. The string
    /// describes the failure.
    Failed(String),
    /// A response came, with this status, this value of the header
    /// `Stripe-Should-Retry` where it had one, and this body.
    Response { status: u16, should_retry: Option<String>, body: Vec<u8> },
    /// A response came, but the transport failed while its body was read.
    /// The string describes the failure.
    BodyFailed(String),
}

/// The model of a [`TransportEvent`].
pub enum TransportEventModel {
    Failed(Seq<char>),
    Response { status: u16, should_retry: Option<Seq<char>>, body: Seq<u8> },
    BodyFailed(Seq<char>),
}

impl DeepView for TransportEvent {
    type V = TransportEventModel;

    open spec fn deep_view(&self) -> TransportEventModel {
        match self {
            TransportEvent::Failed(message) => TransportEventModel::Failed(message@),
            TransportEvent::Response { status, should_retry, body } => TransportEventModel::Response {
                status: *status,
                should_retry: should_retry.deep_view(),
                body: body@,
            },
            TransportEvent::BodyFailed(message) => TransportEventModel::BodyFailed(message@),
        }
    }
}

impl View for TransportEvent {
    type V = TransportEventModel;

    open spec fn view(&self) -> TransportEventModel {
        self.deep_view()
    }
}

/// The message of the error for a failed request whose body is no error of
/// the remote service.
pub open spec fn undecodable_error_message() -> Seq<char> {
    "Could not deserialize Stripe error"@
}

/// The message of the error for a successful response whose body is not what
/// the caller asked for.
pub open spec fn undecodable_data_message() -> Seq<char> {
    "error deserializing request data"@
}

/// What the header `Stripe-Should-Retry` says: `true` or `false` where its
/// value is exactly that word, nothing otherwise.
pub open spec fn retry_hint(header: Option<Seq<char>>) -> Option<bool> {
    match header {
        Some(value) => if value == "true"@ {
            Some(true)
        } else if value == "false"@ {
            Some(false)
        } else {
            None
        },
        None => None,
    }
}

/// Reads the value of the header `Stripe-Should-Retry`: see [`retry_hint`].
pub fn parse_retry_hint(header: Option<&str>) -> (hint: Option<bool>)
    ensures
        hint == retry_hint(header.deep_view()),
{
    match header {
        Some(value) => if str_eq(value, "true") {
            Some(true)
        } else if str_eq(value, "false") {
            Some(false)
        } else {
            None
        },
        None => None,
    }
}

/// The error for a failed request with HTTP status `status`, given what the
/// parser made of its body: the error of the remote service where the body
/// is one, with the status beside it, and else a deserialization error.
pub open spec fn failure_from(parsed: Option<Json>, status: u16) -> StripeErrorModel {
    match parsed {
        Some(json) => match Error::decoded(json) {
            Some(error) => StripeErrorModel::Stripe(error, status),
            None => StripeErrorModel::JSONDeserialize(undecodable_error_message()),
        },
        None => StripeErrorModel::JSONDeserialize(undecodable_error_message()),
    }
}

/// Classifies the body of a failed request: see [`failure_from`].
pub fn classify_failure(parsed: Option<JsonValue>, status: u16) -> (error: StripeError)
    ensures
        error@ == failure_from(parsed.deep_view(), status),
{
    match parsed {
        Some(json) => match Error::from_value(&json) {
            Some(body) => {
                let inner: ApiErrors = *body.error;
                StripeError::Stripe(inner, status)
            },
            None => StripeError::JSONDeserialize(String::from_str("Could not deserialize Stripe error")),
        },
        None => StripeError::JSONDeserialize(String::from_str("Could not deserialize Stripe error")),
    }
}

/// The error for a failed request with HTTP status `status` and the body
/// `text`.
pub open spec fn remote_failure(text: Seq<char>, status: u16) -> StripeErrorModel {
    failure_from(parsed(text), status)
}

/// What a call has come to, and what it still may do.
#[derive(Debug)]
pub struct Executor {
    request: WireRequest,
    policy: RetryPolicy,
    outcome: AttemptOutcome,
    last_error: StripeError,
}

/// The model of an [`Executor`].
pub struct ExecutorModel {
    /// The request, as every attempt sends it.
    pub request: WireRequestModel,
    pub policy: RetryPolicy,
    pub outcome: AttemptOutcome,
    /// The error of the last failed attempt; before the first attempt, the
    /// error that says that the policy allowed none.
    pub last_error: StripeErrorModel,
}

impl View for Executor {
    type V = ExecutorModel;

    closed spec fn view(&self) -> ExecutorModel {
        ExecutorModel {
            request: self.request@,
            policy: self.policy,
            outcome: self.outcome,
            last_error: self.last_error@,
        }
    }
}

/// The executor of a call before its first attempt.
pub open spec fn initial(request: RequestModel, policy: RetryPolicy) -> ExecutorModel {
    ExecutorModel {
        request: prepared(request),
        policy,
        outcome: AttemptOutcome { status: None, should_retry: None, attempts: 0 },
        last_error: StripeErrorModel::PolicyMisconfiguration,
    }
}

/// What the retry policy decides in this state.
pub open spec fn decision(state: ExecutorModel) -> Outcome {
    state.policy.decision(state.outcome.status, state.outcome.should_retry, state.outcome.attempts)
}

/// The outcome of completing an attempt.
pub enum Advance {
    /// The call is over, with this result.
    Done(Result<Seq<u8>, StripeErrorModel>),
    /// The attempt failed in a way that may be retried; this is the executor
    /// that has it on record.
    Retry(ExecutorModel),
}

/// The state after one more failed attempt.
pub open spec fn recorded(
    state: ExecutorModel,
    status: Option<u16>,
    should_retry: Option<bool>,
    error: StripeErrorModel,
) -> ExecutorModel {
    ExecutorModel {
        request: state.request,
        policy: state.policy,
        outcome: AttemptOutcome { status, should_retry, attempts: (state.outcome.attempts + 1) as u32 },
        last_error: error,
    }
}

/// What an attempt that ended in `event` comes to.
///
/// A transport failure goes on record and leaves status and hint as they
/// were, whether it came before any response or while the body of one was
/// read: the status of a response that could not be read in full does not
/// count. A response with a status of success ends the call with its body.
/// Any other response goes on record with its status, its hint and the error
/// that its body holds, unless the body is not UTF-8, which ends the call.
pub open spec fn advance(state: ExecutorModel, event: TransportEventModel) -> Advance {
    match event {
        TransportEventModel::Failed(message) => Advance::Retry(
            recorded(
                state,
                state.outcome.status,
                state.outcome.should_retry,
                StripeErrorModel::ClientError(message),
            ),
        ),
        TransportEventModel::BodyFailed(message) => Advance::Retry(
            recorded(
                state,
                state.outcome.status,
                state.outcome.should_retry,
                StripeErrorModel::ClientError(message),
            ),
        ),
        TransportEventModel::Response { status, should_retry, body } => if is_success(status) {
            Advance::Done(Ok(body))
        } else if !vstd::utf8::valid_utf8(body) {
            Advance::Done(Err(StripeErrorModel::InvalidEncoding))
        } else {
            Advance::Retry(
                recorded(
                    state,
                    Some(remembered(status)),
                    retry_hint(should_retry),
                    remote_failure(vstd::utf8::decode_utf8(body), status),
                ),
            )
        },
    }
}

/// What [`Executor::step`] finds.
#[derive(Debug)]
pub enum Step {
    /// The policy allows no further attempt: the call has failed with this
    /// error.
    Stop(StripeError),
    /// An attempt is due.
    Attempt(PendingAttempt),
}

/// An attempt that the policy has allowed and that has not been completed.
#[derive(Debug)]
pub struct PendingAttempt {
    executor: Executor,
    delay: Option<u64>,
}

/// What [`PendingAttempt::complete`] finds.
#[derive(Debug)]
pub enum Completed {
    /// The call is over, with this result: the body of a successful response,
    /// or an error that no retry is tried for.
    Done(Result<Vec<u8>, StripeError>),
    /// The attempt failed and is on record; ask the executor for the next
    /// step.
    Retry(Executor),
}

/// The model of the result of a call.
pub open spec fn result_model(result: Result<Vec<u8>, StripeError>) -> Result<Seq<u8>, StripeErrorModel> {
    match result {
        Ok(body) => Ok(body@),
        Err(error) => Err(error@),
    }
}

impl View for Completed {
    type V = Advance;

    open spec fn view(&self) -> Advance {
        match self {
            Completed::Done(result) => Advance::Done(result_model(*result)),
            Completed::Retry(executor) => Advance::Retry(executor@),
        }
    }
}

impl View for PendingAttempt {
    type V = ExecutorModel;

    closed spec fn view(&self) -> ExecutorModel {
        self.executor@
    }
}

impl Executor {
    /// The executor of a call before its first attempt. The idempotency key
    /// of the request becomes a header and its body is taken in full, once,
    /// for all attempts.
    pub fn new(request: RequestDescription, policy: RetryPolicy) -> (executor: Self)
        ensures
            executor@ == initial(request@, policy),
    {
        Executor {
            request: request.into_wire(),
            policy,
            outcome: AttemptOutcome { status: None, should_retry: None, attempts: 0 },
            last_error: StripeError::PolicyMisconfiguration,
        }
    }

    /// Asks the retry policy what to do next. Where it stops, the error is
    /// that of the last attempt, and the error of a misconfigured policy if
    /// there never was one.
    pub fn step(self) -> (next: Step)
        ensures
            match decision(self@) {
                Outcome::Stop => next matches Step::Stop(error) && error@ == self@.last_error,
                Outcome::Continue(delay) => next matches Step::Attempt(pending) && pending@ == self@
                    && pending.pause() == delay,
            },
    {
        match self.policy.test(self.outcome.status, self.outcome.should_retry, self.outcome.attempts) {
            Outcome::Stop => Step::Stop(self.last_error),
            Outcome::Continue(delay) => {
                proof {
                    crate::retry_policy::lemma_decision_bounded(
                        self.policy,
                        self.outcome.status,
                        self.outcome.should_retry,
                        self.outcome.attempts,
                    );
                }
                Step::Attempt(PendingAttempt { executor: self, delay })
            },
        }
    }
}

impl PendingAttempt {
    #[verifier::type_invariant]
    spec fn allowed(self) -> bool {
        self.executor.outcome.attempts < self.executor.policy.max_attempts()
    }

    /// The pause that the policy asks for before the attempt, in seconds.
    pub closed spec fn pause(&self) -> Option<u64> {
        self.delay
    }

    /// The pause to make before the attempt, in seconds.
    pub fn delay(&self) -> (delay: Option<u64>)
        ensures
            delay == self.pause(),
    {
        self.delay
    }

    /// The request to send: the same for every attempt of a call.
    pub fn request(&self) -> (request: &WireRequest)
        ensures
            request@ == self@.request,
    {
        &self.executor.request
    }

    /// Takes in what came of the attempt: see [`advance`].
    pub fn complete(self, event: TransportEvent) -> (completed: Completed)
        ensures
            completed@ == advance(self@, event@),
    {
        proof {
            use_type_invariant(&self);
        }
        let PendingAttempt { executor, delay: _ } = self;
        let Executor { request, policy, outcome, last_error: _ } = executor;
        let attempts: u32 = outcome.attempts + 1;
        match event {
            TransportEvent::Failed(message) => Completed::Retry(
                Executor {
                    request,
                    policy,
                    outcome: AttemptOutcome { status: outcome.status, should_retry: outcome.should_retry, attempts },
                    last_error: StripeError::ClientError(message),
                },
            ),
            TransportEvent::BodyFailed(message) => Completed::Retry(
                Executor {
                    request,
                    policy,
                    outcome: AttemptOutcome { status: outcome.status, should_retry: outcome.should_retry, attempts },
                    last_error: StripeError::ClientError(message),
                },
            ),
            TransportEvent::Response { status, should_retry, body } => {
                if status_is_success(status) {
                    return Completed::Done(Ok(body));
                }
                let text = match text_of(body.as_slice()) {
                    Some(text) => text,
                    None => {
                        return Completed::Done(Err(StripeError::InvalidEncoding));
                    },
                };
                let error = classify_failure(parse(text), status);
                let hint = match &should_retry {
                    Some(value) => parse_retry_hint(Some(value.as_str())),
                    None => parse_retry_hint(None),
                };
                Completed::Retry(
                    Executor {
                        request,
                        policy,
                        outcome: AttemptOutcome { status: Some(remembered_status(status)), should_retry: hint, attempts },
                        last_error: error,
                    },
                )
            },
        }
    }
}

/// What the caller gets for the body of a successful response, given what the
/// parser made of it: the value that the JSON decodes to, and else a
/// deserialization error.
pub open spec fn typed_from<T: FromValueOpt>(parsed: Option<Json>) -> Result<T::V, StripeErrorModel> {
    match parsed {
        Some(json) => match T::decoded(json) {
            Some(value) => Ok(value),
            None => Err(StripeErrorModel::JSONDeserialize(undecodable_data_message())),
        },
        None => Err(StripeErrorModel::JSONDeserialize(undecodable_data_message())),
    }
}

/// The model of a typed result.
pub open spec fn typed_model<T: DeepView>(result: Result<T, StripeError>) -> Result<T::V, StripeErrorModel> {
    match result {
        Ok(value) => Ok(value.deep_view()),
        Err(error) => Err(error@),
    }
}

/// Reads the value that the caller asked for out of a parsed body: see
/// [`typed_from`].
pub fn typed<T: FromValueOpt>(parsed: Option<JsonValue>) -> (result: Result<T, StripeError>)
    ensures
        typed_model(result) == typed_from::<T>(parsed.deep_view()),
{
    match parsed {
        Some(json) => match T::from_value(&json) {
            Some(value) => Ok(value),
            None => Err(StripeError::JSONDeserialize(String::from_str("error deserializing request data"))),
        },
        None => Err(StripeError::JSONDeserialize(String::from_str("error deserializing request data"))),
    }
}

/// What the caller gets for the body of a successful response: an encoding
/// error where the bytes are not UTF-8, and else what the JSON text decodes
/// to.
pub open spec fn decoded_response<T: FromValueOpt>(body: Seq<u8>) -> Result<T::V, StripeErrorModel> {
    if vstd::utf8::valid_utf8(body) {
        typed_from::<T>(parsed(vstd::utf8::decode_utf8(body)))
    } else {
        Err(StripeErrorModel::InvalidEncoding)
    }
}

/// Decodes the body of a successful response into the type that the caller
/// asked for: see [`decoded_response`].
pub fn decode_response<T: FromValueOpt>(body: &[u8]) -> (result: Result<T, StripeError>)
    ensures
        typed_model(result) == decoded_response::<T>(body@),
{
    match text_of(body) {
        Some(text) => typed(parse(text)),
        None => Err(StripeError::InvalidEncoding),
    }
}

/// A whole call: its result, where the events sufficed to reach one, and the
/// request that each of its attempts sent.
pub struct Run {
    pub result: Option<Result<Seq<u8>, StripeErrorModel>>,
    pub sent: Seq<WireRequestModel>,
}

impl Run {
    /// The number of attempts that were made.
    pub open spec fn attempts(self) -> nat {
        self.sent.len()
    }
}

/// The call that starts in `state` and meets `events`, one per attempt, in
/// their order. Events that are left when the call is over are not looked
/// at; a call that wants an attempt when none is left has no result.
pub open spec fn run(state: ExecutorModel, events: Seq<TransportEventModel>) -> Run
    decreases events.len(),
{
    match decision(state) {
        Outcome::Stop => Run { result: Some(Err(state.last_error)), sent: seq![] },
        Outcome::Continue(_) => if events.len() == 0 {
            Run { result: None, sent: seq![] }
        } else {
            match advance(state, events[0]) {
                Advance::Done(result) => Run { result: Some(result), sent: seq![state.request] },
                Advance::Retry(next) => {
                    let rest = run(next, events.drop_first());
                    Run { result: rest.result, sent: seq![state.request] + rest.sent }
                },
            }
        },
    }
}

/// What [`replay`] returns: the result of the call, where the events sufficed
/// to reach one, as the caller's type, and the number of attempts made.
#[derive(Debug)]
pub struct Replay<T> {
    pub result: Option<Result<T, StripeError>>,
    pub attempts: usize,
}

/// The typed result of a run.
pub open spec fn typed_run<T: FromValueOpt>(raw: Run) -> (Option<Result<T::V, StripeErrorModel>>, nat) {
    (
        match raw.result {
            Some(Ok(body)) => Some(decoded_response::<T>(body)),
            Some(Err(error)) => Some(Err(error)),
            None => None,
        },
        raw.attempts(),
    )
}

/// The model of a [`Replay`].
pub open spec fn replay_model<T: DeepView>(replay: Replay<T>) -> (Option<Result<T::V, StripeErrorModel>>, nat) {
    (
        match replay.result {
            Some(result) => Some(typed_model(result)),
            None => None,
        },
        replay.attempts as nat,
    )
}

/// Carries a call out against events that are known beforehand, one per
/// attempt, and decodes the body of a successful response into `T`: the
/// executor as it runs over a real transport, without the sending and the
/// waiting.
pub fn replay<T: FromValueOpt>(request: RequestDescription, policy: RetryPolicy, events: Vec<TransportEvent>) -> (replayed: Replay<T>)
    ensures
        replay_model(replayed) == typed_run::<T>(run(initial(request@, policy), events.deep_view())),
{
    let ghost all = events.deep_view();
    let ghost start = initial(request@, policy);
    let mut remaining = events;
    let mut executor = Executor::new(request, policy);
    let mut attempts: usize = 0;
    assert(all.len() == events.len());
    loop
        invariant
            all == events.deep_view(),
            start == initial(request@, policy),
            all.len() <= usize::MAX,
            attempts + remaining.len() == all.len(),
            remaining.deep_view() =~= all.subrange(attempts as int, all.len() as int),
            run(start, all).result == run(executor@, remaining.deep_view()).result,
            run(start, all).attempts() == run(executor@, remaining.deep_view()).attempts() + attempts,
        decreases remaining.len(),
    {
        let ghost state = executor@;
        let ghost rest = remaining.deep_view();
        match executor.step() {
            Step::Stop(error) => {
                return Replay { result: Some(Err(error)), attempts };
            },
            Step::Attempt(pending) => {
                if remaining.len() == 0 {
                    return Replay { result: None, attempts };
                }
                let event = remaining.remove(0);
                assert(event@ == rest[0]);
                assert(remaining.deep_view() =~= rest.drop_first());
                attempts = attempts + 1;
                match pending.complete(event) {
                    Completed::Done(Ok(body)) => {
                        return Replay { result: Some(decode_response(body.as_slice())), attempts };
                    },
                    Completed::Done(Err(error)) => {
                        return Replay { result: Some(Err(error)), attempts };
                    },
                    Completed::Retry(next) => {
                        executor = next;
                    },
                }
            },
        }
    }
}

} // verus!
