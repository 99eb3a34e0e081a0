//! HTTP status codes as the executor and the retry policies classify them.

use vstd::prelude::*;

verus! {

/// A status in `[200, 300)`: the request succeeded.
pub open spec fn is_success(code: u16) -> bool {
    200 <= code < 300
}

/// A status in `[400, 500)`: the request itself was at fault.
pub open spec fn is_client_error(code: u16) -> bool {
    400 <= code < 500
}

/// The status codes that `http_types::StatusCode` has a name for.
pub open spec fn is_registered(code: u16) -> bool {
    ||| 100 <= code <= 101
    ||| code == 103
    ||| 200 <= code <= 207
    ||| code == 226
    ||| 300 <= code <= 304
    ||| 307 <= code <= 308
    ||| 400 <= code <= 418
    ||| 421 <= code <= 426
    ||| 428 <= code <= 429
    ||| code == 431
    ||| code == 451
    ||| 500 <= code <= 508
    ||| 510 <= code <= 511
}

/// The status that is remembered for a response and shown to the retry
/// policy: the code itself where it is a registered one, else 500.
pub open spec fn remembered(code: u16) -> u16 {
    if is_registered(code) {
        code
    } else {
        500
    }
}

/// The code itself where `http_types` knows it.
///
/// Trusted: calls `http_types::StatusCode::try_from`, a `match` that maps
/// each code of [`is_registered`] to the variant of that number and rejects
/// every other, and converts the variant back with `u16::from`, which gives
/// the variant's number.
#[verifier::external_body]
fn registered(code: u16) -> (known: Option<u16>)
    ensures
        known == if is_registered(code) {
            Some(code)
        } else {
            None::<u16>
        },
{
    http_types::StatusCode::try_from(code).ok().map(u16::from)
}

/// Whether `code` reports success.
pub fn status_is_success(code: u16) -> (yes: bool)
    ensures
        yes == is_success(code),
{
    200 <= code && code < 300
}

/// Whether `code` reports a client error.
pub fn status_is_client_error(code: u16) -> (yes: bool)
    ensures
        yes == is_client_error(code),
{
    400 <= code && code < 500
}

/// The status to remember for a response with status `code`.
pub fn remembered_status(code: u16) -> (status: u16)
    ensures
        status == remembered(code),
{
    match registered(code) {
        Some(known) => known,
        None => 500,
    }
}

} // verus!
