//! One request and its response, as a transport reports them.

use vstd::prelude::*;

verus! {

/// What one request to the agent directory came to, as the transport saw it.
#[derive(Debug)]
pub enum Exchange<T> {
    /// No response arrived.
    Failed(reqwest::Error),
    /// A response arrived with this status code. `body` is the payload decoded
    /// as `T`, or the failure to read or decode it.
    Answered { status: u16, body: Result<T, reqwest::Error> },
}

/// The 2xx class of status codes.
pub open spec fn is_success(status: u16) -> bool {
    200 <= status < 300
}

/// The reason phrase that `http::StatusCode` shows after a code from 100 to
/// 999: the canonical one where the code has one, else a fixed text that says
/// that the code is unknown.
pub uninterp spec fn reason_phrase(code: u16) -> Seq<char>;

/// A decimal digit as a character.
pub open spec fn digit(d: u16) -> char {
    if d == 0 {
        '0'
    } else if d == 1 {
        '1'
    } else if d == 2 {
        '2'
    } else if d == 3 {
        '3'
    } else if d == 4 {
        '4'
    } else if d == 5 {
        '5'
    } else if d == 6 {
        '6'
    } else if d == 7 {
        '7'
    } else if d == 8 {
        '8'
    } else {
        '9'
    }
}

/// The three decimal digits of a number from 100 to 999.
pub open spec fn three_digits(code: u16) -> Seq<char> {
    seq![digit(code / 100), digit((code / 10) % 10), digit(code % 10)]
}

/// The text with which a status is shown: for a code from 100 to 999 its
/// three digits, a space and its reason phrase; any other number is no status
/// code, and the text says so.
pub open spec fn status_line(code: u16) -> Seq<char> {
    if 100 <= code <= 999 {
        three_digits(code) + " "@ + reason_phrase(code)
    } else {
        "invalid status code"@
    }
}

/// Calls `http::StatusCode::from_u16` (reached as `reqwest::StatusCode`) and
/// renders what it returns with `Display`: a status as its number, a space
/// and its reason phrase; the error that refuses a number outside 100 to 999
/// as its fixed text.
#[verifier::external_body]
pub(crate) fn status_text(code: u16) -> (text: String)
    ensures
        100 <= code <= 999 ==> text@ == three_digits(code) + " "@ + reason_phrase(code),
        !(100 <= code <= 999) ==> text@ == "invalid status code"@,
{
    match reqwest::StatusCode::from_u16(code) {
        Ok(status) => status.to_string(),
        Err(refused) => refused.to_string(),
    }
}

/// Whether a status code reports success.
pub fn status_is_success(status: u16) -> (success: bool)
    ensures
        success == is_success(status),
{
    200 <= status && status < 300
}

} // verus!
