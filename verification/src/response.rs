//! Telling a successful response from a failed one, and describing the
//! failure.

use crate::text::{decimal, push_decimal, push_str};
use vstd::prelude::*;

verus! {

/// What a status code says of a response.
#[derive(Clone, Copy, Debug, PartialEq, Eq, Structural)]
pub enum StatusClass {
    /// The response is handed to the caller as it is.
    Success,
    /// The body is read as text and an error is made of it.
    Failure,
}

/// Whether a status code is in the success range, 200 to 299.
pub open spec fn is_success(code: u16) -> bool {
    200 <= code < 300
}

/// Sorts a response by its status code.
pub fn classify(code: u16) -> (class: StatusClass)
    ensures
        class == if is_success(code) {
            StatusClass::Success
        } else {
            StatusClass::Failure
        },
{
    if 200 <= code && code < 300 {
        StatusClass::Success
    } else {
        StatusClass::Failure
    }
}

/// The canonical reason phrase of a status code, where it has one.
pub uninterp spec fn canonical_reason_of(code: u16) -> Option<Seq<char>>;

/// The view of a text that may be absent.
pub open spec fn text_view(text: Option<String>) -> Option<Seq<char>> {
    match text {
        Some(t) => Some(t@),
        None => None,
    }
}

/// The canonical reason phrase of a status code.
///
/// Trusted: this is `StatusCode::from_u16` followed by
/// `StatusCode::canonical_reason`, both of reqwest (its re-export of the http
/// crate). A number that is no status code has no phrase. The phrase hangs on
/// the number alone, and the contract only gives it its name.
#[verifier::external_body]
fn canonical_reason(code: u16) -> (reason: Option<String>)
    ensures
        text_view(reason) == canonical_reason_of(code),
{
    match reqwest::StatusCode::from_u16(code) {
        Ok(status) => status.canonical_reason().map(str::to_owned),
        Err(_) => None,
    }
}

/// A response with a status code outside the success range.
#[derive(Clone, Debug)]
pub struct ApplicationError {
    /// The numeric status code.
    pub code: u16,
    /// The canonical reason phrase, or `Unknown`.
    pub reason: String,
    /// The response body as text.
    pub body: String,
}

/// The reason phrase of an error: the canonical one, or `Unknown` where the
/// code has none.
pub open spec fn reason_or_unknown(reason: Option<Seq<char>>) -> Seq<char> {
    match reason {
        Some(phrase) => phrase,
        None => "Unknown"@,
    }
}

/// An error in one line: the code, a space, the reason, a colon and a space,
/// the body.
pub open spec fn message_of(code: u16, reason: Seq<char>, body: Seq<char>) -> Seq<char> {
    decimal(code as nat) + " "@ + reason + ": "@ + body
}

impl ApplicationError {
    /// The error for a response with this code, reason phrase and body.
    pub fn new(code: u16, reason: Option<String>, body: String) -> (error: Self)
        ensures
            error.code == code,
            error.reason@ == reason_or_unknown(text_view(reason)),
            error.body == body,
    {
        let reason = match reason {
            Some(phrase) => phrase,
            None => "Unknown".to_owned(),
        };
        ApplicationError { code, reason, body }
    }

    /// The error for a response with this code and body, with the code's
    /// canonical reason phrase.
    pub fn for_status(code: u16, body: String) -> (error: Self)
        ensures
            error.code == code,
            error.reason@ == reason_or_unknown(canonical_reason_of(code)),
            error.body == body,
    {
        ApplicationError::new(code, canonical_reason(code), body)
    }

    /// The error in one line, as in `404 Not Found: no such collection`.
    pub fn message(&self) -> (text: String)
        ensures
            text@ == message_of(self.code, self.reason@, self.body@),
    {
        let mut text = String::new();
        push_decimal(&mut text, self.code);
        push_str(&mut text, " ");
        push_str(&mut text, self.reason.as_str());
        push_str(&mut text, ": ");
        push_str(&mut text, self.body.as_str());
        assert(Seq::<char>::empty() + decimal(self.code as nat) =~= decimal(self.code as nat));
        text
    }
}

} // verus!
