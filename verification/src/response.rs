//! What an HTTP response for a problem carries: its status code and its body.

use vstd::prelude::*;

use crate::problem::Problem;

verus! {

/// `http::status::InvalidStatusCode`, the error of `http::StatusCode::from_u16`.
#[verifier::external_type_specification]
#[verifier::external_body]
pub struct ExInvalidStatusCode(http::status::InvalidStatusCode);

/// `http::StatusCode::from_u16`, with an accepted code read back by
/// `StatusCode::as_u16`. The `http` source accepts exactly the codes in
/// `100..=999` and keeps the number it was given.
#[verifier::external_body]
fn status_code_from_u16(code: u16) -> (r: Result<u16, http::status::InvalidStatusCode>)
    ensures
        r is Ok <==> 100 <= code <= 999,
        r matches Ok(c) ==> c == code,
{
    match http::StatusCode::from_u16(code) {
        Ok(s) => Ok(s.as_u16()),
        Err(e) => Err(e),
    }
}

/// The body sent when a problem cannot be serialized.
pub const FALLBACK_BODY: &'static str = r#"{"type":"about:blank","title":"Internal Server Error","status":500}"#;

/// The HTTP status of a response for a problem with status (or default) `s`:
/// `s` itself when it is a valid HTTP status code, 500 otherwise.
pub open spec fn response_status_for(s: u16) -> u16 {
    if 100 <= s <= 999 {
        s
    } else {
        500
    }
}

impl Problem {
    /// The status code of the HTTP response for this problem: the status (500
    /// when unset), or 500 Internal Server Error when that is no valid code.
    pub fn response_status(&self) -> (r: u16)
        ensures
            r == response_status_for(self@.status_or_default()),
            100 <= r <= 999,
    {
        match status_code_from_u16(self.status_or_default()) {
            Ok(c) => c,
            Err(_) => 500,
        }
    }

    /// The body of the HTTP response, given the serialized problem, or `None`
    /// when serialization failed, in which case a fixed generic 500 body is sent.
    pub fn response_body(serialized: Option<String>) -> (r: String)
        ensures
            match serialized {
                Some(s) => r@ == s@,
                None => r@ == FALLBACK_BODY@,
            },
    {
        match serialized {
            Some(s) => s,
            None => String::from_str(FALLBACK_BODY),
        }
    }
}

} // verus!
