//! HTTP status codes as the health probe reads them.

use vstd::prelude::*;

verus! {

/// Whether a status code counts as a success: the range 200 to 299.
pub open spec fn spec_is_success(code: u16) -> bool {
    200 <= code < 300
}

/// The status code with which a server asks for authentication.
pub open spec fn spec_unauthorized() -> u16 {
    401
}

/// Calls `reqwest::StatusCode::from_u16` and then `StatusCode::is_success`.
/// The contract claims that the answer is `true` exactly for codes in 200..300:
/// `from_u16` accepts 100..=999, `is_success` tests 200..300, and a code that
/// `from_u16` rejects is outside both.
#[verifier::external_body]
fn status_is_success(code: u16) -> (r: bool)
    ensures
        r == spec_is_success(code),
{
    match reqwest::StatusCode::from_u16(code) {
        Ok(status) => status.is_success(),
        Err(_) => false,
    }
}

/// Reads `reqwest::StatusCode::UNAUTHORIZED` through `StatusCode::as_u16`.
/// The contract claims that the constant is 401.
#[verifier::external_body]
fn unauthorized_code() -> (r: u16)
    ensures
        r == spec_unauthorized(),
{
    reqwest::StatusCode::UNAUTHORIZED.as_u16()
}

/// A status code received from the backend.
#[derive(Clone, Copy, Debug, PartialEq, Eq, Structural)]
pub struct HttpStatus {
    pub code: u16,
}

impl HttpStatus {
    pub fn new(code: u16) -> (s: Self)
        ensures
            s.code == code,
    {
        HttpStatus { code }
    }

    /// True exactly for a 2xx code.
    pub fn is_success(&self) -> (r: bool)
        ensures
            r == spec_is_success(self.code),
    {
        status_is_success(self.code)
    }

    /// True exactly for 401.
    pub fn is_unauthorized(&self) -> (r: bool)
        ensures
            r == (self.code == spec_unauthorized()),
    {
        self.code == unauthorized_code()
    }
}

} // verus!
