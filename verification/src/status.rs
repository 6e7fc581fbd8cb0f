//! HTTP status codes.

use vstd::prelude::*;

verus! {

/// The least HTTP status code.
pub const MIN_STATUS: u16 = 100;

/// The greatest HTTP status code.
pub const MAX_STATUS: u16 = 999;

/// The status code of "Too Many Requests".
pub const TOO_MANY_REQUESTS: u16 = 429;

/// Whether `code` is an HTTP status code.
pub open spec fn is_status(code: u16) -> bool {
    MIN_STATUS <= code <= MAX_STATUS
}

/// Whether the status code `code` says that the server failed.
pub open spec fn is_server_error_code(code: u16) -> bool {
    500 <= code <= 599
}

/// The phrase that `reqwest::StatusCode` prints after the number of the status
/// code `code`: its standard reason, or a placeholder where it has none.
pub uninterp spec fn reason_phrase(code: u16) -> Seq<char>;

/// How the status code `code` reads in a message: its number, a space and its
/// phrase.
pub open spec fn status_line(code: u16) -> Seq<char> {
    crate::text::decimal(code as nat) + " "@ + reason_phrase(code)
}

/// The status codes are the numbers from 100 to 999, and the server failures
/// among them those from 500 to 599.
pub proof fn status_codes_by_number(code: u16)
    ensures
        is_status(code) <==> 100 <= code <= 999,
        is_server_error_code(code) <==> 500 <= code <= 599,
        code == TOO_MANY_REQUESTS <==> code == 429,
{
}

/// A status reads as its number, a space and its phrase.
pub proof fn status_line_begins_with_the_number(code: u16)
    ensures
        status_line(code) == crate::text::decimal(code as nat) + " "@ + reason_phrase(code),
        crate::text::decimal(code as nat).is_prefix_of(status_line(code)),
{
    let number = crate::text::decimal(code as nat);
    assert(number =~= status_line(code).subrange(0, number.len() as int));
}

/// `Display` of `reqwest::StatusCode` prints the number in decimal, a space and a
/// phrase that depends on the number alone. `reqwest::StatusCode::from_u16` takes
/// every number from 100 to 999.
#[verifier::external_body]
fn status_text(code: u16) -> (text: String)
    requires
        is_status(code),
    ensures
        text@ == crate::text::decimal(code as nat) + " "@ + reason_phrase(code),
{
    reqwest::StatusCode::from_u16(code).unwrap().to_string()
}

/// An HTTP status code, from 100 to 999.
#[derive(Debug, Clone, Copy)]
pub struct HttpStatus {
    code: u16,
}

impl View for HttpStatus {
    type V = u16;

    closed spec fn view(&self) -> u16 {
        self.code
    }
}

impl HttpStatus {
    #[verifier::type_invariant]
    spec fn is_valid(self) -> bool {
        is_status(self.code)
    }

    /// The status with the given code, where there is one.
    pub fn from_u16(code: u16) -> (status: Option<HttpStatus>)
        ensures
            is_status(code) ==> status is Some && status->0@ == code,
            !is_status(code) ==> status is None,
            100 <= code <= 999 ==> status is Some && status->0@ == code,
            code < 100 || code > 999 ==> status is None,
    {
        if MIN_STATUS <= code && code <= MAX_STATUS {
            Some(HttpStatus { code })
        } else {
            None
        }
    }

    /// The code.
    pub fn as_u16(&self) -> (code: u16)
        ensures
            code == self@,
            is_status(code),
            100 <= code <= 999,
    {
        proof {
            use_type_invariant(self);
        }
        self.code
    }

    /// Whether the server asks to slow down.
    pub fn is_rate_limit(&self) -> (limited: bool)
        ensures
            limited == (self@ == TOO_MANY_REQUESTS),
            limited == (self@ == 429),
    {
        self.code == TOO_MANY_REQUESTS
    }

    /// Whether the server failed.
    pub fn is_server_error(&self) -> (failed: bool)
        ensures
            failed == is_server_error_code(self@),
            failed == (500 <= self@ <= 599),
    {
        500 <= self.code && self.code <= 599
    }

    /// The number and the phrase of the status.
    pub fn text(&self) -> (text: String)
        ensures
            text@ == status_line(self@),
            text@ == crate::text::decimal(self@ as nat) + " "@ + reason_phrase(self@),
    {
        proof {
            use_type_invariant(self);
        }
        status_text(self.code)
    }
}

} // verus!
