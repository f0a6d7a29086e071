//! HTTP status codes, as far as the gateway reads and writes them.

use vstd::prelude::*;

verus! {

/// A three-digit HTTP status code.
#[derive(Clone, Copy, Debug, PartialEq, Eq, Structural)]
pub struct HttpStatus {
    pub code: u16,
}

/// The character of a decimal digit `d`, for `0 <= d <= 9`.
pub open spec fn digit_char(d: int) -> char {
    if d == 0 {
        '0'
    } else if d == 1 {
        '1'
    } else if d == 2 {
        '2'
    } else if d == 3 {
        '3'
    } else if d == 4 {
        '4'
    } else if d == 5 {
        '5'
    } else if d == 6 {
        '6'
    } else if d == 7 {
        '7'
    } else if d == 8 {
        '8'
    } else {
        '9'
    }
}

/// The three decimal digits of a code between 100 and 999.
pub open spec fn three_digits(code: int) -> Seq<char> {
    seq![digit_char(code / 100), digit_char((code / 10) % 10), digit_char(code % 10)]
}

/// Whether `text` holds the three digits of `code` somewhere in it.
pub open spec fn mentions_code(text: Seq<char>, code: int) -> bool {
    exists|i: int|
        0 <= i && i + 3 <= text.len() && #[trigger] text.subrange(i, i + 3) == three_digits(code)
}

/// The wording of a status: its three digits, a space, and the standard
/// reason phrase of the code (for a code without one, a fixed placeholder).
pub uninterp spec fn status_text(code: int) -> Seq<char>;

impl HttpStatus {
    /// Codes run from 100 to 999.
    pub open spec fn is_valid(&self) -> bool {
        100 <= self.code <= 999
    }

    /// Checks a number and wraps it; numbers outside 100..=999 are no status.
    pub fn new(code: u16) -> (made: Option<HttpStatus>)
        ensures
            made == if 100 <= code <= 999 {
                Some(HttpStatus { code })
            } else {
                None::<HttpStatus>
            },
    {
        if 100 <= code && code <= 999 {
            Some(HttpStatus { code })
        } else {
            None
        }
    }

    /// 500, the gateway's answer to a provider reply it cannot read.
    pub fn internal_server_error() -> (status: HttpStatus)
        ensures
            status.code == 500,
    {
        HttpStatus { code: 500 }
    }

    /// 502, the gateway's answer to a provider that reports failure.
    pub fn bad_gateway() -> (status: HttpStatus)
        ensures
            status.code == 502,
    {
        HttpStatus { code: 502 }
    }

    /// 503, the gateway's answer when the provider cannot be reached.
    pub fn service_unavailable() -> (status: HttpStatus)
        ensures
            status.code == 503,
    {
        HttpStatus { code: 503 }
    }

    /// The success class: 200 through 299.
    pub open spec fn succeeded(&self) -> bool {
        200 <= self.code <= 299
    }

    /// Whether the code lies in the success class.
    pub fn is_success(&self) -> (yes: bool)
        ensures
            yes == self.succeeded(),
    {
        200 <= self.code && self.code <= 299
    }

    /// The status in words, such as `500 Internal Server Error`.
    pub fn describe(&self) -> (text: String)
        requires
            self.is_valid(),
        ensures
            text@ == status_text(self.code as int),
            text@.len() >= 4,
            text@.subrange(0, 3) == three_digits(self.code as int),
            text@[3] == ' ',
    {
        display_status(self.code)
    }
}

/// Writes a status code out with the `Display` of `http::StatusCode`, after
/// `http::StatusCode::from_u16` has taken the number.
///
/// Taken on trust: the text depends on the code alone, so it is the one that
/// `status_text` names; it opens with the code in decimal, which for 100..=999
/// is three digits, followed by a space and the reason phrase. Codes in that
/// range are the ones `from_u16` accepts.
#[verifier::external_body]
fn display_status(code: u16) -> (text: String)
    requires
        100 <= code <= 999,
    ensures
        text@ == status_text(code as int),
        text@.len() >= 4,
        text@.subrange(0, 3) == three_digits(code as int),
        text@[3] == ' ',
{
    http::StatusCode::from_u16(code).unwrap().to_string()
}

} // verus!
