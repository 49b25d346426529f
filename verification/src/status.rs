//! HTTP status codes: their classes and the text they are logged with.

use vstd::prelude::*;

verus! {

/// The canonical reason phrase that `reqwest::StatusCode::canonical_reason`
/// gives for a status code (`Not Found` for 404), `None` where it has none.
pub uninterp spec fn canonical_reason_of(code: u16) -> Option<Seq<char>>;

/// Calls `reqwest::StatusCode::from_u16` and, on the status it made,
/// `canonical_reason`. The phrase comes out of a fixed table that is too long
/// to restate, so the contract only names it. Codes that `from_u16` refuses
/// are kept out by the precondition.
#[verifier::external_body]
fn canonical_reason(code: u16) -> (reason: Option<String>)
    requires
        100 <= code <= 999,
    ensures
        reason.deep_view() == canonical_reason_of(code),
{
    match reqwest::StatusCode::from_u16(code) {
        Ok(status) => match status.canonical_reason() {
            Some(phrase) => Some(phrase.to_string()),
            None => None,
        },
        Err(_) => None,
    }
}

/// The class a status code falls into.
#[derive(Clone, Copy, Debug, PartialEq, Eq, Structural)]
pub enum StatusClass {
    /// 200 to 299.
    Success,
    /// 400 to 499.
    ClientError,
    /// 500 to 599.
    ServerError,
    /// Everything else, redirects and informational codes included.
    Unknown,
}

/// 2xx succeeds, 4xx is an error of the client, 5xx one of the server, and
/// anything else is unknown.
pub open spec fn class_of(code: u16) -> StatusClass {
    if 200 <= code <= 299 {
        StatusClass::Success
    } else if 400 <= code <= 499 {
        StatusClass::ClientError
    } else if 500 <= code <= 599 {
        StatusClass::ServerError
    } else {
        StatusClass::Unknown
    }
}

/// The decimal digit `d` as a character.
pub open spec fn digit_char(d: int) -> char
    recommends
        0 <= d <= 9,
{
    "0123456789"@[d]
}

/// The three decimal digits of a status code.
pub open spec fn decimal_of(code: u16) -> Seq<char> {
    seq![
        digit_char(code as int / 100),
        digit_char((code as int / 10) % 10),
        digit_char(code as int % 10),
    ]
}

/// The phrase a status is shown with: its canonical reason, or a fixed
/// placeholder where it has none.
pub open spec fn phrase_of(reason: Option<Seq<char>>) -> Seq<char> {
    match reason {
        Some(phrase) => phrase,
        None => "<unknown status code>"@,
    }
}

/// A status as it appears in a log line: the code, a space, the phrase.
pub open spec fn status_line(code: u16, reason: Option<Seq<char>>) -> Seq<char> {
    decimal_of(code) + " "@ + phrase_of(reason)
}

/// An HTTP status code: a number of three digits.
#[derive(Clone, Copy, Debug, PartialEq, Eq)]
pub struct StatusCode {
    code: u16,
}

impl View for StatusCode {
    type V = u16;

    closed spec fn view(&self) -> u16 {
        self.code
    }
}

fn digit_text(d: u16) -> (text: &'static str)
    requires
        d <= 9,
    ensures
        text@ == seq![digit_char(d as int)],
{
    proof {
        reveal_strlit("0123456789");
    }
    let digits: &'static str = "0123456789";
    let at: usize = d as usize;
    digits.substring_ascii(at, at + 1)
}

impl StatusCode {
    #[verifier::type_invariant]
    spec fn three_digits(self) -> bool {
        100 <= self.code <= 999
    }

    /// The status with this code, for the codes of three digits.
    pub fn from_u16(code: u16) -> (status: Option<StatusCode>)
        ensures
            status is Some <==> 100 <= code <= 999,
            status matches Some(s) ==> s@ == code,
    {
        if 100 <= code && code <= 999 {
            Some(StatusCode { code })
        } else {
            None
        }
    }

    /// The code as a number.
    pub fn as_u16(&self) -> (code: u16)
        ensures
            code == self@,
            100 <= code <= 999,
    {
        proof {
            use_type_invariant(self);
        }
        self.code
    }

    /// The class of this status.
    pub fn class(&self) -> (class: StatusClass)
        ensures
            class == class_of(self@),
    {
        let code: u16 = self.code;
        if 200 <= code && code <= 299 {
            StatusClass::Success
        } else if 400 <= code && code <= 499 {
            StatusClass::ClientError
        } else if 500 <= code && code <= 599 {
            StatusClass::ServerError
        } else {
            StatusClass::Unknown
        }
    }

    /// Whether the status is one of success, 200 to 299.
    pub fn is_success(&self) -> (yes: bool)
        ensures
            yes == (200 <= self@ <= 299),
    {
        200 <= self.code && self.code <= 299
    }

    /// The canonical reason phrase of this status, where it has one.
    pub fn reason(&self) -> (reason: Option<String>)
        ensures
            reason.deep_view() == canonical_reason_of(self@),
    {
        proof {
            use_type_invariant(self);
        }
        canonical_reason(self.code)
    }

    /// The three digits of the code.
    pub fn decimal(&self) -> (text: String)
        ensures
            text@ == decimal_of(self@),
    {
        proof {
            use_type_invariant(self);
        }
        let code: u16 = self.code;
        let mut text = String::from_str(digit_text(code / 100));
        text.append(digit_text((code / 10) % 10));
        text.append(digit_text(code % 10));
        text
    }
}

/// The text a status is logged with, given the reason phrase looked up for
/// it: `403 Forbidden`.
pub fn render_status(status: StatusCode, reason: &Option<String>) -> (text: String)
    ensures
        text@ == status_line(status@, reason.deep_view()),
{
    let mut text = status.decimal();
    text.append(" ");
    match reason {
        Some(phrase) => text.append(phrase.as_str()),
        None => text.append("<unknown status code>"),
    }
    text
}

} // verus!
