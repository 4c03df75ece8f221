//! HTTP status codes.

use vstd::prelude::*;

use crate::text::append_decimal;

verus! {

/// What `reqwest::StatusCode::canonical_reason` returns for the status of a code.
pub uninterp spec fn reason_phrase(code: u16) -> Option<Seq<char>>;

/// An optional text, seen through its characters.
pub open spec fn optional_text(text: Option<&str>) -> Option<Seq<char>> {
    match text {
        Some(text) => Some(text@),
        None => None,
    }
}

/// Calls `reqwest::StatusCode::from_u16`, which accepts every code of three digits, and
/// `reqwest::StatusCode::canonical_reason` on the status. The contract claims that the phrase is a
/// function of the code alone, which `reason_phrase` names.
#[verifier::external_body]
fn canonical_reason(code: u16) -> (reason: Option<&'static str>)
    requires
        100 <= code < 1000,
    ensures
        optional_text(reason) == reason_phrase(code),
{
    match reqwest::StatusCode::from_u16(code) {
        Ok(status) => status.canonical_reason(),
        Err(_) => None,
    }
}

/// Whether a code tells that the request is at fault.
pub open spec fn is_client_error_code(code: int) -> bool {
    400 <= code < 500
}

/// Whether a code tells that the server is at fault.
pub open spec fn is_server_error_code(code: int) -> bool {
    500 <= code < 600
}

/// Whether a code tells that the request succeeded.
pub open spec fn is_success_code(code: int) -> bool {
    200 <= code < 300
}

/// Whether the same request may succeed later: the server is at fault, or it got too many requests.
pub open spec fn is_busy_code(code: int) -> bool {
    is_server_error_code(code) || code == 429
}

/// A status line: the code and the reason phrase.
pub open spec fn status_text(code: u16, reason: Option<Seq<char>>) -> Seq<char> {
    crate::text::decimal(code as nat) + " "@ + (match reason {
        Some(reason) => reason,
        None => "<unknown status code>"@,
    })
}

/// The text of a client error.
pub open spec fn client_error_text(reason: Option<Seq<char>>) -> Seq<char> {
    "OpenSubtitles returned a client error: "@ + (match reason {
        Some(reason) => reason,
        None => "No reason given"@,
    })
}

/// A client error that the service returned.
#[derive(Debug)]
pub struct ClientError {
    pub message: String,
}

/// The status of a reply, as far as the client cares.
pub trait HttpStatus {
    /// The status code.
    spec fn status_code(&self) -> u16;

    /// Fails on a client error.
    fn check_status(&self) -> (r: Result<(), ClientError>)
        ensures
            r is Err <==> is_client_error_code(self.status_code() as int),
            r matches Err(e) ==> e.message@ == client_error_text(
                reason_phrase(self.status_code()),
            ),
    ;

    /// Whether the same request may succeed later.
    fn try_again_later(&self) -> (b: bool)
        ensures
            b == is_busy_code(self.status_code() as int),
    ;
}

/// A status code of three digits.
#[derive(Clone, Copy, Debug, PartialEq, Eq, Structural)]
pub struct Status {
    code: u16,
}

/// A status line from a code and a reason phrase.
pub fn status_line(code: u16, reason: Option<&str>) -> (text: String)
    ensures
        text@ == status_text(code, optional_text(reason)),
{
    let mut text = String::new();
    append_decimal(&mut text, code as u32);
    text.append(" ");
    match reason {
        Some(reason) => text.append(reason),
        None => text.append("<unknown status code>"),
    }
    assert(text@ =~= status_text(code, optional_text(reason)));
    text
}

/// The text of a client error from a reason phrase.
pub fn client_error_message(reason: Option<&str>) -> (text: String)
    ensures
        text@ == client_error_text(optional_text(reason)),
{
    let mut text = "OpenSubtitles returned a client error: ".to_owned();
    match reason {
        Some(reason) => text.append(reason),
        None => text.append("No reason given"),
    }
    text
}

impl Status {
    #[verifier::type_invariant]
    spec fn well_formed(self) -> bool {
        100 <= self.code < 1000
    }

    /// The code.
    pub closed spec fn spec_code(self) -> u16 {
        self.code
    }

    /// The status line.
    pub open spec fn line(self) -> Seq<char> {
        status_text(self.spec_code(), reason_phrase(self.spec_code()))
    }

    /// The status of a code, if the code has three digits.
    pub fn new(code: u16) -> (status: Option<Status>)
        ensures
            status is Some <==> 100 <= code < 1000,
            status matches Some(status) ==> status.spec_code() == code,
    {
        if code < 100 || code >= 1000 {
            None
        } else {
            Some(Status { code })
        }
    }

    /// The code.
    pub fn code(&self) -> (code: u16)
        ensures
            code == self.spec_code(),
            100 <= code < 1000,
    {
        proof {
            use_type_invariant(self);
        }
        self.code
    }

    /// Whether the request succeeded.
    pub fn is_success(&self) -> (b: bool)
        ensures
            b == is_success_code(self.spec_code() as int),
    {
        200 <= self.code && self.code < 300
    }

    /// Whether the request is at fault.
    pub fn is_client_error(&self) -> (b: bool)
        ensures
            b == is_client_error_code(self.spec_code() as int),
    {
        400 <= self.code && self.code < 500
    }

    /// The status line.
    pub fn text(&self) -> (text: String)
        ensures
            text@ == self.line(),
    {
        proof {
            use_type_invariant(self);
        }
        status_line(self.code, canonical_reason(self.code))
    }
}

impl HttpStatus for Status {
    open spec fn status_code(&self) -> u16 {
        self.spec_code()
    }

    fn check_status(&self) -> (r: Result<(), ClientError>) {
        proof {
            use_type_invariant(self);
        }
        if self.is_client_error() {
            Err(ClientError { message: client_error_message(canonical_reason(self.code)) })
        } else {
            Ok(())
        }
    }

    fn try_again_later(&self) -> (b: bool) {
        (500 <= self.code && self.code < 600) || self.code == 429
    }
}

/// No success is a client error or comes from a busy server, and the only client error that comes
/// from a busy server is the one that tells of too many requests.
pub proof fn busy_is_no_success(code: int)
    ensures
        !(is_busy_code(code) && is_success_code(code)),
        !(is_client_error_code(code) && is_success_code(code)),
        is_busy_code(code) && is_client_error_code(code) <==> code == 429,
{
}

/// The first digit of a code decides what it tells, but for the code of too many requests, which
/// tells of a busy server as all codes of a server at fault do.
pub proof fn first_digits_decide(code: int, status: Status)
    ensures
        is_success_code(code) <==> code / 100 == 2,
        is_client_error_code(code) <==> code / 100 == 4,
        is_server_error_code(code) <==> code / 100 == 5,
        is_busy_code(code) <==> code / 100 == 5 || code == 429,
        status.status_code() == status.spec_code(),
{
}

/// A status line is the three digits of the code, a space and the reason phrase, whole.
pub proof fn status_lines_show_code_and_reason(code: u16, reason: Option<Seq<char>>)
    requires
        100 <= code < 1000,
    ensures
        status_text(code, reason).len() >= 4,
        status_text(code, reason)[0] as int == 48 + code / 100,
        status_text(code, reason)[1] as int == 48 + code / 10 % 10,
        status_text(code, reason)[2] as int == 48 + code % 10,
        status_text(code, reason)[3] == ' ',
        reason matches Some(phrase) ==> status_text(code, reason).skip(4) == phrase,
        reason is None ==> status_text(code, reason).skip(4) == "<unknown status code>"@,
{
    let n = code as nat;
    reveal_strlit(" ");
    reveal_with_fuel(crate::text::decimal, 3);
    let d = crate::text::decimal(n);
    assert(n / 10 >= 10 && n / 10 / 10 < 10 && n / 10 / 10 == n / 100);
    assert(d =~= seq![
        crate::text::digit(n / 10 / 10),
        crate::text::digit(n / 10 % 10),
        crate::text::digit(n % 10),
    ]);
    let phrase = match reason {
        Some(phrase) => phrase,
        None => "<unknown status code>"@,
    };
    assert(status_text(code, reason) =~= (d + " "@) + phrase);
    assert(status_text(code, reason).skip(4) =~= phrase);
}

/// A status line of any code starts with the code and a space, and ends in the reason phrase.
pub proof fn status_lines_hold_their_parts(code: u16, reason: Option<Seq<char>>)
    ensures
        ({
            let front = crate::text::decimal(code as nat) + " "@;
            let text = status_text(code, reason);
            &&& front.is_prefix_of(text)
            &&& reason matches Some(phrase) ==> text.skip(front.len() as int) == phrase
            &&& reason is None ==> text.skip(front.len() as int) == "<unknown status code>"@
        }),
{
    let front = crate::text::decimal(code as nat) + " "@;
    let text = status_text(code, reason);
    let phrase = match reason {
        Some(phrase) => phrase,
        None => "<unknown status code>"@,
    };
    crate::text::ends_of_sum(front, phrase);
    assert(text.skip(front.len() as int) =~= phrase);
}

/// The line of a status shows its own code and the reason phrase of that code.
pub proof fn statuses_show_their_own_reason(status: Status)
    requires
        100 <= status.spec_code() < 1000,
    ensures
        status.line()[0] as int == 48 + status.spec_code() / 100,
        status.line()[1] as int == 48 + status.spec_code() / 10 % 10,
        status.line()[2] as int == 48 + status.spec_code() % 10,
        status.line()[3] == ' ',
        status.line().skip(4) == (match reason_phrase(status.spec_code()) {
            Some(phrase) => phrase,
            None => "<unknown status code>"@,
        }),
{
    status_lines_show_code_and_reason(status.spec_code(), reason_phrase(status.spec_code()));
}

/// The text of a client error ends in its reason phrase, behind the same words for every phrase, and
/// the lack of a phrase reads like a phrase that tells of it.
pub proof fn client_errors_name_their_reason(a: Seq<char>, b: Seq<char>)
    ensures
        crate::text::same_words(
            client_error_text(Some(a)),
            Seq::empty(),
            a,
            client_error_text(Some(b)),
            Seq::empty(),
            b,
        ),
        client_error_text(None) == client_error_text(Some("No reason given"@)),
{
    let words = "OpenSubtitles returned a client error: "@;
    let empty = Seq::<char>::empty();
    crate::text::words_of_sums(words, empty, a, empty, b);
    assert(client_error_text(Some(a)) =~= empty + words + a);
    assert(client_error_text(Some(b)) =~= empty + words + b);
}

} // verus!
