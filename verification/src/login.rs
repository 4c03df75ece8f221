//! Logging in and out.

use reqwest::header::HeaderValue;
use vstd::prelude::*;

use crate::dispatch::{BUSY_PAUSE_MS, REPLY_PAUSE_MS};
use crate::header::{bearer_header, TokenError};
use crate::status::{HttpStatus, Status};

verus! {

/// The pause after an attempt to log in, in milliseconds.
pub const LOGIN_PAUSE_MS: u64 = 1000;

/// The body of a request to log in.
#[derive(Debug)]
pub struct LoginRequestBody {
    pub username: String,
    pub password: String,
}

impl LoginRequestBody {
    /// The body for an account.
    pub fn new(username: &str, password: &str) -> (body: Self)
        ensures
            body.username@ == username@,
            body.password@ == password@,
    {
        Self { username: username.to_owned(), password: password.to_owned() }
    }
}

/// The reply to a successful request to log in.
#[derive(Debug)]
pub struct LoginResponse {
    pub token: String,
}

impl LoginResponse {
    /// The authorization header of the session.
    pub fn token(&self) -> (r: Result<HeaderValue, TokenError>)
        ensures
            r is Ok <==> crate::header::is_header_text(self.token@),
            r matches Ok(value) ==> crate::header::header_bytes(value)
                == vstd::utf8::encode_utf8(crate::header::bearer_text(self.token@)),
            r matches Ok(value) ==> crate::header::header_bytes(value)
                == vstd::utf8::encode_utf8("Bearer "@) + vstd::utf8::encode_utf8(self.token@),
            r matches Ok(value) ==> !crate::header::header_sensitive(value),
    {
        bearer_header(self.token.as_str())
    }
}

/// A reply that is a message.
#[derive(Debug)]
pub struct MessageResponse {
    pub message: String,
}

impl MessageResponse {
    /// The message.
    pub fn display(&self) -> (text: String)
        ensures
            text@ == self.message@,
    {
        self.message.clone()
    }
}

/// What to do with the reply to a request to log in.
#[derive(Clone, Copy, Debug, PartialEq, Eq, Structural)]
pub enum LoginStep {
    /// Ask again, after the pause.
    Retry,
    /// Read the session token.
    ReadToken,
    /// Read why the account was refused.
    ReadRefusal,
}

/// What to do with a reply of the given status to a request to log in.
pub fn login_step(status: Status) -> (step: LoginStep)
    ensures
        step == LoginStep::Retry <==> crate::status::is_busy_code(status.spec_code() as int),
        step == LoginStep::ReadToken <==> crate::status::is_success_code(status.spec_code() as int),
{
    if status.try_again_later() {
        LoginStep::Retry
    } else if status.is_success() {
        LoginStep::ReadToken
    } else {
        LoginStep::ReadRefusal
    }
}

/// The pause after an attempt to log in, whatever came of it, before the next attempt is made.
pub fn login_pause_ms(step: LoginStep) -> (pause: u64)
    ensures
        pause == LOGIN_PAUSE_MS,
{
    match step {
        LoginStep::Retry | LoginStep::ReadToken | LoginStep::ReadRefusal => LOGIN_PAUSE_MS,
    }
}

/// Why an account could not log in.
#[derive(Debug)]
pub enum LoginError {
    /// There is no URL to log in at.
    Url,
    /// The request could not be copied for another attempt.
    Prepare,
    /// The request could not be sent.
    Send,
    /// The reply to an account holds no token.
    Reply { account: String },
    /// The token cannot stand in a header.
    Token,
    /// There is no client for the session.
    Client,
    /// The refusal of an account could not be read.
    Unreadable { status: Status, account: String },
    /// The refusal is no message.
    Unexpected { status: Status, text: String },
    /// The service refused the account.
    Refused { status: Status, message: String },
}

impl LoginError {
    /// The text of the error, given the text of its status.
    pub open spec fn text_with(self, line: Seq<char>) -> Seq<char> {
        match self {
            LoginError::Url => "Creating a /login url"@,
            LoginError::Prepare => "Preparing a login request"@,
            LoginError::Send => "Sending a login request"@,
            LoginError::Reply { account } => "Processing the login response for account "@
                + account@,
            LoginError::Token => "Processing a session token"@,
            LoginError::Client => "Creating an HTTP client"@,
            LoginError::Unreadable { account, .. } => line
                + " when processing the login response for account "@ + account@,
            LoginError::Unexpected { text, .. } => line + " when processing a login response: "@
                + text@,
            LoginError::Refused { message, .. } => line + " response on a /login request: "@
                + message@,
        }
    }

    /// The status that the error tells of.
    pub open spec fn spec_status(self) -> Option<Status> {
        match self {
            LoginError::Unreadable { status, .. } => Some(status),
            LoginError::Unexpected { status, .. } => Some(status),
            LoginError::Refused { status, .. } => Some(status),
            _ => None,
        }
    }

    /// The text of the error, given the text of its status.
    pub fn message_with(&self, line: &str) -> (text: String)
        ensures
            text@ == self.text_with(line@),
    {
        match self {
            LoginError::Url => "Creating a /login url".to_owned(),
            LoginError::Prepare => "Preparing a login request".to_owned(),
            LoginError::Send => "Sending a login request".to_owned(),
            LoginError::Reply { account } => {
                let mut text = "Processing the login response for account ".to_owned();
                text.append(account.as_str());
                text
            },
            LoginError::Token => "Processing a session token".to_owned(),
            LoginError::Client => "Creating an HTTP client".to_owned(),
            LoginError::Unreadable { account, .. } => {
                let mut text = line.to_owned();
                text.append(" when processing the login response for account ");
                text.append(account.as_str());
                text
            },
            LoginError::Unexpected { text: reply, .. } => {
                let mut text = line.to_owned();
                text.append(" when processing a login response: ");
                text.append(reply.as_str());
                text
            },
            LoginError::Refused { message, .. } => {
                let mut text = line.to_owned();
                text.append(" response on a /login request: ");
                text.append(message.as_str());
                text
            },
        }
    }

    /// The text of the error.
    pub fn message(&self) -> (text: String)
        ensures
            text@ == self.text_with(
                match self.spec_status() {
                    Some(status) => status.line(),
                    None => ""@,
                },
            ),
    {
        match self {
            LoginError::Unreadable { status, .. } => self.message_with(status.text().as_str()),
            LoginError::Unexpected { status, .. } => self.message_with(status.text().as_str()),
            LoginError::Refused { status, .. } => self.message_with(status.text().as_str()),
            _ => self.message_with(""),
        }
    }
}

/// A session did not end as expected.
#[derive(Debug)]
pub struct LogoutError {
    pub status: Status,
    pub message: String,
}

impl LogoutError {
    /// The text of the error, given the text of its status.
    pub open spec fn text_with(self, line: Seq<char>) -> Seq<char> {
        line + ": Logout error: "@ + self.message@
    }

    /// The text of the error, given the text of its status.
    pub fn message_with(&self, line: &str) -> (text: String)
        ensures
            text@ == self.text_with(line@),
    {
        let mut text = line.to_owned();
        text.append(": Logout error: ");
        text.append(self.message.as_str());
        text
    }

    /// The text of the error.
    pub fn message(&self) -> (text: String)
        ensures
            text@ == self.text_with(self.status.line()),
    {
        self.message_with(self.status.text().as_str())
    }
}

/// Whether a message confirms the end of a session.
pub open spec fn is_logout_message(message: Seq<char>) -> bool {
    message == "token successfully destroyed"@
}

/// What to do after a reply to a request to log out.
#[derive(Clone, Copy, Debug, PartialEq, Eq, Structural)]
pub enum LogoutStep {
    /// Ask to end the same session again, after a pause.
    Again { pause_ms: u64 },
    /// The session has ended: turn to the next one, after a pause.
    Next { pause_ms: u64 },
}

/// Whether a reply of the given status to a request to log out calls for asking again.
pub fn logout_again(status: Status) -> (b: bool)
    ensures
        b == crate::status::is_busy_code(status.spec_code() as int),
{
    status.try_again_later()
}

/// What to do with the reply to a request to log out. A busy server is asked again in a second, and
/// a session that another reply does not confirm to have ended is an error.
pub fn logout_step(status: Status, reply: MessageResponse) -> (r: Result<LogoutStep, LogoutError>)
    ensures
        crate::status::is_busy_code(status.spec_code() as int) ==> r == Ok::<
            LogoutStep,
            LogoutError,
        >(LogoutStep::Again { pause_ms: BUSY_PAUSE_MS }),
        !crate::status::is_busy_code(status.spec_code() as int) && is_logout_message(
            reply.message@,
        ) ==> r == Ok::<LogoutStep, LogoutError>(LogoutStep::Next { pause_ms: REPLY_PAUSE_MS }),
        !crate::status::is_busy_code(status.spec_code() as int) && !is_logout_message(
            reply.message@,
        ) ==> r is Err && r->Err_0.status == status && r->Err_0.message@ == reply.message@,
{
    if logout_again(status) {
        return Ok(LogoutStep::Again { pause_ms: BUSY_PAUSE_MS });
    }
    if reply.message == "token successfully destroyed".to_owned() {
        Ok(LogoutStep::Next { pause_ms: REPLY_PAUSE_MS })
    } else {
        Err(LogoutError { status, message: reply.message })
    }
}

/// One message confirms the end of a session, and no other does.
pub proof fn one_message_confirms_the_end(message: Seq<char>)
    ensures
        is_logout_message("token successfully destroyed"@),
        is_logout_message(message) ==> message == "token successfully destroyed"@,
{
}

/// What the text of a refused login shows: the status line in front, what the service or the account
/// has to say, whole, at the end, and the same words between, whatever these are.
pub proof fn login_errors_show_their_status_and_cause(
    a: (Status, String, Seq<char>),
    b: (Status, String, Seq<char>),
)
    ensures
        crate::text::same_words(
            (LoginError::Unreadable { status: a.0, account: a.1 }).text_with(a.2),
            a.2,
            a.1@,
            (LoginError::Unreadable { status: b.0, account: b.1 }).text_with(b.2),
            b.2,
            b.1@,
        ),
        crate::text::same_words(
            (LoginError::Unexpected { status: a.0, text: a.1 }).text_with(a.2),
            a.2,
            a.1@,
            (LoginError::Unexpected { status: b.0, text: b.1 }).text_with(b.2),
            b.2,
            b.1@,
        ),
        crate::text::same_words(
            (LoginError::Refused { status: a.0, message: a.1 }).text_with(a.2),
            a.2,
            a.1@,
            (LoginError::Refused { status: b.0, message: b.1 }).text_with(b.2),
            b.2,
            b.1@,
        ),
        crate::text::same_words(
            (LoginError::Reply { account: a.1 }).text_with(a.2),
            Seq::empty(),
            a.1@,
            (LoginError::Reply { account: b.1 }).text_with(b.2),
            Seq::empty(),
            b.1@,
        ),
        (LoginError::Unreadable { status: a.0, account: a.1 }).spec_status() == Some(a.0),
        (LoginError::Unexpected { status: a.0, text: a.1 }).spec_status() == Some(a.0),
        (LoginError::Refused { status: a.0, message: a.1 }).spec_status() == Some(a.0),
{
    crate::text::words_of_sums(
        " when processing the login response for account "@,
        a.2,
        a.1@,
        b.2,
        b.1@,
    );
    crate::text::words_of_sums(" when processing a login response: "@, a.2, a.1@, b.2, b.1@);
    crate::text::words_of_sums(" response on a /login request: "@, a.2, a.1@, b.2, b.1@);
    let words = "Processing the login response for account "@;
    let empty = Seq::<char>::empty();
    crate::text::words_of_sums(words, empty, a.1@, empty, b.1@);
    assert(empty + words + a.1@ =~= words + a.1@);
    assert(empty + words + b.1@ =~= words + b.1@);
}

/// A login that fails without an answer is told in the same words whatever the status line.
pub proof fn login_errors_without_a_status(error: LoginError, a: Seq<char>, b: Seq<char>)
    requires
        error is Url || error is Prepare || error is Send || error is Reply || error is Token
            || error is Client,
    ensures
        error.text_with(a) == error.text_with(b),
        error.spec_status() is None,
{
}

/// What the text of a session that did not end shows: the status line in front, the message of the
/// service, whole, at the end, and the same words between, whatever these are.
pub proof fn logout_errors_show_their_status_and_message(
    a: LogoutError,
    a_line: Seq<char>,
    b: LogoutError,
    b_line: Seq<char>,
)
    ensures
        crate::text::same_words(
            a.text_with(a_line),
            a_line,
            a.message@,
            b.text_with(b_line),
            b_line,
            b.message@,
        ),
{
    crate::text::words_of_sums(": Logout error: "@, a_line, a.message@, b_line, b.message@);
}

} // verus!
