use rust_download_subtitles::login::{
    login_pause_ms, login_step, logout_again, logout_step, LoginError, LoginStep, LogoutError,
    LogoutStep,
};
use rust_download_subtitles::status::Status;
use rust_download_subtitles::{LoginRequestBody, MessageResponse};

fn status(code: u16) -> Status {
    Status::new(code).unwrap()
}

fn message(text: &str) -> MessageResponse {
    MessageResponse { message: text.to_string() }
}

#[test]
fn the_body_of_a_login() {
    let body = LoginRequestBody::new("me", "secret");
    assert_eq!(body.username, "me");
    assert_eq!(body.password, "secret");
}

#[test]
fn a_message_is_shown_as_it_is() {
    assert_eq!(message("hello").display(), "hello");
    assert_eq!(message("").display(), "");
}

#[test]
fn login_replies() {
    assert_eq!(login_step(status(429)), LoginStep::Retry);
    assert_eq!(login_step(status(503)), LoginStep::Retry);
    assert_eq!(login_step(status(200)), LoginStep::ReadToken);
    assert_eq!(login_step(status(299)), LoginStep::ReadToken);
    assert_eq!(login_step(status(401)), LoginStep::ReadRefusal);
    assert_eq!(login_step(status(302)), LoginStep::ReadRefusal);
    assert_eq!(login_step(status(600)), LoginStep::ReadRefusal);
}

#[test]
fn login_error_texts() {
    let account = || "me".to_string();
    assert_eq!(LoginError::Url.message(), "Creating a /login url");
    assert_eq!(LoginError::Prepare.message(), "Preparing a login request");
    assert_eq!(LoginError::Send.message(), "Sending a login request");
    assert_eq!(
        LoginError::Reply { account: account() }.message(),
        "Processing the login response for account me"
    );
    assert_eq!(LoginError::Token.message(), "Processing a session token");
    assert_eq!(LoginError::Client.message(), "Creating an HTTP client");
    assert_eq!(
        LoginError::Unreadable { status: status(401), account: account() }.message(),
        "401 Unauthorized when processing the login response for account me"
    );
    assert_eq!(
        LoginError::Unexpected { status: status(403), text: "<html>".to_string() }.message(),
        "403 Forbidden when processing a login response: <html>"
    );
    assert_eq!(
        LoginError::Refused { status: status(401), message: "no".to_string() }.message(),
        "401 Unauthorized response on a /login request: no"
    );
    assert_eq!(
        LoginError::Refused { status: status(401), message: "no".to_string() }.message_with("L"),
        "L response on a /login request: no"
    );
}

#[test]
fn logout_replies() {
    let done = "token successfully destroyed";
    for code in [200, 404] {
        assert_eq!(
            logout_step(status(code), message(done)).unwrap(),
            LogoutStep::Next { pause_ms: 200 }
        );
    }
    let e = logout_step(status(401), message("who?")).unwrap_err();
    assert_eq!(e.message(), "401 Unauthorized: Logout error: who?");
    let e = logout_step(status(200), message("token successfully destroyed ")).unwrap_err();
    assert_eq!(e.message(), "200 OK: Logout error: token successfully destroyed ");
    let e = LogoutError { status: status(200), message: "m".to_string() };
    assert_eq!(e.message_with("L"), "L: Logout error: m");
}

#[test]
fn a_busy_server_is_asked_again_to_log_out() {
    for code in [429, 500, 503] {
        assert!(logout_again(status(code)));
        for text in ["oops", "token successfully destroyed"] {
            assert_eq!(
                logout_step(status(code), message(text)).unwrap(),
                LogoutStep::Again { pause_ms: 1000 }
            );
        }
    }
    for code in [200, 401, 499, 600] {
        assert!(!logout_again(status(code)));
    }
}

#[test]
fn attempts_to_log_in_are_a_second_apart() {
    for step in [LoginStep::Retry, LoginStep::ReadToken, LoginStep::ReadRefusal] {
        assert_eq!(login_pause_ms(step), 1000);
    }
}
