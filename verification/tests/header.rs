use rust_download_subtitles::header::{
    bearer_header, login_headers, session_headers, ApiKeyError, TokenError,
};
use rust_download_subtitles::LoginResponse;

#[test]
fn a_token_becomes_an_authorization() {
    let value = LoginResponse { token: "abc.def".to_string() }.token().unwrap();
    assert_eq!(value.as_bytes(), b"Bearer abc.def");
    assert!(!value.is_sensitive());
}

#[test]
fn an_empty_token() {
    assert_eq!(bearer_header("").unwrap().as_bytes(), b"Bearer ");
}

#[test]
fn tokens_may_hold_tabs_and_other_scripts() {
    assert_eq!(bearer_header("a\tb").unwrap().as_bytes(), b"Bearer a\tb");
    assert_eq!(bearer_header("\u{e9}").unwrap().as_bytes(), b"Bearer \xc3\xa9");
}

#[test]
fn tokens_with_control_characters_are_refused() {
    for token in ["a\nb", "\u{0}", "x\r", "\u{7f}", "\u{1f}"] {
        let e = LoginResponse { token: token.to_string() }.token().unwrap_err();
        assert_eq!(e, TokenError {});
        assert_eq!(e.message(), "Processing login session token");
        assert_eq!(e.cause(), "failed to parse header value");
    }
}

#[test]
fn headers_outside_a_session() {
    let map = login_headers("my key").unwrap();
    assert_eq!(map.len(), 2);
    assert_eq!(map.get("Api-Key").unwrap().as_bytes(), b"my key");
    assert!(map.get("Api-Key").unwrap().is_sensitive());
    assert_eq!(map.get(reqwest::header::CONTENT_TYPE).unwrap().as_bytes(), b"application/json");
    assert!(!map.get(reqwest::header::CONTENT_TYPE).unwrap().is_sensitive());
}

#[test]
fn headers_in_a_session() {
    let token = bearer_header("t").unwrap();
    let map = session_headers("k", token).unwrap();
    assert_eq!(map.len(), 3);
    assert_eq!(map.get("api-key").unwrap().as_bytes(), b"k");
    assert!(map.get("api-key").unwrap().is_sensitive());
    assert_eq!(map.get("content-type").unwrap().as_bytes(), b"application/json");
    assert_eq!(map.get(reqwest::header::AUTHORIZATION).unwrap().as_bytes(), b"Bearer t");
}

#[test]
fn api_keys_with_control_characters_are_refused() {
    assert_eq!(login_headers("a\nb").unwrap_err(), ApiKeyError {});
    assert_eq!(ApiKeyError {}.message(), "failed to parse header value");
    assert!(session_headers("a\nb", bearer_header("t").unwrap()).is_err());
}
