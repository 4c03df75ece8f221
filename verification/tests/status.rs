use rust_download_subtitles::status::{client_error_message, status_line, Status};
use rust_download_subtitles::HttpStatus;

fn status(code: u16) -> Status {
    Status::new(code).unwrap()
}

#[test]
fn codes_have_three_digits() {
    assert!(Status::new(0).is_none());
    assert!(Status::new(99).is_none());
    assert_eq!(Status::new(100).unwrap().code(), 100);
    assert_eq!(Status::new(999).unwrap().code(), 999);
    assert!(Status::new(1000).is_none());
    assert!(Status::new(u16::MAX).is_none());
}

#[test]
fn codes_agree_with_the_http_types() {
    for code in 100..1000 {
        let ours = status(code);
        let theirs = reqwest::StatusCode::from_u16(code).unwrap();
        assert_eq!(ours.is_success(), theirs.is_success());
        assert_eq!(ours.is_client_error(), theirs.is_client_error());
        assert_eq!(
            ours.try_again_later(),
            theirs.is_server_error() || theirs == reqwest::StatusCode::TOO_MANY_REQUESTS
        );
        assert_eq!(ours.check_status().is_err(), theirs.is_client_error());
        assert_eq!(ours.text(), theirs.to_string());
    }
}

#[test]
fn try_again_later_on_server_errors_and_too_many_requests() {
    assert!(status(429).try_again_later());
    assert!(status(500).try_again_later());
    assert!(status(599).try_again_later());
    assert!(!status(600).try_again_later());
    assert!(!status(499).try_again_later());
    assert!(!status(200).try_again_later());
}

#[test]
fn client_errors_fail_the_check() {
    assert_eq!(
        status(404).check_status().unwrap_err().message,
        "OpenSubtitles returned a client error: Not Found"
    );
    assert_eq!(
        status(499).check_status().unwrap_err().message,
        "OpenSubtitles returned a client error: No reason given"
    );
    assert!(status(399).check_status().is_ok());
    assert!(status(500).check_status().is_ok());
}

#[test]
fn status_texts() {
    assert_eq!(status(200).text(), "200 OK");
    assert_eq!(status(406).text(), "406 Not Acceptable");
    assert_eq!(status(799).text(), "799 <unknown status code>");
    assert_eq!(status_line(200, Some("Fine")), "200 Fine");
    assert_eq!(status_line(7, None), "7 <unknown status code>");
    assert_eq!(
        client_error_message(Some("x")),
        "OpenSubtitles returned a client error: x"
    );
    assert_eq!(
        client_error_message(None),
        "OpenSubtitles returned a client error: No reason given"
    );
}
