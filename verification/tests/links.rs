use rust_download_subtitles::download::{file_extension, link_error_message, link_target};
use rust_download_subtitles::request::{
    download_body, download_url, login_url, logout_url, ApiRequest, HttpMethod,
};
use rust_download_subtitles::url::{api_url, join_url, parse_url, UrlError};
use rust_download_subtitles::DownloadResponse;

fn reply(link: &str) -> DownloadResponse {
    DownloadResponse {
        link: link.to_string(),
        file_name: "f".to_string(),
        requests: 1,
        remaining: 2,
        message: "m".to_string(),
        reset_time: "r".to_string(),
    }
}

#[test]
fn urls_of_the_service() {
    let api = api_url().unwrap();
    assert_eq!(api.as_str(), "https://api.opensubtitles.com/api/v1/");
    assert_eq!(login_url(&api).unwrap().as_str(), "https://api.opensubtitles.com/api/v1/login");
    assert_eq!(logout_url(&api).unwrap().as_str(), "https://api.opensubtitles.com/api/v1/logout");
    assert_eq!(
        download_url(&api).unwrap().as_str(),
        "https://api.opensubtitles.com/api/v1/download"
    );
}

#[test]
fn url_errors_are_told() {
    assert_eq!(parse_url("download").unwrap_err().reason, "relative URL without a base");
    let base = parse_url("mailto:a@b").unwrap();
    assert!(join_url(&base, "x").is_err());
    assert_eq!(
        join_url(&base, "x").unwrap_err().reason,
        "relative URL with a cannot-be-a-base base"
    );
    assert_eq!(join_url(&api_url().unwrap(), "https://[").unwrap_err().reason, "invalid IPv6 address");
}

#[test]
fn urls_are_normalized() {
    assert_eq!(parse_url("HTTPS://Example.com").unwrap().as_str(), "https://example.com/");
}

#[test]
fn the_extension_follows_the_last_dot() {
    assert_eq!(file_extension("https://a.b/c.d.srt"), "srt");
    assert_eq!(file_extension("https://a.b/c"), "b/c");
    assert_eq!(file_extension("x."), "");
    assert_eq!(file_extension(".x"), "x");
    assert_eq!(file_extension("a.\u{e9}\u{4e2d}"), "\u{e9}\u{4e2d}");
    assert_eq!(file_extension("localhost/file"), ".srt");
    assert_eq!(file_extension(""), ".srt");
}

#[test]
fn a_link_has_a_url_and_an_extension() {
    let (url, extension) = reply("https://dl.example.com/x/y.srt").link().unwrap();
    assert_eq!(url.as_str(), "https://dl.example.com/x/y.srt");
    assert_eq!(extension, "srt");
    let (url, extension) = reply("http://localhost/file").link().unwrap();
    assert_eq!(url.as_str(), "http://localhost/file");
    assert_eq!(extension, ".srt");
}

#[test]
fn a_link_without_a_url() {
    let e = reply("subtitle.srt").link().unwrap_err();
    assert_eq!(e.message, "Preparing the download");
    assert_eq!(e.reason, "relative URL without a base");
    assert_eq!(reply("").link().unwrap_err().message, "Preparing the download");
    assert_eq!(reply("").link().unwrap_err().reason, "relative URL without a base");
}

#[test]
fn a_target_from_a_parsed_link() {
    let (url, extension) = link_target("a.sub", api_url()).unwrap();
    assert_eq!(url.as_str(), "https://api.opensubtitles.com/api/v1/");
    assert_eq!(extension, "sub");
    let e = link_target("a.sub", Err(UrlError { reason: "no".to_string() })).unwrap_err();
    assert_eq!(e.message, "Preparing the download");
    assert_eq!(e.reason, "no");
    let refused = UrlError { reason: "no".to_string() };
    assert_eq!(link_error_message(&refused), "Preparing the download");
}

#[test]
fn bodies_of_requests_for_links() {
    assert_eq!(download_body(0), "{\"file_id\": 0}");
    assert_eq!(download_body(4294967295), "{\"file_id\": 4294967295}");
    assert_ne!(download_body(1), download_body(11));
}

#[test]
fn kinds_of_requests() {
    let get = ApiRequest::get(api_url().unwrap());
    assert_eq!(get.method, HttpMethod::Get);
    assert_eq!(get.url.as_str(), "https://api.opensubtitles.com/api/v1/");
    assert!(get.body.is_none());
    let post = ApiRequest::download(api_url().unwrap(), 12);
    assert_eq!(post.method, HttpMethod::Post);
    assert_eq!(post.body, Some("{\"file_id\": 12}".to_string()));
    let end = ApiRequest::end_mark().unwrap();
    assert_eq!(end.method, HttpMethod::Delete);
    assert_eq!(end.url.as_str(), "https://example.com/");
    assert!(end.body.is_none());
    let end = ApiRequest::end_mark_at(api_url().unwrap());
    assert_eq!(end.method, HttpMethod::Delete);
    assert_eq!(end.url.as_str(), "https://api.opensubtitles.com/api/v1/");
}
