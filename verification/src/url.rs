//! Where the service is reached.

use reqwest::Url;
use vstd::prelude::*;

verus! {

/// `reqwest::Url`, a parsed URL. Its inside is not modelled: a URL is handed on as it is.
#[verifier::external_type_specification]
#[verifier::external_body]
pub struct ExUrl(reqwest::Url);

/// What `reqwest::Url::from_str`, which is `reqwest::Url::parse`, makes of a text: a URL, or the text of its error.
pub uninterp spec fn parsed_url(text: Seq<char>) -> Result<reqwest::Url, Seq<char>>;

/// What `reqwest::Url::join` makes of a base URL and a relative reference: a URL, or the text of
/// its error.
pub uninterp spec fn joined_url(base: reqwest::Url, input: Seq<char>) -> Result<
    reqwest::Url,
    Seq<char>,
>;

/// The error of an attempt to make a URL.
#[derive(Debug)]
pub struct UrlError {
    /// Why the URL parser refused the text.
    pub reason: String,
}

/// An outcome with the error given as a string, seen through the string's characters.
pub open spec fn text_outcome(r: Result<Url, String>) -> Result<Url, Seq<char>> {
    match r {
        Ok(url) => Ok(url),
        Err(reason) => Err(reason@),
    }
}

/// An outcome with the error of this module, seen through the characters of the reason.
pub open spec fn url_outcome(r: Result<Url, UrlError>) -> Result<Url, Seq<char>> {
    match r {
        Ok(url) => Ok(url),
        Err(e) => Err(e.reason@),
    }
}

/// Calls `reqwest::Url::from_str` and turns its error into text with `to_string`. The contract
/// claims that the outcome is a function of the text alone, which `parsed_url` names.
#[verifier::external_body]
fn parse_text(text: &str) -> (r: Result<Url, String>)
    ensures
        text_outcome(r) == parsed_url(text@),
{
    <Url as std::str::FromStr>::from_str(text).map_err(|e| e.to_string())
}

/// Calls `reqwest::Url::join` and turns its error into text with `to_string`. The contract claims
/// that the outcome is a function of the base and the reference alone, which `joined_url` names.
#[verifier::external_body]
fn join_text(base: &Url, input: &str) -> (r: Result<Url, String>)
    ensures
        text_outcome(r) == joined_url(*base, input@),
{
    base.join(input).map_err(|e| e.to_string())
}

/// Parses an absolute URL.
pub fn parse_url(text: &str) -> (r: Result<Url, UrlError>)
    ensures
        url_outcome(r) == parsed_url(text@),
{
    match parse_text(text) {
        Ok(url) => Ok(url),
        Err(reason) => Err(UrlError { reason }),
    }
}

/// Resolves a relative reference against a base URL.
pub fn join_url(base: &Url, input: &str) -> (r: Result<Url, UrlError>)
    ensures
        url_outcome(r) == joined_url(*base, input@),
{
    match join_text(base, input) {
        Ok(url) => Ok(url),
        Err(reason) => Err(UrlError { reason }),
    }
}

/// The base URL of the REST API.
pub fn api_url() -> (r: Result<Url, UrlError>)
    ensures
        url_outcome(r) == parsed_url("https://api.opensubtitles.com/api/v1/"@),
{
    parse_url("https://api.opensubtitles.com/api/v1/")
}

} // verus!
