//! Requests, and who makes them.

use reqwest::Url;
use vstd::prelude::*;

use crate::text::append_decimal;
use crate::url::{join_url, parse_url, UrlError};

verus! {

/// Which episode task a message belongs to.
#[derive(Clone, Copy, Debug, PartialEq, Eq, Structural)]
pub struct TaskIndex {
    pub task_index: usize,
}

/// Which client a request goes through. A task starts with the first.
#[derive(Clone, Copy, Debug, PartialEq, Eq, Structural)]
pub struct TokenIndex {
    pub token_index: usize,
}

/// The first client.
pub fn token_0() -> (token: TokenIndex)
    ensures
        token.token_index == 0,
{
    TokenIndex { token_index: 0 }
}

/// The method of a request.
#[derive(Clone, Copy, Debug, PartialEq, Eq, Structural)]
pub enum HttpMethod {
    Get,
    Post,
    /// Never sent: it marks the end of an episode task.
    Delete,
}

/// A request that an episode task asks for.
#[derive(Debug)]
pub struct ApiRequest {
    pub method: HttpMethod,
    pub url: Url,
    pub body: Option<String>,
}

/// What a request asks for.
pub struct RequestModel {
    pub method: HttpMethod,
    pub url: Url,
    pub body: Option<Seq<char>>,
}

impl View for ApiRequest {
    type V = RequestModel;

    open spec fn view(&self) -> RequestModel {
        RequestModel {
            method: self.method,
            url: self.url,
            body: match self.body {
                Some(body) => Some(body@),
                None => None,
            },
        }
    }
}

/// The body of a request for the link of a file.
pub open spec fn download_text(file_id: u32) -> Seq<char> {
    "{\"file_id\": "@ + crate::text::decimal(file_id as nat) + "}"@
}

/// The body of a request for the link of a file.
pub fn download_body(file_id: u32) -> (text: String)
    ensures
        text@ == download_text(file_id),
{
    let mut text = "{\"file_id\": ".to_owned();
    append_decimal(&mut text, file_id);
    text.append("}");
    text
}

impl ApiRequest {
    /// A request for the contents of a URL.
    pub fn get(url: Url) -> (request: ApiRequest)
        ensures
            request@ == (RequestModel { method: HttpMethod::Get, url, body: None }),
    {
        ApiRequest { method: HttpMethod::Get, url, body: None }
    }

    /// A request for the link of a file.
    pub fn download(url: Url, file_id: u32) -> (request: ApiRequest)
        ensures
            request@ == (RequestModel {
                method: HttpMethod::Post,
                url,
                body: Some(download_text(file_id)),
            }),
    {
        ApiRequest { method: HttpMethod::Post, url, body: Some(download_body(file_id)) }
    }

    /// The mark of the end of an episode task, with a given URL.
    pub fn end_mark_at(url: Url) -> (request: ApiRequest)
        ensures
            request@ == (RequestModel { method: HttpMethod::Delete, url, body: None }),
    {
        ApiRequest { method: HttpMethod::Delete, url, body: None }
    }

    /// The mark of the end of an episode task. Its URL stays unused.
    pub fn end_mark() -> (r: Result<ApiRequest, UrlError>)
        ensures
            r is Ok <==> crate::url::parsed_url("https://example.com"@) is Ok,
            r matches Ok(request) ==> request@ == (RequestModel {
                method: HttpMethod::Delete,
                url: crate::url::parsed_url("https://example.com"@)->Ok_0,
                body: None,
            }),
            r matches Err(e) ==> crate::url::parsed_url("https://example.com"@) == Err::<
                Url,
                Seq<char>,
            >(e.reason@),
    {
        match parse_url("https://example.com") {
            Ok(url) => Ok(ApiRequest::end_mark_at(url)),
            Err(e) => Err(e),
        }
    }
}

/// The URL of `/login`.
pub fn login_url(api: &Url) -> (r: Result<Url, UrlError>)
    ensures
        crate::url::url_outcome(r) == crate::url::joined_url(*api, "login"@),
{
    join_url(api, "login")
}

/// The URL of `/logout`.
pub fn logout_url(api: &Url) -> (r: Result<Url, UrlError>)
    ensures
        crate::url::url_outcome(r) == crate::url::joined_url(*api, "logout"@),
{
    join_url(api, "logout")
}

/// The URL of `/download`.
pub fn download_url(api: &Url) -> (r: Result<Url, UrlError>)
    ensures
        crate::url::url_outcome(r) == crate::url::joined_url(*api, "download"@),
{
    join_url(api, "download")
}

/// Requests for the links of different files have different bodies.
pub proof fn download_texts_differ(a: u32, b: u32)
    requires
        a != b,
    ensures
        download_text(a) != download_text(b),
{
    let front = "{\"file_id\": "@;
    let da = crate::text::decimal(a as nat);
    let db = crate::text::decimal(b as nat);
    if download_text(a) == download_text(b) {
        crate::text::middle_is_determined(front, da, db, "}"@);
        crate::text::decimal_injective(a as nat, b as nat);
    }
}

/// The body of a request for the link of a file is an object with one number: the same words and an
/// opening in front, the digits of the file id, and the closing behind.
pub proof fn download_texts_hold_the_file_id(a: u32, b: u32)
    ensures
        ({
            let text = download_text(a);
            let digits = crate::text::decimal(a as nat);
            &&& "{\"file_id\": "@.is_prefix_of(text)
            &&& text.skip("{\"file_id\": "@.len() as int) == digits.push('}')
            &&& crate::text::same_words(
                text,
                Seq::empty(),
                digits.push('}'),
                download_text(b),
                Seq::empty(),
                crate::text::decimal(b as nat).push('}'),
            )
        }),
{
    let words = "{\"file_id\": "@;
    let da = crate::text::decimal(a as nat).push('}');
    let db = crate::text::decimal(b as nat).push('}');
    let empty = Seq::<char>::empty();
    reveal_strlit("}");
    assert(download_text(a) =~= words + da);
    assert(download_text(a) =~= empty + words + da);
    assert(download_text(b) =~= empty + words + db);
    crate::text::ends_of_sum(words, da);
    crate::text::words_of_sums(words, empty, da, empty, db);
    assert(download_text(a).skip(words.len() as int) =~= da);
}

/// What a request asks for is what it holds.
pub proof fn requests_ask_for_what_they_hold(request: ApiRequest)
    ensures
        request@.method == request.method,
        request@.url == request.url,
        request@.body is Some <==> request.body is Some,
        request.body matches Some(body) ==> request@.body == Some(body@),
{
}

} // verus!
