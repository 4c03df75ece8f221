//! The headers that every request of a client carries.

use reqwest::header::{HeaderMap, HeaderValue, InvalidHeaderValue};
use vstd::prelude::*;

verus! {

/// `reqwest::header::HeaderValue`, the value of a header.
#[verifier::external_type_specification]
#[verifier::external_body]
pub struct ExHeaderValue(reqwest::header::HeaderValue);

/// `reqwest::header::InvalidHeaderValue`, the error of a text that is no header value.
#[verifier::external_type_specification]
#[verifier::external_body]
pub struct ExInvalidHeaderValue(reqwest::header::InvalidHeaderValue);

/// `reqwest::header::HeaderMap`, a map from header names to values.
#[verifier::external_type_specification]
#[verifier::external_body]
#[verifier::reject_recursive_types(T)]
pub struct ExHeaderMap<T>(reqwest::header::HeaderMap<T>);

/// The contents of a header value: the bytes that it holds.
pub uninterp spec fn header_bytes(value: reqwest::header::HeaderValue) -> Seq<u8>;

/// Whether a header value is marked as sensitive.
pub uninterp spec fn header_sensitive(value: reqwest::header::HeaderValue) -> bool;

/// The contents of a header map: for each name, in lower case, the bytes of its values and whether
/// they are sensitive.
pub uninterp spec fn header_entries(
    map: reqwest::header::HeaderMap<reqwest::header::HeaderValue>,
) -> Map<Seq<char>, Seq<(Seq<u8>, bool)>>;

/// The contents of an empty header map.
pub open spec fn no_headers() -> Map<Seq<char>, Seq<(Seq<u8>, bool)>> {
    Map::empty()
}

/// Whether a text may stand in a header: it has no ASCII control characters but the tab.
pub open spec fn is_header_text(text: Seq<char>) -> bool {
    forall|i: int|
        0 <= i < text.len() ==> (#[trigger] text[i] as u32 >= 32 && text[i] as u32 != 127)
            || text[i] as u32 == 9
}

/// Whether a text is made of printable ASCII characters.
pub open spec fn is_plain_text(text: Seq<char>) -> bool {
    forall|i: int| 0 <= i < text.len() ==> 32 <= #[trigger] text[i] as u32 && (text[i] as u32) < 127
}

/// Whether a text is a header name of lower case letters and hyphens.
pub open spec fn is_header_name(name: Seq<char>) -> bool {
    &&& 1 <= name.len() <= 64
    &&& forall|i: int|
        0 <= i < name.len() ==> 'a' <= #[trigger] name[i] <= 'z' || name[i] == '-'
}

/// Calls `HeaderValue::try_from` on a `String`. The contract claims that it refuses exactly the
/// texts with an ASCII control character other than the tab, and that the value holds the text in
/// UTF-8 and is not sensitive.
#[verifier::external_body]
fn value_from_string(text: String) -> (r: Result<HeaderValue, InvalidHeaderValue>)
    ensures
        r is Ok <==> is_header_text(text@),
        r is Ok ==> header_bytes(r->Ok_0) == vstd::utf8::encode_utf8(text@),
        r is Ok ==> !header_sensitive(r->Ok_0),
{
    HeaderValue::try_from(text)
}

/// Calls `HeaderValue::from_str`. The contract claims that it refuses exactly the texts with an
/// ASCII control character other than the tab, and that the value holds the text in UTF-8 and is
/// not sensitive.
#[verifier::external_body]
fn value_from_str(text: &str) -> (r: Result<HeaderValue, InvalidHeaderValue>)
    ensures
        r is Ok <==> is_header_text(text@),
        r is Ok ==> header_bytes(r->Ok_0) == vstd::utf8::encode_utf8(text@),
        r is Ok ==> !header_sensitive(r->Ok_0),
{
    HeaderValue::from_str(text)
}

/// Calls `HeaderValue::from_static`, which panics on anything but printable ASCII. The contract
/// claims that the value holds the text and is not sensitive.
#[verifier::external_body]
fn value_from_static(text: &'static str) -> (value: HeaderValue)
    requires
        is_plain_text(text@),
    ensures
        header_bytes(value) == vstd::utf8::encode_utf8(text@),
        !header_sensitive(value),
{
    HeaderValue::from_static(text)
}

/// Calls `HeaderValue::set_sensitive`. The contract claims that it sets the mark and keeps the
/// bytes.
#[verifier::external_body]
fn set_sensitive(value: &mut HeaderValue, sensitive: bool)
    ensures
        header_bytes(*final(value)) == header_bytes(*old(value)),
        header_sensitive(*final(value)) == sensitive,
{
    value.set_sensitive(sensitive)
}

/// Calls `HeaderMap::with_capacity`, which panics on a capacity beyond the limit of the map. The
/// contract claims that the map is empty.
#[verifier::external_body]
fn map_with_capacity(capacity: usize) -> (map: HeaderMap<HeaderValue>)
    requires
        capacity <= 1000,
    ensures
        header_entries(map) == no_headers(),
{
    HeaderMap::with_capacity(capacity)
}

/// Calls `HeaderMap::insert` with a name given as a static string, which panics on a text that is
/// no header name and on a map that is full. The contract claims that the value takes the place of
/// all values of that name and that the other names keep theirs.
#[verifier::external_body]
fn map_insert(map: &mut HeaderMap<HeaderValue>, name: &'static str, value: HeaderValue)
    requires
        is_header_name(name@),
        header_entries(*old(map)).dom().finite(),
        header_entries(*old(map)).dom().len() < 1000,
    ensures
        header_entries(*final(map)) == header_entries(*old(map)).insert(
            name@,
            seq![(header_bytes(value), header_sensitive(value))],
        ),
{
    map.insert(name, value);
}

/// The API key cannot stand in a header.
#[derive(Clone, Copy, Debug, PartialEq, Eq, Structural)]
pub struct ApiKeyError {}

/// The session token cannot stand in a header.
#[derive(Clone, Copy, Debug, PartialEq, Eq, Structural)]
pub struct TokenError {}

/// The headers that name the application: the API key, marked as sensitive, and the content type.
pub open spec fn application_headers(api_key: Seq<char>) -> Map<Seq<char>, Seq<(Seq<u8>, bool)>> {
    no_headers().insert(
        "api-key"@,
        seq![(vstd::utf8::encode_utf8(api_key), true)],
    ).insert(
        "content-type"@,
        seq![(vstd::utf8::encode_utf8("application/json"@), false)],
    )
}

/// The authorization of a session, as text.
pub open spec fn bearer_text(token: Seq<char>) -> Seq<char> {
    "Bearer "@ + token
}

/// The headers of requests outside a session.
pub fn login_headers(api_key: &str) -> (r: Result<HeaderMap<HeaderValue>, ApiKeyError>)
    ensures
        r is Ok <==> is_header_text(api_key@),
        r matches Ok(map) ==> header_entries(map) == application_headers(api_key@),
{
    let mut key = match value_from_str(api_key) {
        Ok(key) => key,
        Err(_) => {
            return Err(ApiKeyError {  });
        },
    };
    set_sensitive(&mut key, true);
    let mut map = map_with_capacity(20);
    proof {
        reveal_strlit("api-key");
        reveal_strlit("content-type");
        reveal_strlit("application/json");
    }
    map_insert(&mut map, "api-key", key);
    map_insert(&mut map, "content-type", value_from_static("application/json"));
    Ok(map)
}

/// The headers of requests in a session: those of requests outside a session and the authorization.
pub fn session_headers(api_key: &str, token: HeaderValue) -> (r: Result<
    HeaderMap<HeaderValue>,
    ApiKeyError,
>)
    ensures
        r is Ok <==> is_header_text(api_key@),
        r matches Ok(map) ==> header_entries(map) == application_headers(api_key@).insert(
            "authorization"@,
            seq![(header_bytes(token), header_sensitive(token))],
        ),
{
    match login_headers(api_key) {
        Ok(mut map) => {
            proof {
                reveal_strlit("authorization");
            }
            map_insert(&mut map, "authorization", token);
            Ok(map)
        },
        Err(e) => Err(e),
    }
}

/// The authorization header of a session.
pub fn bearer_header(token: &str) -> (r: Result<HeaderValue, TokenError>)
    ensures
        r is Ok <==> is_header_text(token@),
        r matches Ok(value) ==> header_bytes(value) == vstd::utf8::encode_utf8(bearer_text(token@)),
        r matches Ok(value) ==> header_bytes(value) == vstd::utf8::encode_utf8("Bearer "@)
            + vstd::utf8::encode_utf8(token@),
        r matches Ok(value) ==> !header_sensitive(value),
{
    proof {
        bytes_of_sum("Bearer "@, token@);
    }
    let mut text = "Bearer ".to_owned();
    text.append(token);
    proof {
        reveal_strlit("Bearer ");
        let prefix = "Bearer "@;
        assert(text@ =~= bearer_text(token@));
        if is_header_text(token@) {
            assert forall|i: int| 0 <= i < text@.len() implies (#[trigger] text@[i] as u32 >= 32
                && text@[i] as u32 != 127) || text@[i] as u32 == 9 by {
                if i >= 7 {
                    assert(text@[i] == token@[i - 7]);
                }
            }
        }
        if is_header_text(text@) {
            assert forall|i: int| 0 <= i < token@.len() implies (#[trigger] token@[i] as u32 >= 32
                && token@[i] as u32 != 127) || token@[i] as u32 == 9 by {
                assert(text@[i + 7] == token@[i]);
            }
        }
    }
    match value_from_string(text) {
        Ok(value) => Ok(value),
        Err(_) => Err(TokenError {  }),
    }
}

impl ApiKeyError {
    /// The text of the error.
    pub fn message(&self) -> (text: String)
        ensures
            text@ == "failed to parse header value"@,
    {
        "failed to parse header value".to_owned()
    }
}

impl TokenError {
    /// The text of the error.
    pub fn message(&self) -> (text: String)
        ensures
            text@ == "Processing login session token"@,
    {
        "Processing login session token".to_owned()
    }

    /// The text of what caused the error.
    pub fn cause(&self) -> (text: String)
        ensures
            text@ == "failed to parse header value"@,
    {
        "failed to parse header value".to_owned()
    }
}

/// A session adds the authorization to the headers, and takes none of the others away.
pub proof fn session_keeps_application_headers(api_key: Seq<char>, authorization: Seq<(Seq<u8>, bool)>)
    ensures
        application_headers(api_key).submap_of(
            application_headers(api_key).insert("authorization"@, authorization),
        ),
        !application_headers(api_key).contains_key("authorization"@),
        application_headers(api_key)["api-key"@] == seq![
            (vstd::utf8::encode_utf8(api_key), true),
        ],
        application_headers(api_key)["content-type"@] == seq![
            (vstd::utf8::encode_utf8("application/json"@), false),
        ],
{
    reveal_strlit("api-key");
    reveal_strlit("content-type");
    reveal_strlit("authorization");
    assert("api-key"@.len() != "content-type"@.len());
    assert("api-key"@.len() != "authorization"@.len());
    assert("content-type"@.len() != "authorization"@.len());
}

/// The bytes of a text behind another one follow the bytes of the other one.
proof fn bytes_of_sum(front: Seq<char>, back: Seq<char>)
    ensures
        vstd::utf8::encode_utf8(front + back) == vstd::utf8::encode_utf8(front)
            + vstd::utf8::encode_utf8(back),
    decreases front.len(),
{
    if front.len() == 0 {
        assert(front + back =~= back);
        assert(vstd::utf8::encode_utf8(front) + vstd::utf8::encode_utf8(back)
            =~= vstd::utf8::encode_utf8(back));
    } else {
        assert((front + back).drop_first() =~= front.drop_first() + back);
        bytes_of_sum(front.drop_first(), back);
        assert(vstd::utf8::encode_utf8(front + back) =~= vstd::utf8::encode_utf8(front)
            + vstd::utf8::encode_utf8(back));
    }
}

/// The authorization of a session is the seven bytes of the scheme, with its space, and then the
/// bytes of the token, whatever the token.
pub proof fn authorization_is_the_scheme_and_the_token(token: Seq<char>)
    ensures
        vstd::utf8::encode_utf8(bearer_text(token)) == seq![
            66u8,
            101u8,
            97u8,
            114u8,
            101u8,
            114u8,
            32u8,
        ] + vstd::utf8::encode_utf8(token),
        bearer_text(token).len() == 7 + token.len(),
        token.is_suffix_of(bearer_text(token)),
{
    let scheme = "Bearer "@;
    reveal_strlit("Bearer ");
    bytes_of_sum(scheme, token);
    crate::text::ends_of_sum(scheme, token);
    assert(vstd::utf8::is_ascii_chars(scheme));
    vstd::utf8::is_ascii_chars_encode_utf8(scheme);
    assert(vstd::utf8::encode_utf8(scheme) =~= seq![
        66u8,
        101u8,
        97u8,
        114u8,
        101u8,
        114u8,
        32u8,
    ]);
}

/// Two sessions share their authorization only if they share their token.
pub proof fn authorizations_differ(a: Seq<char>, b: Seq<char>)
    requires
        a != b,
    ensures
        vstd::utf8::encode_utf8(bearer_text(a)) != vstd::utf8::encode_utf8(bearer_text(b)),
{
    authorization_is_the_scheme_and_the_token(a);
    authorization_is_the_scheme_and_the_token(b);
    let ea = vstd::utf8::encode_utf8(a);
    let eb = vstd::utf8::encode_utf8(b);
    let wa = vstd::utf8::encode_utf8(bearer_text(a));
    let wb = vstd::utf8::encode_utf8(bearer_text(b));
    if wa == wb {
        assert(ea =~= wa.skip(7));
        assert(eb =~= wb.skip(7));
        vstd::utf8::encode_utf8_decode_utf8(a);
        vstd::utf8::encode_utf8_decode_utf8(b);
    }
}

/// Outside a session there are two headers and no more, each with one value: the API key, which is
/// sensitive, and the content type, which is not.
pub proof fn application_headers_are_two(api_key: Seq<char>)
    ensures
        application_headers(api_key).dom() == set!["api-key"@, "content-type"@],
        application_headers(api_key)["api-key"@].len() == 1,
        application_headers(api_key)["api-key"@][0].0 == vstd::utf8::encode_utf8(api_key),
        application_headers(api_key)["api-key"@][0].1,
        application_headers(api_key)["content-type"@].len() == 1,
        application_headers(api_key)["content-type"@][0].0 == vstd::utf8::encode_utf8(
            "application/json"@,
        ),
        !application_headers(api_key)["content-type"@][0].1,
{
    session_keeps_application_headers(api_key, Seq::empty());
    assert(application_headers(api_key).dom() =~= set!["api-key"@, "content-type"@]);
}

/// Every character counts by itself: a text may stand in a header exactly if its parts may, a
/// character may unless it is an ASCII control character other than the tab, and the empty text may.
pub proof fn header_texts_are_made_of_header_characters(a: Seq<char>, b: Seq<char>, c: char)
    ensures
        is_header_text(a + b) <==> is_header_text(a) && is_header_text(b),
        is_header_text(seq![c]) <==> c == '\t' || (c >= ' ' && c != '\u{7f}'),
        is_header_text(Seq::empty()),
{
    if is_header_text(a + b) {
        assert forall|i: int| 0 <= i < a.len() implies (#[trigger] a[i] as u32 >= 32 && a[i] as u32
            != 127) || a[i] as u32 == 9 by {
            assert((a + b)[i] == a[i]);
        }
        assert forall|i: int| 0 <= i < b.len() implies (#[trigger] b[i] as u32 >= 32 && b[i] as u32
            != 127) || b[i] as u32 == 9 by {
            assert((a + b)[a.len() + i] == b[i]);
        }
    }
    assert(seq![c][0] == c);
    if is_header_text(seq![c]) {
        assert((seq![c][0] as u32 >= 32 && seq![c][0] as u32 != 127) || seq![c][0] as u32 == 9);
    }
}

} // verus!
