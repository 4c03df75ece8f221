//! Replies of `/download`, and the links in them.

use reqwest::Url;
use vstd::prelude::*;

use crate::url::{parse_url, UrlError};

verus! {

/// The reply to a request for the link of a file.
#[derive(Debug)]
pub struct DownloadResponse {
    pub link: String,
    pub file_name: String,
    pub requests: u32,
    pub remaining: u32,
    pub message: String,
    pub reset_time: String,
}

/// A link that cannot be followed.
#[derive(Debug)]
pub struct LinkError {
    /// The text of the error.
    pub message: String,
    /// Why the URL parser refused the link.
    pub reason: String,
}

/// The text of the error of a link whose URL was refused.
pub fn link_error_message(_e: &UrlError) -> (text: String)
    ensures
        text@ == "Preparing the download"@,
{
    "Preparing the download".to_owned()
}

/// Whether a position holds the last dot of a text.
pub open spec fn is_last_dot(text: Seq<char>, i: int) -> bool {
    &&& 0 <= i < text.len()
    &&& text[i] == '.'
    &&& forall|j: int| i < j < text.len() ==> text[j] != '.'
}

/// The extension of the file behind a link: what follows the last dot of the link, or `.srt` if
/// there is no dot.
pub open spec fn link_extension(link: Seq<char>) -> Seq<char> {
    if link.contains('.') {
        link.skip(1 + choose|i: int| is_last_dot(link, i))
    } else {
        ".srt"@
    }
}

/// The extension of the file behind a link.
pub fn file_extension(link: &str) -> (extension: String)
    ensures
        extension@ == link_extension(link@),
        forall|i: int| #[trigger]
            is_last_dot(link@, i) ==> extension@ == link@.skip(i + 1),
        !link@.contains('.') ==> extension@ == ".srt"@,
{
    let len = link.unicode_len();
    let mut start: usize = len;
    while start > 0
        invariant
            start <= len,
            len == link@.len(),
            forall|j: int| start <= j < len ==> link@[j] != '.',
        decreases start,
    {
        if link.get_char(start - 1) == '.' {
            proof {
                let dot = choose|i: int| is_last_dot(link@, i);
                assert(is_last_dot(link@, start - 1));
                last_dot_is_unique(link@, start - 1, dot);
                assert(link@.contains(link@[start - 1]));
            }
            assert(link@.subrange(start as int, len as int) =~= link@.skip(start as int));
            return link.substring_char(start, len).to_owned();
        }
        start = start - 1;
    }
    assert(!link@.contains('.'));
    ".srt".to_owned()
}

/// What a link leads to, given what its URL was parsed to.
pub fn link_target(link: &str, url: Result<Url, UrlError>) -> (r: Result<(Url, String), LinkError>)
    ensures
        match url {
            Ok(url) => r is Ok && r->Ok_0.0 == url && r->Ok_0.1@ == link_extension(link@),
            Err(e) => r is Err && r->Err_0.message@ == "Preparing the download"@
                && r->Err_0.reason@ == e.reason@,
        },
{
    match url {
        Ok(url) => Ok((url, file_extension(link))),
        Err(e) => Err(LinkError { message: link_error_message(&e), reason: e.reason }),
    }
}

impl DownloadResponse {
    /// The URL of the file and its extension.
    pub fn link(&self) -> (r: Result<(Url, String), LinkError>)
        ensures
            match crate::url::parsed_url(self.link@) {
                Ok(url) => r is Ok && r->Ok_0.0 == url && r->Ok_0.1@ == link_extension(self.link@),
                Err(reason) => r is Err && r->Err_0.message@ == "Preparing the download"@
                    && r->Err_0.reason@ == reason,
            },
    {
        link_target(self.link.as_str(), parse_url(self.link.as_str()))
    }
}

/// A text has at most one last dot.
pub proof fn last_dot_is_unique(text: Seq<char>, i: int, j: int)
    requires
        is_last_dot(text, i),
        is_last_dot(text, j),
    ensures
        i == j,
{
}

/// A text with a dot has a last dot.
proof fn last_dot_exists(text: Seq<char>)
    requires
        text.contains('.'),
    ensures
        exists|i: int| is_last_dot(text, i),
    decreases text.len(),
{
    let n = text.len() - 1;
    if text[n] == '.' {
        assert(is_last_dot(text, n));
    } else {
        let front = text.drop_last();
        let k = choose|k: int| 0 <= k < text.len() && text[k] == '.';
        assert(front[k] == '.');
        last_dot_exists(front);
        let i = choose|i: int| is_last_dot(front, i);
        assert forall|j: int| i < j < text.len() implies text[j] != '.' by {
            if j < n {
                assert(front[j] == text[j]);
            }
        }
        assert(is_last_dot(text, i));
    }
}

/// The extension of a link with a dot has no dot and ends the link, behind a dot.
pub proof fn extension_has_no_dot(link: Seq<char>)
    requires
        link.contains('.'),
    ensures
        !link_extension(link).contains('.'),
        link_extension(link).len() < link.len(),
        link.skip(link.len() - link_extension(link).len()) == link_extension(link),
        link[link.len() - link_extension(link).len() - 1] == '.',
{
    last_dot_exists(link);
    let dot = choose|i: int| is_last_dot(link, i);
    let extension = link_extension(link);
    assert(extension.len() == link.len() - dot - 1);
    if extension.contains('.') {
        let k = choose|k: int| 0 <= k < extension.len() && extension[k] == '.';
        assert(link[dot + 1 + k] == '.');
    }
}

/// What follows the last dot of a link is the extension, whatever stands before that dot, and a link
/// without a dot has the extension of subtitles, with a dot of its own.
pub proof fn only_the_end_of_a_link_counts(front: Seq<char>, extension: Seq<char>)
    requires
        !extension.contains('.'),
    ensures
        link_extension(front.push('.') + extension) == extension,
        link_extension(extension) == ".srt"@,
{
    let link = front.push('.') + extension;
    let n = front.len() as int;
    assert(link[n] == '.');
    assert forall|j: int| n < j < link.len() implies link[j] != '.' by {
        assert(link[j] == extension[j - n - 1]);
        assert(extension.contains(extension[j - n - 1]));
    }
    assert(is_last_dot(link, n));
    let dot = choose|i: int| is_last_dot(link, i);
    last_dot_is_unique(link, n, dot);
    assert(link.skip(n + 1) =~= extension);
}

} // verus!
