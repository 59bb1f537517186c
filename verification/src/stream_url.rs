//! Stream URLs: whose host serves them and the token that some of them carry.
use vstd::prelude::*;
use vstd::string::*;
use vstd::utf8::encode_utf8;

use crate::text::{has_char, has_suffix, opt_text};

verus! {

/// The host of an absolute URL, as the URL standard reads it; `None` where the text is no
/// absolute URL or has no host.
pub uninterp spec fn url_host(url: Seq<char>) -> Option<Seq<char>>;

/// Parses `url` with `reqwest::Url::parse` and hands out the `host_str` of the result. Claimed of
/// it: the outcome depends on the text alone and is what [`url_host`] names.
#[verifier::external_body]
fn parse_host(url: &str) -> (r: Option<String>)
    ensures
        opt_text(r) == url_host(url@),
{
    match reqwest::Url::parse(url) {
        Ok(u) => u.host_str().map(|h| h.to_owned()),
        Err(_) => None,
    }
}

/// One of the two domains that serve streams. Ordinary tracks come from the first; the user's own
/// uploads from the second.
pub open spec fn stream_host(host: Seq<char>) -> bool {
    ".googlevideo.com"@.is_suffix_of(host) || ".c.youtube.com"@.is_suffix_of(host)
}

/// Does this host belong to the stream CDN?
pub fn is_stream_host(host: &str) -> (r: bool)
    ensures
        r == stream_host(host@),
{
    has_suffix(host, ".googlevideo.com") || has_suffix(host, ".c.youtube.com")
}

/// A URL served by the stream CDN.
pub open spec fn youtube_stream(url: Seq<char>) -> bool {
    match url_host(url) {
        Some(host) => stream_host(host),
        None => false,
    }
}

/// True for a URL served by the stream CDN. Everything else (a podcast feed's own enclosure) gets
/// no `n`-transform, no PoToken and no ranged probe.
pub fn is_youtube_stream(url: &str) -> (r: bool)
    ensures
        r == youtube_stream(url@),
{
    match parse_host(url) {
        Some(host) => is_stream_host(host.as_str()),
        None => false,
    }
}

/// A byte that stands for itself in a percent-encoded text.
pub open spec fn unreserved(b: u8) -> bool {
    ||| 0x30 <= b <= 0x39
    ||| 0x41 <= b <= 0x5a
    ||| 0x61 <= b <= 0x7a
    ||| b == 0x2d
    ||| b == 0x2e
    ||| b == 0x5f
    ||| b == 0x7e
}

/// An upper-case hexadecimal digit.
pub open spec fn hex_digit(d: int) -> char {
    (if d < 10 {
        0x30 + d
    } else {
        0x41 - 10 + d
    }) as char
}

/// `bytes` with every byte that is not unreserved written as `%` and two hexadecimal digits.
pub open spec fn percent_encoded(bytes: Seq<u8>) -> Seq<char>
    decreases bytes.len(),
{
    if bytes.len() == 0 {
        Seq::empty()
    } else {
        let b = bytes.last();
        percent_encoded(bytes.drop_last()) + (if unreserved(b) {
            seq![b as char]
        } else {
            seq!['%', hex_digit(b as int / 16), hex_digit(b as int % 16)]
        })
    }
}

/// Percent-encodes a text with `urlencoding::encode`. Claimed of it: letters, digits and `-`, `_`,
/// `.`, `~` stay, and every other byte of the UTF-8 text is written as `%XX`.
#[verifier::external_body]
fn percent_encode(s: &str) -> (r: String)
    ensures
        r@ == percent_encoded(encode_utf8(s@)),
{
    urlencoding::encode(s).into_owned()
}

/// `url` with the streaming token appended as its `pot` parameter.
pub open spec fn with_token(url: Seq<char>, token: Seq<char>) -> Seq<char> {
    url + (if url.contains('?') {
        "&pot="@
    } else {
        "?pot="@
    }) + percent_encoded(encode_utf8(token))
}

/// Appends the streaming token to a stream URL.
pub fn append_token(url: &str, token: &str) -> (r: String)
    ensures
        r@ == with_token(url@, token@),
{
    let mut r: String = url.to_owned();
    if has_char(url, '?') {
        r.append("&pot=");
    } else {
        r.append("?pot=");
    }
    r.append(percent_encode(token).as_str());
    r
}

} // verus!
