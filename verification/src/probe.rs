//! The request that finds out whether a stream URL will be served to its end.
//!
//! Some URLs are answered for the first mebibyte only: a HEAD and an opening range both pass, and
//! the stream then dies. So the probe asks for the last bytes of the file.
use vstd::prelude::*;
use vstd::string::*;

use crate::stream_url::{self, is_youtube_stream};
use crate::string_map::StringMap;
use crate::text::{self, decimal_text};

verus! {

/// How long a probe may take, in seconds.
pub const PROBE_TIMEOUT_SECONDS: u64 = 10;

/// How many bytes at the end of the file a probe asks for.
pub const PROBE_BYTES: u64 = 256;

#[derive(Debug, Clone, Copy, PartialEq, Eq, Structural)]
pub enum Method {
    Get,
    Head,
}

/// A probe to be sent.
pub struct Probe {
    pub method: Method,
    pub url: String,
    /// The probe's own headers, which come first.
    pub own_headers: Vec<(String, String)>,
    /// The headers that the stream request will carry too.
    pub headers: StringMap<String>,
    pub timeout_seconds: u64,
}

/// The first byte that a probe of a file of `len` bytes asks for.
pub open spec fn first_probed(len: u64) -> int {
    if len >= PROBE_BYTES {
        len - PROBE_BYTES
    } else {
        0
    }
}

/// The `Range` header of such a probe.
pub open spec fn range_text(len: u64) -> Seq<char> {
    "bytes="@ + text::decimal(first_probed(len) as nat) + "-"@ + text::decimal(
        (len - 1) as nat,
    )
}

/// A probe asks for a range where the length is known and the stream CDN serves the URL.
pub open spec fn ranged(url: Seq<char>, content_length: Option<u64>) -> bool {
    content_length matches Some(n) && n > 0 && stream_url::youtube_stream(url)
}

/// The range header for the last bytes of a file.
fn range_header(len: u64) -> (r: String)
    requires
        len > 0,
    ensures
        r@ == range_text(len),
{
    let mut r: String = "bytes=".to_owned();
    r.append(decimal_text(len.saturating_sub(PROBE_BYTES)).as_str());
    r.append("-");
    r.append(decimal_text(len - 1).as_str());
    r
}

/// The probe for a stream URL. Off the stream CDN, or without a length to aim at, it is a HEAD.
pub fn stream_probe(url: &str, headers: StringMap<String>, content_length: Option<u64>) -> (r:
    Probe)
    ensures
        r.url@ == url@,
        r.headers@ == headers@,
        r.timeout_seconds == PROBE_TIMEOUT_SECONDS,
        ranged(url@, content_length) ==> {
            &&& r.method == Method::Get
            &&& r.own_headers@.len() == 2
            &&& r.own_headers@[0].0@ == "Range"@
            &&& r.own_headers@[0].1@ == range_text(content_length->0)
            &&& r.own_headers@[1].0@ == "Accept-Encoding"@
            &&& r.own_headers@[1].1@ == "identity"@
        },
        r.method == Method::Get ==> {
            &&& content_length matches Some(len)
            &&& len > 0
            &&& r.own_headers@[0].1@ == "bytes="@ + text::decimal(
                if len > 256 {
                    (len - 256) as nat
                } else {
                    0
                },
            ) + "-"@ + text::decimal((len - 1) as nat)
        },
        r.timeout_seconds == 10,
        !ranged(url@, content_length) ==> {
            &&& r.method == Method::Head
            &&& r.own_headers@.len() == 0
        },
{
    let mut own_headers: Vec<(String, String)> = Vec::new();
    let mut method: Method = Method::Head;
    if let Some(len) = content_length {
        if len > 0 && is_youtube_stream(url) {
            method = Method::Get;
            own_headers.push(("Range".to_owned(), range_header(len)));
            own_headers.push(("Accept-Encoding".to_owned(), "identity".to_owned()));
        }
    }
    Probe {
        method,
        url: url.to_owned(),
        own_headers,
        headers,
        timeout_seconds: PROBE_TIMEOUT_SECONDS,
    }
}

/// Does this status code, if any came back, mean that the URL is served?
pub fn probe_passed(status: Option<u16>) -> (r: bool)
    ensures
        r == (status matches Some(code) && 200 <= code < 300),
{
    match status {
        Some(code) => 200 <= code && code < 300,
        None => false,
    }
}

/// A ranged probe asks for at least one byte and at most [`PROBE_BYTES`], all of them in the file,
/// up to its very last one.
pub proof fn range_is_the_tail(len: u64)
    requires
        len > 0,
    ensures
        0 <= first_probed(len) <= len - 1,
        (len - 1) - first_probed(len) < PROBE_BYTES,
        len <= PROBE_BYTES ==> first_probed(len) == 0,
        text::parsed_u64(text::decimal((len - 1) as nat)) == Some((len - 1) as u64),
{
    text::decimal_reads_back((len - 1) as u64);
}

/// What a probe's range header names: from its first byte on, the 256 bytes at the end of the file
/// and no others, or the whole of a file that has fewer.
pub proof fn the_range_header_names_the_tail(len: u64, first: nat)
    requires
        len > 0,
        first == (if len > 256 {
            len - 256
        } else {
            0
        }),
    ensures
        range_text(len) == "bytes="@ + text::decimal(first) + "-"@ + text::decimal(
            (len - 1) as nat,
        ),
        text::parsed_u64(text::decimal(first)) == Some(first as u64),
        text::parsed_u64(text::decimal((len - 1) as nat)) == Some((len - 1) as u64),
{
    text::decimal_reads_back(first as u64);
    text::decimal_reads_back((len - 1) as u64);
}

} // verus!
