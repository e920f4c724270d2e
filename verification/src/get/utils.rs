//! The headers of a response that the client reads.

use crate::text::{parse_usize, parsed_usize};
use reqwest::header::HeaderValue;
use vstd::prelude::*;

verus! {

/// The values of the headers that the client reads, as they came: the first
/// `Content-Type` and the first `Content-Length`, where the response has
/// them.
#[derive(Debug, PartialEq, Eq)]
pub struct Headers {
    pub content_type: Option<Vec<u8>>,
    pub content_length: Option<Vec<u8>>,
}

/// Whether `b` is a visible ASCII character, a space or a tab.
pub open spec fn is_visible_ascii(b: u8) -> bool {
    32 <= b < 127 || b == 9
}

/// The text of a header value: its bytes as characters, where every one of
/// them is visible ASCII.
pub open spec fn visible_text(value: Seq<u8>) -> Option<Seq<char>> {
    if forall|i: int| 0 <= i < value.len() ==> is_visible_ascii(#[trigger] value[i]) {
        Some(Seq::new(value.len(), |i: int| value[i] as char))
    } else {
        None
    }
}

/// The text of an optional header value.
pub open spec fn header_text_of(value: Option<Vec<u8>>) -> Option<Seq<char>> {
    match value {
        Some(bytes) => visible_text(bytes@),
        None => None,
    }
}

/// The number in an optional header value.
pub open spec fn header_number_of(value: Option<Vec<u8>>) -> Option<usize> {
    match header_text_of(value) {
        Some(text) => parsed_usize(text),
        None => None,
    }
}

/// Makes a `reqwest::header::HeaderValue` of `value` and reads it with
/// `HeaderValue::to_str`, which gives the bytes as text where all of them
/// are visible ASCII (32 to 126, or a tab) and fails otherwise. Making the
/// value fails on fewer bytes than reading it, so the two together fail
/// exactly where reading does.
#[verifier::external_body]
fn header_text(value: &[u8]) -> (text: Option<String>)
    ensures
        match text {
            Some(t) => visible_text(value@) == Some(t@),
            None => visible_text(value@) is None,
        },
{
    HeaderValue::from_bytes(value).ok()?.to_str().ok().map(|text| text.to_string())
}

/// The media type that the response declares, where it declares one in
/// readable text.
pub fn content_type(headers: &Headers) -> (media_type: Option<String>)
    ensures
        match media_type {
            Some(t) => header_text_of(headers.content_type) == Some(t@),
            None => header_text_of(headers.content_type) is None,
        },
{
    match &headers.content_type {
        Some(value) => header_text(value.as_slice()),
        None => None,
    }
}

/// The length that the response declares, where it declares one as a
/// number.
pub fn content_length(headers: &Headers) -> (length: Option<usize>)
    ensures
        length == header_number_of(headers.content_length),
{
    match &headers.content_length {
        Some(value) => match header_text(value.as_slice()) {
            Some(text) => parse_usize(text.as_str()),
            None => None,
        },
        None => None,
    }
}

} // verus!
