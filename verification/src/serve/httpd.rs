//! The responses of the file service.
//!
//! A handler of this module is a function from what the request asked and
//! what the files provider found to a [`Response`]: a status, the headers
//! and a description of the body. Writing it to the connection, and reading
//! the file that a body names, is the caller's part.

use crate::paths::is_absolute;
use crate::serve::files::{
    DirProbe, FileProbe, FilesError, Listing, ListingView, Payload, PayloadView, SimpleFiles,
};
use crate::text::{append_decimal, decimal};
use axum_extra::headers::{Header, HeaderValue, Range};
use std::ops::Bound;
use vstd::prelude::*;
use vstd::string::*;

verus! {

/// The status of a response that carries the whole file or a listing.
pub const OK: u16 = 200;

/// The status of a response that carries the tail of a file.
pub const PARTIAL_CONTENT: u16 = 206;

/// The status of a response to a request that names nothing to serve.
pub const NOT_FOUND: u16 = 404;

/// The status of a response to a range that is not served.
pub const RANGE_NOT_SATISFIABLE: u16 = 416;

/// The body of every `NOT_FOUND` response.
pub const NOT_FOUND_TEXT: &'static str =
    "In the beginning there was darkness... Or was it 404? I can't remember.";

/// The address of the root directory itself, which `GET /` lists.
pub const ROOT_ADDRESS: &'static str = "";

/// A response header that this service sets.
#[derive(Debug, Clone, Copy, PartialEq, Eq, Structural)]
pub enum HeaderName {
    ContentType,
    ContentLength,
    ContentRange,
}

/// What a response carries after its headers.
#[derive(Debug, PartialEq, Eq)]
pub enum Body {
    /// Nothing.
    Empty,
    /// The fixed text `NOT_FOUND_TEXT`.
    NotFoundText,
    /// The listing, written as a document with the fields `dirs` and `files`.
    Listing(Listing),
    /// The bytes of the file, from its first to its last.
    WholeFile,
    /// The bytes of the file after the first `skip`: the caller seeks to
    /// `skip`, streams the rest, and passes a failed seek to `after_seek`.
    FileFrom { skip: u64 },
}

/// The mathematical value of a [`Body`].
pub enum BodyView {
    Empty,
    NotFoundText,
    Listing(ListingView),
    WholeFile,
    FileFrom { skip: u64 },
}

impl View for Body {
    type V = BodyView;

    open spec fn view(&self) -> BodyView {
        match self {
            Body::Empty => BodyView::Empty,
            Body::NotFoundText => BodyView::NotFoundText,
            Body::Listing(listing) => BodyView::Listing(listing@),
            Body::WholeFile => BodyView::WholeFile,
            Body::FileFrom { skip } => BodyView::FileFrom { skip: *skip },
        }
    }
}

/// A response: its status, its headers in the order they are set, and its
/// body.
#[derive(Debug, PartialEq, Eq)]
pub struct Response {
    pub status: u16,
    pub headers: Vec<(HeaderName, String)>,
    pub body: Body,
}

/// The mathematical value of a [`Response`].
pub struct ResponseView {
    pub status: u16,
    pub headers: Seq<(HeaderName, Seq<char>)>,
    pub body: BodyView,
}

impl View for Response {
    type V = ResponseView;

    open spec fn view(&self) -> ResponseView {
        ResponseView {
            status: self.status,
            headers: Seq::new(
                self.headers@.len(),
                |i: int| (self.headers@[i].0, self.headers@[i].1@),
            ),
            body: self.body@,
        }
    }
}

/// One end of a byte range.
#[derive(Debug, Clone, Copy, PartialEq, Eq, Structural)]
pub enum ByteBound {
    Included(u64),
    Excluded(u64),
    Unbounded,
}

/// A byte range that a request asks for: where it starts and where it ends.
#[derive(Debug, Clone, Copy, PartialEq, Eq, Structural)]
pub struct ByteRange {
    pub start: ByteBound,
    pub end: ByteBound,
}

/// The bytes of a text of ASCII characters.
pub open spec fn ascii(text: Seq<char>) -> Seq<u8> {
    Seq::new(text.len(), |i: int| text[i] as u8)
}

/// The header value `bytes=<first>-`: everything from the offset `first`.
pub open spec fn open_range(first: u64) -> Seq<u8> {
    ascii("bytes="@ + decimal(first as nat) + "-"@)
}

/// The header value `bytes=<first>-<last>`: the bytes from the offset
/// `first` to the offset `last`.
pub open spec fn closed_range(first: u64, last: u64) -> Seq<u8> {
    ascii("bytes="@ + decimal(first as nat) + "-"@ + decimal(last as nat))
}

/// The one range from the offset `first` to the end.
pub open spec fn from_offset(first: u64) -> Seq<ByteRange> {
    seq![ByteRange { start: ByteBound::Included(first), end: ByteBound::Unbounded }]
}

/// The one range from the offset `first` to the offset `last`.
pub open spec fn between(first: u64, last: u64) -> Seq<ByteRange> {
    seq![ByteRange { start: ByteBound::Included(first), end: ByteBound::Included(last) }]
}

/// Whether `ranges` is what the two plain forms of a header value are read
/// as: `bytes=<first>-` as the one range from `first` to the end, and
/// `bytes=<first>-<last>` as the one range from `first` to `last`. Of a
/// value in any other form it says nothing.
pub open spec fn read_as_written(value: Seq<u8>, ranges: Option<Seq<ByteRange>>) -> bool {
    &&& forall|first: u64|
        value == #[trigger] open_range(first) ==> ranges == Some(from_offset(first))
    &&& forall|first: u64, last: u64|
        value == #[trigger] closed_range(first, last) ==> ranges == Some(between(first, last))
}

/// The ranges of the `Range` header value `value` that the `headers` crate
/// holds satisfiable for a body of `len` bytes, in the order of the header;
/// `None` where it does not take `value` for a `Range` header at all.
pub uninterp spec fn satisfiable_ranges_of(value: Seq<u8>, len: u64) -> Option<Seq<ByteRange>>;

/// Decodes `value` as a `Range` header with `Range::decode` of the `headers`
/// crate, which `axum_extra` hands on, and collects what
/// `Range::satisfiable_ranges` yields for `len`, each pair of bounds written
/// as a `ByteRange`. Both read nothing but `value` and `len`, so the result
/// is the one that `satisfiable_ranges_of` names. Two facts are claimed of
/// it, which the source of `satisfiable_ranges` shows and `read_as_written`
/// states: it reads `bytes=<first>-` as the one range from `first` to the
/// end, and `bytes=<first>-<last>` as the one range from `first` to `last`,
/// whatever the numbers and whatever `len`.
#[verifier::external_body]
fn satisfiable_ranges(value: &[u8], len: u64) -> (ranges: Option<Vec<ByteRange>>)
    ensures
        match ranges {
            Some(found) => satisfiable_ranges_of(value@, len) == Some(found@),
            None => satisfiable_ranges_of(value@, len) is None,
        },
        read_as_written(
            value@,
            match ranges {
                Some(found) => Some(found@),
                None => None,
            },
        ),
{
    let value = HeaderValue::from_bytes(value).ok()?;
    let range = Range::decode(&mut std::iter::once(&value)).ok()?;
    Some(range.satisfiable_ranges(len).map(|(start, end)| ByteRange {
        start: match start {
            Bound::Included(n) => ByteBound::Included(n),
            Bound::Excluded(n) => ByteBound::Excluded(n),
            Bound::Unbounded => ByteBound::Unbounded,
        },
        end: match end {
            Bound::Included(n) => ByteBound::Included(n),
            Bound::Excluded(n) => ByteBound::Excluded(n),
            Bound::Unbounded => ByteBound::Unbounded,
        },
    }).collect())
}

/// The text `bytes */<size>`.
pub open spec fn unsatisfied_range_text(size: u64) -> Seq<char> {
    "bytes */"@ + decimal(size as nat)
}

/// The text `bytes <skip>-<size - 1>/<size>`.
pub open spec fn content_range_text(skip: u64, size: u64) -> Seq<char> {
    "bytes "@ + decimal(skip as nat) + "-"@ + decimal((size - 1) as nat) + "/"@ + decimal(
        size as nat,
    )
}

/// The response to every request that names nothing to serve.
pub open spec fn not_found() -> ResponseView {
    ResponseView { status: NOT_FOUND, headers: Seq::empty(), body: BodyView::NotFoundText }
}

/// The response that carries the whole file.
pub open spec fn whole_file(payload: PayloadView) -> ResponseView {
    ResponseView {
        status: OK,
        headers: seq![
            (HeaderName::ContentType, payload.media_type),
            (HeaderName::ContentLength, decimal(payload.size as nat)),
        ],
        body: BodyView::WholeFile,
    }
}

/// The response that carries the file without its first `skip` bytes.
pub open spec fn file_tail(payload: PayloadView, skip: u64) -> ResponseView {
    ResponseView {
        status: PARTIAL_CONTENT,
        headers: seq![
            (HeaderName::ContentType, payload.media_type),
            (HeaderName::ContentLength, decimal((payload.size - skip) as nat)),
            (HeaderName::ContentRange, content_range_text(skip, payload.size)),
        ],
        body: BodyView::FileFrom { skip },
    }
}

/// The response to a range that is not served.
pub open spec fn range_refused(payload: PayloadView) -> ResponseView {
    ResponseView {
        status: RANGE_NOT_SATISFIABLE,
        headers: seq![(HeaderName::ContentRange, unsatisfied_range_text(payload.size))],
        body: BodyView::Empty,
    }
}

/// The offset that `ranges` asks to skip to, where they are exactly one
/// range, from an included start to an open end.
pub open spec fn single_skip(ranges: Seq<ByteRange>) -> Option<u64> {
    if ranges.len() == 1 {
        match (ranges[0].start, ranges[0].end) {
            (ByteBound::Included(skip), ByteBound::Unbounded) => Some(skip),
            _ => None,
        }
    } else {
        None
    }
}

/// The response to a request with a `Range` header, given the ranges that
/// were read from it: the tail of the file where they are one range with an
/// open end that starts inside the file, a refusal otherwise.
pub open spec fn ranged(payload: PayloadView, ranges: Option<Seq<ByteRange>>) -> ResponseView {
    match ranges {
        Some(found) => match single_skip(found) {
            Some(skip) => if skip < payload.size {
                file_tail(payload, skip)
            } else {
                range_refused(payload)
            },
            None => range_refused(payload),
        },
        None => range_refused(payload),
    }
}

/// The response to a payload request, given the value of its `Range`
/// header, if it has one.
pub open spec fn file_response(payload: PayloadView, range: Option<Seq<u8>>) -> ResponseView {
    match range {
        None => whole_file(payload),
        Some(value) => ranged(payload, satisfiable_ranges_of(value, payload.size)),
    }
}

/// The response that carries a listing.
pub open spec fn listing_response(listing: ListingView) -> ResponseView {
    ResponseView { status: OK, headers: Seq::empty(), body: BodyView::Listing(listing) }
}

/// The response to a payload request, given what the files provider found
/// and the value of the request's `Range` header, if it has one.
pub open spec fn file_request(
    lookup: Result<PayloadView, FilesError>,
    range: Option<Seq<u8>>,
) -> ResponseView {
    match lookup {
        Ok(payload) => file_response(payload, range),
        Err(_) => not_found(),
    }
}

/// The response to a listing request, given what the files provider found.
pub open spec fn dir_request(lookup: Result<ListingView, FilesError>) -> ResponseView {
    match lookup {
        Ok(listing) => listing_response(listing),
        Err(_) => not_found(),
    }
}

/// The address that a listener on `port` binds: every interface of the
/// host, `0.0.0.0:<port>`.
pub open spec fn bound_address(port: u16) -> Seq<char> {
    "0.0.0.0:"@ + decimal(port as nat)
}

/// The response for requests that no route matches.
pub fn fallback() -> (response: Response)
    ensures
        response@ == not_found(),
{
    let response = Response { status: NOT_FOUND, headers: Vec::new(), body: Body::NotFoundText };
    assert(response@.headers =~= Seq::empty());
    response
}

/// The refusal of a range: status 416, `Content-Range: bytes */<size>` and
/// an empty body.
pub fn range_not_acceptable(payload: &Payload) -> (response: Response)
    ensures
        response@ == range_refused(payload@),
{
    let mut value = String::from_str("bytes */");
    append_decimal(&mut value, payload.size);
    let mut headers = Vec::new();
    headers.push((HeaderName::ContentRange, value));
    let response = Response { status: RANGE_NOT_SATISFIABLE, headers, body: Body::Empty };
    assert(response@.headers =~= range_refused(payload@).headers);
    response
}

/// The response that carries the whole file: status 200 with
/// `Content-Type` and `Content-Length`.
fn serve_whole(payload: &Payload) -> (response: Response)
    ensures
        response@ == whole_file(payload@),
{
    let mut length = String::new();
    append_decimal(&mut length, payload.size);
    let mut headers = Vec::new();
    headers.push((HeaderName::ContentType, payload.media_type.clone()));
    headers.push((HeaderName::ContentLength, length));
    let response = Response { status: OK, headers, body: Body::WholeFile };
    assert(response@.headers =~= whole_file(payload@).headers);
    response
}

/// The response that carries the file after its first `skip` bytes: status
/// 206 with `Content-Type`, `Content-Length` and `Content-Range`.
fn serve_tail(payload: &Payload, skip: u64) -> (response: Response)
    requires
        skip < payload.size,
    ensures
        response@ == file_tail(payload@, skip),
{
    let mut length = String::new();
    append_decimal(&mut length, payload.size - skip);
    let mut range = String::from_str("bytes ");
    append_decimal(&mut range, skip);
    range.append("-");
    append_decimal(&mut range, payload.size - 1);
    range.append("/");
    append_decimal(&mut range, payload.size);
    let mut headers = Vec::new();
    headers.push((HeaderName::ContentType, payload.media_type.clone()));
    headers.push((HeaderName::ContentLength, length));
    headers.push((HeaderName::ContentRange, range));
    let response = Response { status: PARTIAL_CONTENT, headers, body: Body::FileFrom { skip } };
    assert(response@.headers =~= file_tail(payload@, skip).headers);
    response
}

/// Answers a request that carried a `Range` header, given the ranges that
/// were read from it. One range from an included start inside the file to an
/// open end is served as the tail of the file; anything else is refused.
pub fn serve_ranges(payload: &Payload, ranges: Option<&Vec<ByteRange>>) -> (response: Response)
    ensures
        response@ == ranged(
            payload@,
            match ranges {
                Some(found) => Some(found@),
                None => None,
            },
        ),
{
    let found = match ranges {
        Some(found) => found,
        None => {
            return range_not_acceptable(payload);
        },
    };
    if found.len() != 1 {
        return range_not_acceptable(payload);
    }
    match (found[0].start, found[0].end) {
        (ByteBound::Included(skip), ByteBound::Unbounded) => {
            if skip < payload.size {
                serve_tail(payload, skip)
            } else {
                range_not_acceptable(payload)
            }
        },
        _ => range_not_acceptable(payload),
    }
}

/// The response to a request for everything from the offset `first`: the
/// tail of the file where the offset lies inside it, a refusal otherwise.
pub open spec fn tail_or_refusal(payload: PayloadView, first: u64) -> ResponseView {
    if first < payload.size {
        file_tail(payload, first)
    } else {
        range_refused(payload)
    }
}

/// Whether `response` answers the two plain forms of a `Range` header as
/// they are meant: `bytes=<first>-` with the tail of the file from an offset
/// inside it, and `bytes=<first>-<last>` with a refusal.
pub open spec fn answers_as_written(
    payload: PayloadView,
    range: Option<Seq<u8>>,
    response: ResponseView,
) -> bool {
    &&& forall|first: u64|
        range == Some(#[trigger] open_range(first)) ==> response == tail_or_refusal(
            payload,
            first,
        )
    &&& forall|first: u64, last: u64|
        range == Some(#[trigger] closed_range(first, last)) ==> response == range_refused(
            payload,
        )
}

/// Answers a payload request. Without a `Range` header the whole file is
/// served. With one, `range` is its value, and the ranges that it asks for
/// are served as `serve_ranges` says: `bytes=<first>-` gets the tail of the
/// file from an offset inside it, and `bytes=<first>-<last>` is refused.
pub fn serve_file(payload: &Payload, range: Option<&[u8]>) -> (response: Response)
    ensures
        response@ == file_response(
            payload@,
            match range {
                Some(value) => Some(value@),
                None => None,
            },
        ),
        answers_as_written(
            payload@,
            match range {
                Some(value) => Some(value@),
                None => None,
            },
            response@,
        ),
{
    match range {
        None => serve_whole(payload),
        Some(value) => {
            let ranges = satisfiable_ranges(value, payload.size);
            serve_ranges(payload, ranges.as_ref())
        },
    }
}

/// Settles a response once the caller has tried to seek to the offset that
/// its body names. A failed seek is answered like a range that is not
/// served.
pub fn after_seek(response: Response, payload: &Payload, sought: bool) -> (settled: Response)
    ensures
        settled@ == if sought {
            response@
        } else {
            range_refused(payload@)
        },
{
    if sought {
        response
    } else {
        range_not_acceptable(payload)
    }
}

/// Answers `GET /{address}`: the file that the provider found, whole or in
/// part as `serve_file` says, or `NOT_FOUND` where it found none. The
/// provider's error is for the log; the client does not see it.
pub fn get_file(lookup: Result<Payload, FilesError>, range: Option<&[u8]>) -> (response: Response)
    ensures
        response@ == file_request(
            match lookup {
                Ok(payload) => Ok(payload@),
                Err(e) => Err(e),
            },
            match range {
                Some(value) => Some(value@),
                None => None,
            },
        ),
        lookup matches Ok(payload) ==> answers_as_written(
            payload@,
            match range {
                Some(value) => Some(value@),
                None => None,
            },
            response@,
        ),
{
    match lookup {
        Ok(payload) => serve_file(&payload, range),
        Err(_) => fallback(),
    }
}

/// Answers a listing request: the listing that the provider found, or
/// `NOT_FOUND` where it found none.
pub fn get_dir(lookup: Result<Listing, FilesError>) -> (response: Response)
    ensures
        response@ == dir_request(
            match lookup {
                Ok(listing) => Ok(listing@),
                Err(e) => Err(e),
            },
        ),
{
    match lookup {
        Ok(listing) => {
            let response = Response { status: OK, headers: Vec::new(), body: Body::Listing(listing) };
            assert(response@.headers =~= Seq::empty());
            response
        },
        Err(_) => fallback(),
    }
}

/// The address that `run` binds its listener to.
pub fn bind_address(port: u16) -> (address: String)
    ensures
        address@ == bound_address(port),
{
    let mut address = String::from_str("0.0.0.0:");
    append_decimal(&mut address, port as u64);
    address
}

/// A regular file under the root, asked for without a range, is served
/// whole: status 200, its media type, and its size as `Content-Length`.
pub proof fn law_regular_file_is_served_whole(files: SimpleFiles, address: Seq<char>, size: u64)
    requires
        !is_absolute(files.resolved(address)),
    ensures
        files.payload_for(address, FileProbe::Opened { size }) is Ok,
        file_request(files.payload_for(address, FileProbe::Opened { size }), None)
            == (ResponseView {
            status: 200,
            headers: seq![
                (
                    HeaderName::ContentType,
                    files.payload_for(address, FileProbe::Opened { size })->Ok_0.media_type,
                ),
                (HeaderName::ContentLength, decimal(size as nat)),
            ],
            body: BodyView::WholeFile,
        }),
{
}

/// A range from an offset inside the file to its end is served as the tail
/// of the file: status 206, `Content-Range: bytes <skip>-<size - 1>/<size>`,
/// and a body of the `size - skip` bytes that follow the offset.
pub proof fn law_open_range_is_served_as_tail(payload: PayloadView, skip: u64)
    requires
        skip < payload.size,
    ensures
        ranged(
            payload,
            Some(seq![ByteRange { start: ByteBound::Included(skip), end: ByteBound::Unbounded }]),
        ) == (ResponseView {
            status: 206,
            headers: seq![
                (HeaderName::ContentType, payload.media_type),
                (HeaderName::ContentLength, decimal((payload.size - skip) as nat)),
                (
                    HeaderName::ContentRange,
                    "bytes "@ + decimal(skip as nat) + "-"@ + decimal((payload.size - 1) as nat)
                        + "/"@ + decimal(payload.size as nat),
                ),
            ],
            body: BodyView::FileFrom { skip },
        }),
{
}

/// Ranges of any other shape are refused: none at all, several ranges, a
/// range with a closed end or without an included start, and an offset at
/// or beyond the end of the file all get status 416,
/// `Content-Range: bytes */<size>` and an empty body.
pub proof fn law_other_ranges_are_refused(payload: PayloadView, ranges: Seq<ByteRange>)
    requires
        ranges.len() != 1 || ranges[0].end != ByteBound::Unbounded || !(ranges[0].start
            is Included) || ranges[0].start->Included_0 >= payload.size,
    ensures
        ranged(payload, Some(ranges)) == (ResponseView {
            status: 416,
            headers: seq![
                (HeaderName::ContentRange, "bytes */"@ + decimal(payload.size as nat)),
            ],
            body: BodyView::Empty,
        }),
{
}

/// A `Range` header that cannot be read is refused like a range that is
/// not served.
pub proof fn law_unreadable_range_is_refused(payload: PayloadView)
    ensures
        ranged(payload, None) == (ResponseView {
            status: 416,
            headers: seq![
                (HeaderName::ContentRange, "bytes */"@ + decimal(payload.size as nat)),
            ],
            body: BodyView::Empty,
        }),
{
}

/// An address that resolves to an absolute path is not served: a payload
/// request and a listing request for it both get `NOT_FOUND`, whatever is
/// on disk there and whatever range is asked for. An address that is
/// itself absolute always resolves to one.
pub proof fn law_absolute_address_is_not_found(
    files: SimpleFiles,
    address: Seq<char>,
    file: FileProbe,
    dir: DirProbe,
    range: Option<Seq<u8>>,
)
    requires
        is_absolute(address) || is_absolute(files.resolved(address)),
    ensures
        is_absolute(files.resolved(address)),
        file_request(files.payload_for(address, file), range) == not_found(),
        dir_request(files.listing_for(address, dir)) == not_found(),
{
}

} // verus!
