use ratls_transfer::serve::files::{DirItem, DirProbe, FileProbe, FilesError, Listing, Payload, SimpleFiles};
use ratls_transfer::serve::httpd::{
    after_seek, bind_address, fallback, get_dir, get_file, range_not_acceptable, serve_file,
    serve_ranges, Body, ByteBound, ByteRange, HeaderName, Response, NOT_FOUND, NOT_FOUND_TEXT, OK,
    PARTIAL_CONTENT, RANGE_NOT_SATISFIABLE, ROOT_ADDRESS,
};

fn payload(size: u64) -> Payload {
    Payload { size, media_type: "text/plain".to_string() }
}

fn refusal(size: u64) -> Response {
    Response {
        status: 416,
        headers: vec![(HeaderName::ContentRange, format!("bytes */{}", size))],
        body: Body::Empty,
    }
}

fn tail(size: u64, skip: u64) -> Response {
    Response {
        status: 206,
        headers: vec![
            (HeaderName::ContentType, "text/plain".to_string()),
            (HeaderName::ContentLength, format!("{}", size - skip)),
            (HeaderName::ContentRange, format!("bytes {}-{}/{}", skip, size - 1, size)),
        ],
        body: Body::FileFrom { skip },
    }
}

#[test]
fn status_codes_are_those_of_http() {
    assert_eq!(OK, 200);
    assert_eq!(PARTIAL_CONTENT, 206);
    assert_eq!(NOT_FOUND, 404);
    assert_eq!(RANGE_NOT_SATISFIABLE, 416);
}

#[test]
fn fallback_is_the_fixed_not_found_response() {
    let response = fallback();
    assert_eq!(response.status, 404);
    assert!(response.headers.is_empty());
    assert_eq!(response.body, Body::NotFoundText);
    assert_eq!(
        NOT_FOUND_TEXT,
        "In the beginning there was darkness... Or was it 404? I can't remember."
    );
}

#[test]
fn file_without_range_is_served_whole() {
    let response = serve_file(&payload(1234), None);
    assert_eq!(
        response,
        Response {
            status: 200,
            headers: vec![
                (HeaderName::ContentType, "text/plain".to_string()),
                (HeaderName::ContentLength, "1234".to_string()),
            ],
            body: Body::WholeFile,
        }
    );
}

#[test]
fn empty_file_without_range_is_served_whole() {
    let response = serve_file(&payload(0), None);
    assert_eq!(response.status, 200);
    assert_eq!(response.headers[1], (HeaderName::ContentLength, "0".to_string()));
    assert_eq!(response.body, Body::WholeFile);
}

#[test]
fn open_range_is_served_as_the_tail() {
    let response = serve_file(&payload(100), Some(b"bytes=5-"));
    assert_eq!(
        response,
        Response {
            status: 206,
            headers: vec![
                (HeaderName::ContentType, "text/plain".to_string()),
                (HeaderName::ContentLength, "95".to_string()),
                (HeaderName::ContentRange, "bytes 5-99/100".to_string()),
            ],
            body: Body::FileFrom { skip: 5 },
        }
    );
}

#[test]
fn open_range_from_every_offset_of_a_small_file() {
    let size = 12;
    for skip in 0..size {
        let header = format!("bytes={}-", skip);
        assert_eq!(serve_file(&payload(size), Some(header.as_bytes())), tail(size, skip));
    }
}

#[test]
fn open_range_from_the_first_and_the_last_byte() {
    assert_eq!(serve_file(&payload(100), Some(b"bytes=0-")), tail(100, 0));
    assert_eq!(serve_file(&payload(100), Some(b"bytes=99-")), tail(100, 99));
    assert_eq!(serve_file(&payload(1), Some(b"bytes=0-")), tail(1, 0));
}

#[test]
fn bounded_range_is_refused() {
    for size in [12u64, 100, 4096] {
        let response = serve_file(&payload(size), Some(b"bytes=0-10"));
        assert_eq!(response.status, 416);
        assert_eq!(
            response.headers,
            vec![(HeaderName::ContentRange, format!("bytes */{}", size))]
        );
        assert_eq!(response.body, Body::Empty);
    }
}

#[test]
fn bounded_range_is_refused_whatever_its_ends() {
    for header in ["bytes=5-5", "bytes=10-0", "bytes=0-0", "bytes=99-99", "bytes=0-99", "bytes=200-300"] {
        assert_eq!(serve_file(&payload(100), Some(header.as_bytes())), refusal(100), "{}", header);
    }
}

#[test]
fn open_range_of_a_large_file() {
    let size = u64::MAX;
    assert_eq!(
        serve_file(&payload(size), Some(b"bytes=18446744073709551614-")),
        tail(size, size - 1)
    );
    assert_eq!(serve_file(&payload(size), Some(b"bytes=18446744073709551615-")), refusal(size));
    assert_eq!(serve_file(&payload(size), Some(b"bytes=18446744073709551616-")), refusal(size));
}

#[test]
fn offset_at_or_past_the_end_is_refused() {
    assert_eq!(serve_file(&payload(100), Some(b"bytes=100-")), refusal(100));
    assert_eq!(serve_file(&payload(100), Some(b"bytes=101-")), refusal(100));
    assert_eq!(serve_file(&payload(100), Some(b"bytes=18446744073709551615-")), refusal(100));
    assert_eq!(serve_file(&payload(0), Some(b"bytes=0-")), refusal(0));
}

#[test]
fn several_ranges_are_refused() {
    assert_eq!(serve_file(&payload(100), Some(b"bytes=0-1,5-")), refusal(100));
    assert_eq!(serve_file(&payload(100), Some(b"bytes=5-,10-")), refusal(100));
}

#[test]
fn range_that_cannot_be_read_is_refused() {
    assert_eq!(serve_file(&payload(100), Some(b"bytes=")), refusal(100));
    assert_eq!(serve_file(&payload(100), Some(b"bytes=abc-")), refusal(100));
    assert_eq!(serve_file(&payload(100), Some(b"bytes=5")), refusal(100));
    assert_eq!(serve_file(&payload(100), Some(b"pages=5-")), refusal(100));
    assert_eq!(serve_file(&payload(100), Some(b"")), refusal(100));
    assert_eq!(serve_file(&payload(100), Some(b"bytes=5-\n")), refusal(100));
    assert_eq!(serve_file(&payload(100), Some(b"bytes=\xff-")), refusal(100));
}

#[test]
fn suffix_range_comes_out_as_an_offset_from_the_start() {
    assert_eq!(serve_file(&payload(100), Some(b"bytes=-5")), tail(100, 95));
    assert_eq!(serve_file(&payload(100), Some(b"bytes=-100")), tail(100, 0));
    assert_eq!(serve_file(&payload(100), Some(b"bytes=-0")), refusal(100));
    assert_eq!(serve_file(&payload(100), Some(b"bytes=-101")), refusal(100));
}

#[test]
fn ranges_decide_the_response() {
    let open = |skip: u64| ByteRange { start: ByteBound::Included(skip), end: ByteBound::Unbounded };
    let closed = ByteRange { start: ByteBound::Included(0), end: ByteBound::Included(10) };
    let p = payload(100);
    assert_eq!(serve_ranges(&p, Some(&vec![open(40)])), tail(100, 40));
    assert_eq!(serve_ranges(&p, Some(&vec![open(100)])), refusal(100));
    assert_eq!(serve_ranges(&p, Some(&vec![closed])), refusal(100));
    assert_eq!(serve_ranges(&p, Some(&vec![open(1), open(2)])), refusal(100));
    assert_eq!(serve_ranges(&p, Some(&Vec::new())), refusal(100));
    assert_eq!(serve_ranges(&p, None), refusal(100));
    let excluded = ByteRange { start: ByteBound::Excluded(3), end: ByteBound::Unbounded };
    assert_eq!(serve_ranges(&p, Some(&vec![excluded])), refusal(100));
    let unbounded = ByteRange { start: ByteBound::Unbounded, end: ByteBound::Unbounded };
    assert_eq!(serve_ranges(&p, Some(&vec![unbounded])), refusal(100));
    let to_excluded = ByteRange { start: ByteBound::Included(3), end: ByteBound::Excluded(9) };
    assert_eq!(serve_ranges(&p, Some(&vec![to_excluded])), refusal(100));
}

#[test]
fn range_not_acceptable_names_the_size() {
    assert_eq!(range_not_acceptable(&payload(4096)), refusal(4096));
    assert_eq!(range_not_acceptable(&payload(0)), refusal(0));
}

#[test]
fn failed_seek_is_answered_like_a_refused_range() {
    let p = payload(100);
    assert_eq!(after_seek(serve_file(&p, Some(b"bytes=5-")), &p, true), tail(100, 5));
    assert_eq!(after_seek(serve_file(&p, Some(b"bytes=5-")), &p, false), refusal(100));
}

#[test]
fn get_file_serves_what_was_found() {
    assert_eq!(get_file(Ok(payload(100)), None), serve_file(&payload(100), None));
    assert_eq!(get_file(Ok(payload(100)), Some(b"bytes=7-")), tail(100, 7));
    assert_eq!(get_file(Ok(payload(100)), Some(b"bytes=0-10")), refusal(100));
}

#[test]
fn get_file_hides_the_error() {
    for error in [
        FilesError::AbsolutePath,
        FilesError::NotAFile,
        FilesError::Open,
        FilesError::Metadata,
    ] {
        assert_eq!(get_file(Err(error), None), fallback());
        assert_eq!(get_file(Err(error), Some(b"bytes=0-")), fallback());
    }
}

#[test]
fn absolute_address_gets_not_found() {
    let files = SimpleFiles::new("./root");
    let lookup = files.get_payload("/etc/passwd", FileProbe::Opened { size: 2000 });
    assert_eq!(get_file(lookup, None), fallback());
    let probe = DirProbe::Items(vec![DirItem::RegularFile("passwd".to_string())]);
    assert_eq!(get_dir(files.get_listing("/etc", probe)), fallback());
}

#[test]
fn regular_file_under_the_root_is_served_with_its_size() {
    let files = SimpleFiles::new("./root");
    let lookup = files.get_payload("notes/readme.txt", FileProbe::Opened { size: 77 });
    let response = get_file(lookup, None);
    assert_eq!(response.status, 200);
    assert_eq!(
        response.headers,
        vec![
            (HeaderName::ContentType, "text/plain".to_string()),
            (HeaderName::ContentLength, "77".to_string()),
        ]
    );
    assert_eq!(response.body, Body::WholeFile);
}

#[test]
fn get_dir_carries_the_listing() {
    let listing = || Listing {
        dirs: vec!["a".to_string(), "b".to_string()],
        files: vec!["c.txt".to_string()],
    };
    let response = get_dir(Ok(listing()));
    assert_eq!(response.status, 200);
    assert!(response.headers.is_empty());
    assert_eq!(response.body, Body::Listing(listing()));
}

#[test]
fn get_dir_hides_the_error() {
    for error in [
        FilesError::AbsolutePath,
        FilesError::NotADirectory,
        FilesError::ReadDir,
        FilesError::NextEntry,
        FilesError::FileType,
    ] {
        assert_eq!(get_dir(Err(error)), fallback());
    }
}

#[test]
fn root_listing_is_that_of_the_empty_address() {
    let files = SimpleFiles::new("./root");
    assert_eq!(ROOT_ADDRESS, "");
    assert_eq!(files.resolve(ROOT_ADDRESS), Ok("./root/".to_string()));
    let probe = DirProbe::Items(vec![
        DirItem::Directory("a".to_string()),
        DirItem::Directory("b".to_string()),
        DirItem::RegularFile("c.txt".to_string()),
    ]);
    let response = get_dir(files.get_listing(ROOT_ADDRESS, probe));
    match response.body {
        Body::Listing(listing) => {
            assert_eq!(listing.dirs, vec!["a".to_string(), "b".to_string()]);
            assert_eq!(listing.files, vec!["c.txt".to_string()]);
        }
        other => panic!("no listing: {:?}", other),
    }
}

#[test]
fn listener_binds_every_interface() {
    assert_eq!(bind_address(1337), "0.0.0.0:1337");
    assert_eq!(bind_address(0), "0.0.0.0:0");
    assert_eq!(bind_address(65535), "0.0.0.0:65535");
}
