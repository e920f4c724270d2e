use ratls_transfer::get::client::{Client, ClientError, Reply};
use ratls_transfer::get::download::{
    complete, plan, receive, Completion, DownloadError, DownloadOutcome, Step, Target,
};
use ratls_transfer::get::tls::{Config, Protocol};
use ratls_transfer::get::utils::Headers;

fn client() -> Client {
    Client::from_config(&Config {
        root_ca: "./certs/root-ca.crt".to_string(),
        tls: Protocol::NoTLS,
        token: None,
    })
}

fn response(status: u16, content_type: Option<&[u8]>, content_length: Option<&[u8]>) -> Reply {
    Reply::Response {
        status,
        headers: Headers {
            content_type: content_type.map(|value| value.to_vec()),
            content_length: content_length.map(|value| value.to_vec()),
        },
    }
}

fn file(path: &str) -> Target {
    Target::File { path: path.to_string() }
}

#[test]
fn address_without_a_path_is_refused() {
    assert_eq!(plan("localhost:1337", "."), Err(DownloadError::NoPath));
    assert_eq!(plan("", "."), Err(DownloadError::NoPath));
    assert_eq!(
        DownloadError::NoPath.message(),
        "Address needs to contain a path, at least '/' after hostname"
    );
}

#[test]
fn address_that_ends_in_a_slash_asks_for_a_listing() {
    assert_eq!(plan("localhost:1337/", "."), Ok(Target::Listing));
    assert_eq!(plan("localhost:1337/dir/", "out"), Ok(Target::Listing));
    assert_eq!(plan("/", "."), Ok(Target::Listing));
}

#[test]
fn file_goes_under_the_directory_by_its_last_segment() {
    assert_eq!(plan("localhost:1337/example.txt", "."), Ok(file("./example.txt")));
    assert_eq!(plan("localhost:1337/a/b/c.bin", "out"), Ok(file("out/c.bin")));
    assert_eq!(plan("localhost:1337/example.txt", "out/"), Ok(file("out/example.txt")));
    assert_eq!(plan("localhost:1337/example.txt", ""), Ok(file("example.txt")));
    assert_eq!(plan("localhost:1337/example.txt", "/tmp"), Ok(file("/tmp/example.txt")));
}

#[test]
fn file_name_may_hold_text_outside_ascii() {
    assert_eq!(plan("hôte/données/été.txt", "là"), Ok(file("là/été.txt")));
}

#[test]
fn accepted_file_reply_is_saved_with_the_declared_length() {
    let step = receive(
        &client(),
        file("./example.txt"),
        &response(200, Some(b"text/plain"), Some(b"100")),
    );
    assert_eq!(step, Step::Save { path: "./example.txt".to_string(), declared: 100 });
}

#[test]
fn accepted_listing_reply_is_shown() {
    let step = receive(
        &client(),
        Target::Listing,
        &response(200, Some(b"application/json"), Some(b"27")),
    );
    assert_eq!(step, Step::ShowListing);
}

#[test]
fn reply_without_content_type_fails_before_any_file() {
    let reply = response(200, None, Some(b"100"));
    assert_eq!(
        receive(&client(), file("./example.txt"), &reply),
        Step::Fail(DownloadError::Request(ClientError::NoContentType))
    );
    assert_eq!(
        receive(&client(), Target::Listing, &reply),
        Step::Fail(DownloadError::Request(ClientError::NoContentType))
    );
}

#[test]
fn reply_without_content_length_fails_before_any_file() {
    let reply = response(200, Some(b"text/plain"), None);
    assert_eq!(
        receive(&client(), file("./example.txt"), &reply),
        Step::Fail(DownloadError::Request(ClientError::NoContentLength))
    );
}

#[test]
fn unsuccessful_reply_fails_with_its_status() {
    let reply = response(404, Some(b"text/plain"), Some(b"71"));
    let step = receive(&client(), file("./example.txt"), &reply);
    assert_eq!(step, Step::Fail(DownloadError::Request(ClientError::Unsuccessful(404))));
    match step {
        Step::Fail(error) => assert_eq!(error.message(), "Response not successful: 404"),
        other => panic!("no failure: {:?}", other),
    }
}

#[test]
fn failed_request_fails_the_download() {
    let step = receive(&client(), file("x"), &Reply::Failed("timed out".to_string()));
    assert_eq!(
        step,
        Step::Fail(DownloadError::Request(ClientError::RequestFailed("timed out".to_string())))
    );
}

#[test]
fn short_body_discards_the_file() {
    let completion = complete("./example.txt".to_string(), 100, 80);
    assert_eq!(
        completion,
        Completion::Discard {
            path: "./example.txt".to_string(),
            error: DownloadError::LengthMismatch { expected: 100, saved: 80 },
        }
    );
    match completion {
        Completion::Discard { error, .. } => assert_eq!(
            error.message(),
            "Number of bytes expected (100) doesn't match bytes saved (80)"
        ),
        other => panic!("kept: {:?}", other),
    }
}

#[test]
fn long_body_discards_the_file() {
    assert_eq!(
        complete("f".to_string(), 80, 100),
        Completion::Discard {
            path: "f".to_string(),
            error: DownloadError::LengthMismatch { expected: 80, saved: 100 },
        }
    );
}

#[test]
fn whole_body_keeps_the_file() {
    assert_eq!(
        complete("./example.txt".to_string(), 100, 100),
        Completion::Saved(DownloadOutcome {
            declared: 100,
            written: 100,
            path: "./example.txt".to_string(),
        })
    );
    assert_eq!(
        complete("empty".to_string(), 0, 0),
        Completion::Saved(DownloadOutcome { declared: 0, written: 0, path: "empty".to_string() })
    );
}

#[test]
fn download_of_a_file_from_plan_to_completion() {
    let client = client();
    let target = plan("localhost:1337/example.txt", "downloads").unwrap();
    assert_eq!(client.url("localhost:1337/example.txt"), "http://localhost:1337/example.txt");
    let step = receive(&client, target, &response(200, Some(b"text/plain"), Some(b"12")));
    match step {
        Step::Save { path, declared } => {
            assert_eq!(path, "downloads/example.txt");
            assert_eq!(
                complete(path, declared, 12),
                Completion::Saved(DownloadOutcome {
                    declared: 12,
                    written: 12,
                    path: "downloads/example.txt".to_string(),
                })
            );
        }
        other => panic!("not saved: {:?}", other),
    }
}
