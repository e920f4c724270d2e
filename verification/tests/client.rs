use ratls_transfer::get::client::{Client, ClientError, Reply};
use ratls_transfer::get::tls::{
    ratls_client_config, tls_client_config, ClientSession, Config, Protocol, TokenSource,
};
use ratls_transfer::get::utils::{content_length, content_type, Headers};

fn config(tls: Protocol, token: Option<&str>) -> Config {
    Config {
        root_ca: "./certs/root-ca.crt".to_string(),
        tls,
        token: token.map(|path| path.to_string()),
    }
}

fn headers(content_type: Option<&[u8]>, content_length: Option<&[u8]>) -> Headers {
    Headers {
        content_type: content_type.map(|value| value.to_vec()),
        content_length: content_length.map(|value| value.to_vec()),
    }
}

fn response(status: u16, content_type: Option<&[u8]>, content_length: Option<&[u8]>) -> Reply {
    Reply::Response { status, headers: headers(content_type, content_length) }
}

#[test]
fn client_protocol_defaults_to_attested_tls() {
    assert_eq!(Protocol::default(), Protocol::RaTLS);
}

#[test]
fn plain_client_speaks_http() {
    let client = Client::from_config(&config(Protocol::NoTLS, None));
    assert_eq!(client.url("localhost:1337/example.txt"), "http://localhost:1337/example.txt");
    assert_eq!(client.session(), &ClientSession::Plain);
}

#[test]
fn tls_client_speaks_https() {
    let client = Client::from_config(&config(Protocol::TLS, Some("token.bin")));
    assert_eq!(client.url("localhost:1337/"), "https://localhost:1337/");
    assert_eq!(
        client.session(),
        &ClientSession::Tls { root_ca: "./certs/root-ca.crt".to_string() }
    );
}

#[test]
fn attested_client_speaks_https_with_a_token() {
    let client = Client::from_config(&config(Protocol::RaTLS, Some("token.bin")));
    assert_eq!(client.url("host/a"), "https://host/a");
    assert_eq!(
        client.session(),
        &ClientSession::RaTls {
            root_ca: "./certs/root-ca.crt".to_string(),
            token: TokenSource::File("token.bin".to_string()),
        }
    );
}

#[test]
fn token_comes_from_the_platform_without_a_file() {
    assert_eq!(config(Protocol::RaTLS, None).token_source(), TokenSource::Platform);
    assert_eq!(
        config(Protocol::RaTLS, Some("t")).token_source(),
        TokenSource::File("t".to_string())
    );
    assert_eq!(
        ratls_client_config(&config(Protocol::RaTLS, None)),
        ClientSession::RaTls {
            root_ca: "./certs/root-ca.crt".to_string(),
            token: TokenSource::Platform,
        }
    );
    assert_eq!(
        tls_client_config(&config(Protocol::TLS, None)),
        ClientSession::Tls { root_ca: "./certs/root-ca.crt".to_string() }
    );
}

#[test]
fn url_of_an_empty_address_is_the_scheme() {
    let client = Client::from_config(&config(Protocol::NoTLS, None));
    assert_eq!(client.url(""), "http://");
}

#[test]
fn content_type_is_read_as_text() {
    assert_eq!(content_type(&headers(Some(b"text/plain"), None)), Some("text/plain".to_string()));
    assert_eq!(
        content_type(&headers(Some(b"text/html; charset=utf-8"), None)),
        Some("text/html; charset=utf-8".to_string())
    );
    assert_eq!(content_type(&headers(Some(b""), None)), Some(String::new()));
    assert_eq!(content_type(&headers(Some(b"a\tb"), None)), Some("a\tb".to_string()));
    assert_eq!(content_type(&headers(Some(b" ~"), None)), Some(" ~".to_string()));
}

#[test]
fn content_type_that_is_missing_or_unreadable_is_none() {
    assert_eq!(content_type(&headers(None, Some(b"10"))), None);
    assert_eq!(content_type(&headers(Some(b"text/\xffplain"), None)), None);
    assert_eq!(content_type(&headers(Some(b"text\x7f"), None)), None);
    assert_eq!(content_type(&headers(Some(b"text\nplain"), None)), None);
    assert_eq!(content_type(&headers(Some(b"\x1f"), None)), None);
    assert_eq!(content_type(&headers(Some(b"\x80"), None)), None);
}

#[test]
fn content_length_is_read_as_a_number() {
    assert_eq!(content_length(&headers(None, Some(b"100"))), Some(100));
    assert_eq!(content_length(&headers(None, Some(b"0"))), Some(0));
    assert_eq!(content_length(&headers(None, Some(b"+7"))), Some(7));
}

#[test]
fn content_length_that_is_missing_or_no_number_is_none() {
    assert_eq!(content_length(&headers(Some(b"text/plain"), None)), None);
    assert_eq!(content_length(&headers(None, Some(b""))), None);
    assert_eq!(content_length(&headers(None, Some(b"abc"))), None);
    assert_eq!(content_length(&headers(None, Some(b"10 "))), None);
    assert_eq!(content_length(&headers(None, Some(b"-1"))), None);
    assert_eq!(content_length(&headers(None, Some(b"1\xff"))), None);
    assert_eq!(content_length(&headers(None, Some(b"99999999999999999999999999"))), None);
}

#[test]
fn successful_response_gives_type_and_length() {
    let client = Client::from_config(&config(Protocol::NoTLS, None));
    assert_eq!(
        client.get_file(&response(200, Some(b"text/plain"), Some(b"100"))),
        Ok(("text/plain".to_string(), 100))
    );
    assert_eq!(
        client.get_file(&response(206, Some(b"application/octet-stream"), Some(b"95"))),
        Ok(("application/octet-stream".to_string(), 95))
    );
    assert_eq!(
        client.get_file(&response(299, Some(b"a/b"), Some(b"0"))),
        Ok(("a/b".to_string(), 0))
    );
}

#[test]
fn unsuccessful_status_is_an_error_that_names_it() {
    let client = Client::from_config(&config(Protocol::TLS, None));
    for status in [100u16, 199, 300, 301, 404, 416, 500] {
        let outcome = client.get_file(&response(status, Some(b"text/plain"), Some(b"10")));
        assert_eq!(outcome, Err(ClientError::Unsuccessful(status)));
    }
    assert_eq!(ClientError::Unsuccessful(404).message(), "Response not successful: 404");
    assert_eq!(ClientError::Unsuccessful(416).message(), "Response not successful: 416");
}

#[test]
fn response_without_content_type_is_an_error() {
    let client = Client::from_config(&config(Protocol::NoTLS, None));
    assert_eq!(
        client.get_file(&response(200, None, Some(b"100"))),
        Err(ClientError::NoContentType)
    );
    assert_eq!(client.get_file(&response(200, None, None)), Err(ClientError::NoContentType));
    assert_eq!(
        client.get_file(&response(200, Some(b"\xff"), Some(b"100"))),
        Err(ClientError::NoContentType)
    );
    assert_eq!(ClientError::NoContentType.message(), "Response doesn't contain Content-type");
}

#[test]
fn response_without_content_length_is_an_error() {
    let client = Client::from_config(&config(Protocol::NoTLS, None));
    assert_eq!(
        client.get_file(&response(200, Some(b"text/plain"), None)),
        Err(ClientError::NoContentLength)
    );
    assert_eq!(
        client.get_file(&response(200, Some(b"text/plain"), Some(b"many"))),
        Err(ClientError::NoContentLength)
    );
    assert_eq!(ClientError::NoContentLength.message(), "Response doesn't contain Content-length");
}

#[test]
fn failed_request_is_an_error_that_keeps_the_reason() {
    let client = Client::from_config(&config(Protocol::RaTLS, None));
    let outcome = client.get_file(&Reply::Failed("connection refused".to_string()));
    assert_eq!(outcome, Err(ClientError::RequestFailed("connection refused".to_string())));
    assert_eq!(
        outcome.unwrap_err().message(),
        "Get file request failed: connection refused"
    );
}

#[test]
fn status_is_judged_before_the_headers() {
    let client = Client::from_config(&config(Protocol::NoTLS, None));
    assert_eq!(client.get_file(&response(404, None, None)), Err(ClientError::Unsuccessful(404)));
}
