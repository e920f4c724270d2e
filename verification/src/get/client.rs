//! The client: where its requests go and what it accepts as an answer.
//!
//! Sending the request is the caller's part. The caller hands the answer
//! back as a [`Reply`], and [`Client::get_file`] says what it is worth.

use crate::get::tls::{
    ratls_client_config, tls_client_config, ClientSession, ClientSessionView, Config, Protocol,
};
use crate::get::utils::{content_length, content_type, header_number_of, header_text_of, Headers};
use crate::text::{append_decimal, decimal};
use vstd::prelude::*;
use vstd::string::*;

verus! {

/// What came back for a request.
#[derive(Debug, PartialEq, Eq)]
pub enum Reply {
    /// The request failed before any response came, for the reason given.
    Failed(String),
    /// A response came, with this status and these headers.
    Response { status: u16, headers: Headers },
}

/// Why a request gave nothing to keep.
#[derive(Debug, PartialEq, Eq)]
pub enum ClientError {
    /// The request failed before any response came.
    RequestFailed(String),
    /// The response carries a status outside 200 to 299.
    Unsuccessful(u16),
    /// The response does not declare a media type.
    NoContentType,
    /// The response does not declare a length.
    NoContentLength,
}

/// The mathematical value of a [`ClientError`].
pub enum ClientErrorView {
    RequestFailed(Seq<char>),
    Unsuccessful(u16),
    NoContentType,
    NoContentLength,
}

impl View for ClientError {
    type V = ClientErrorView;

    open spec fn view(&self) -> ClientErrorView {
        match self {
            ClientError::RequestFailed(cause) => ClientErrorView::RequestFailed(cause@),
            ClientError::Unsuccessful(status) => ClientErrorView::Unsuccessful(*status),
            ClientError::NoContentType => ClientErrorView::NoContentType,
            ClientError::NoContentLength => ClientErrorView::NoContentLength,
        }
    }
}

impl ClientError {
    /// The text that describes the error.
    pub open spec fn spec_message(&self) -> Seq<char> {
        match self {
            ClientError::RequestFailed(cause) => "Get file request failed: "@ + cause@,
            ClientError::Unsuccessful(status) => "Response not successful: "@ + decimal(
                *status as nat,
            ),
            ClientError::NoContentType => "Response doesn't contain Content-type"@,
            ClientError::NoContentLength => "Response doesn't contain Content-length"@,
        }
    }

    /// Describes the error; a status that was refused is named in it.
    pub fn message(&self) -> (text: String)
        ensures
            text@ == self.spec_message(),
    {
        match self {
            ClientError::RequestFailed(cause) => {
                let mut text = String::from_str("Get file request failed: ");
                text.append(cause.as_str());
                text
            },
            ClientError::Unsuccessful(status) => {
                let mut text = String::from_str("Response not successful: ");
                append_decimal(&mut text, *status as u64);
                text
            },
            ClientError::NoContentType => String::from_str("Response doesn't contain Content-type"),
            ClientError::NoContentLength => String::from_str(
                "Response doesn't contain Content-length",
            ),
        }
    }
}

/// Whether `status` stands for success: 200 to 299.
pub open spec fn is_success(status: u16) -> bool {
    200 <= status < 300
}

/// What a reply is worth: the declared media type and length of a
/// successful response that declares both, or the first thing that is wrong
/// with it.
pub open spec fn accepted(reply: Reply) -> Result<(Seq<char>, usize), ClientErrorView> {
    match reply {
        Reply::Failed(cause) => Err(ClientErrorView::RequestFailed(cause@)),
        Reply::Response { status, headers } => if !is_success(status) {
            Err(ClientErrorView::Unsuccessful(status))
        } else {
            match header_text_of(headers.content_type) {
                None => Err(ClientErrorView::NoContentType),
                Some(media_type) => match header_number_of(headers.content_length) {
                    None => Err(ClientErrorView::NoContentLength),
                    Some(length) => Ok((media_type, length)),
                },
            }
        },
    }
}

/// A client for one trust model.
#[derive(Debug)]
pub struct Client {
    protocol: &'static str,
    session: ClientSession,
}

impl Client {
    /// What the client's addresses are prefixed with.
    pub closed spec fn scheme(&self) -> Seq<char> {
        self.protocol@
    }

    /// What the client's session is made of.
    pub closed spec fn session_view(&self) -> ClientSessionView {
        self.session@
    }

    /// The address that a request for `address` goes to.
    pub open spec fn spec_url(&self, address: Seq<char>) -> Seq<char> {
        self.scheme() + address
    }

    /// The client for `config`: it speaks `http://` without TLS and
    /// `https://` with it, over the session that the trust model asks for.
    pub fn from_config(config: &Config) -> (client: Self)
        ensures
            client.scheme() == match config.tls {
                Protocol::NoTLS => "http://"@,
                Protocol::TLS => "https://"@,
                Protocol::RaTLS => "https://"@,
            },
            client.session_view() == config.session(),
    {
        let protocol = match config.tls {
            Protocol::NoTLS => "http://",
            Protocol::TLS => "https://",
            Protocol::RaTLS => "https://",
        };
        let session = match config.tls {
            Protocol::NoTLS => ClientSession::Plain,
            Protocol::TLS => tls_client_config(config),
            Protocol::RaTLS => ratls_client_config(config),
        };
        Self { protocol, session }
    }

    /// What the client's session is made of.
    pub fn session(&self) -> (session: &ClientSession)
        ensures
            session@ == self.session_view(),
    {
        &self.session
    }

    /// The address to request for `address`, which names the host and the
    /// path without a scheme.
    pub fn url(&self, address: &str) -> (url: String)
        ensures
            url@ == self.spec_url(address@),
    {
        let mut url = String::from_str(self.protocol);
        url.append(address);
        url
    }

    /// Judges the reply to a request for a file. A response is accepted
    /// where its status is a success and it declares both its media type
    /// and its length; what it declares is returned. A missing declaration
    /// is an error: nothing is assumed in its place.
    pub fn get_file(&self, reply: &Reply) -> (outcome: Result<(String, usize), ClientError>)
        ensures
            match outcome {
                Ok((media_type, length)) => accepted(*reply) == Ok::<
                    (Seq<char>, usize),
                    ClientErrorView,
                >((media_type@, length)),
                Err(e) => accepted(*reply) == Err::<(Seq<char>, usize), ClientErrorView>(e@),
            },
    {
        match reply {
            Reply::Failed(cause) => Err(ClientError::RequestFailed(cause.clone())),
            Reply::Response { status, headers } => {
                if !(200 <= *status && *status < 300) {
                    return Err(ClientError::Unsuccessful(*status));
                }
                let media_type = match content_type(headers) {
                    Some(media_type) => media_type,
                    None => {
                        return Err(ClientError::NoContentType);
                    },
                };
                let length = match content_length(headers) {
                    Some(length) => length,
                    None => {
                        return Err(ClientError::NoContentLength);
                    },
                };
                Ok((media_type, length))
            },
        }
    }
}

} // verus!
