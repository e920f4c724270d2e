//! The sessions of the fetching side: which trust model the client
//! connects under and what its session is made of.

use vstd::prelude::*;
use vstd::string::*;

verus! {

/// The trust model of a connection.
#[derive(Debug, Clone, Copy, PartialEq, Eq, Structural)]
pub enum Protocol {
    /// Plain HTTP.
    NoTLS,
    /// TLS; the server is checked against the root certificates.
    TLS,
    /// TLS in which the client presents an attestation token in place of a
    /// certificate.
    RaTLS,
}

impl Default for Protocol {
    fn default() -> (protocol: Self)
        ensures
            protocol == Protocol::RaTLS,
    {
        Protocol::RaTLS
    }
}

/// What a client is started with.
#[derive(Debug)]
pub struct Config {
    /// Path of the root certificates, in PEM.
    pub root_ca: String,
    /// The trust model.
    pub tls: Protocol,
    /// Path of a file that holds the attestation token; without one the
    /// token comes from the platform.
    pub token: Option<String>,
}

/// Where the client's attestation token comes from.
#[derive(Debug, PartialEq, Eq)]
pub enum TokenSource {
    /// The file at this path.
    File(String),
    /// The platform's attestation interface.
    Platform,
}

/// The mathematical value of a [`TokenSource`].
pub enum TokenSourceView {
    File(Seq<char>),
    Platform,
}

impl View for TokenSource {
    type V = TokenSourceView;

    open spec fn view(&self) -> TokenSourceView {
        match self {
            TokenSource::File(path) => TokenSourceView::File(path@),
            TokenSource::Platform => TokenSourceView::Platform,
        }
    }
}

/// What the session of a client is made of.
#[derive(Debug, PartialEq, Eq)]
pub enum ClientSession {
    /// No TLS.
    Plain,
    /// Standard TLS: the server is checked against the certificates at
    /// `root_ca`, and the client presents nothing.
    Tls { root_ca: String },
    /// Attested TLS: as standard TLS, and the client presents the token of
    /// `token` as its certificate.
    RaTls { root_ca: String, token: TokenSource },
}

/// The mathematical value of a [`ClientSession`].
pub enum ClientSessionView {
    Plain,
    Tls { root_ca: Seq<char> },
    RaTls { root_ca: Seq<char>, token: TokenSourceView },
}

impl View for ClientSession {
    type V = ClientSessionView;

    open spec fn view(&self) -> ClientSessionView {
        match self {
            ClientSession::Plain => ClientSessionView::Plain,
            ClientSession::Tls { root_ca } => ClientSessionView::Tls { root_ca: root_ca@ },
            ClientSession::RaTls { root_ca, token } => ClientSessionView::RaTls {
                root_ca: root_ca@,
                token: token@,
            },
        }
    }
}

impl Config {
    /// Where the attestation token comes from: the configured file, or the
    /// platform where none is configured.
    pub open spec fn spec_token_source(&self) -> TokenSourceView {
        match self.token {
            Some(path) => TokenSourceView::File(path@),
            None => TokenSourceView::Platform,
        }
    }

    /// The session that this configuration asks for.
    pub open spec fn session(&self) -> ClientSessionView {
        match self.tls {
            Protocol::NoTLS => ClientSessionView::Plain,
            Protocol::TLS => ClientSessionView::Tls { root_ca: self.root_ca@ },
            Protocol::RaTLS => ClientSessionView::RaTls {
                root_ca: self.root_ca@,
                token: self.spec_token_source(),
            },
        }
    }

    /// Where the attestation token comes from.
    pub fn token_source(&self) -> (source: TokenSource)
        ensures
            source@ == self.spec_token_source(),
    {
        match &self.token {
            Some(path) => TokenSource::File(path.clone()),
            None => TokenSource::Platform,
        }
    }
}

/// The session of a client under standard TLS.
pub fn tls_client_config(config: &Config) -> (session: ClientSession)
    ensures
        session@ == (ClientSessionView::Tls { root_ca: config.root_ca@ }),
{
    ClientSession::Tls { root_ca: config.root_ca.clone() }
}

/// The session of a client under attested TLS.
pub fn ratls_client_config(config: &Config) -> (session: ClientSession)
    ensures
        session@ == (ClientSessionView::RaTls {
            root_ca: config.root_ca@,
            token: config.spec_token_source(),
        }),
{
    ClientSession::RaTls { root_ca: config.root_ca.clone(), token: config.token_source() }
}

} // verus!
