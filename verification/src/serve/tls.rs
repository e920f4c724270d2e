//! The sessions of the serving side: which trust model a listener runs
//! under, what its configuration is made of, and what the acceptor does
//! with each connection.
//!
//! The handshake and the sockets are the caller's. The functions of this
//! module say what to build and what to do next; the caller does it and
//! reports back what happened.

use crate::serve::utils::{
    certificates_in, load_certificates_from_pem, load_private_key_from_file, private_key_in,
    PemError,
};
use vstd::prelude::*;
use vstd::string::*;

verus! {

/// The trust model of a listener.
#[derive(Debug, Clone, Copy, PartialEq, Eq, Structural)]
pub enum Protocol {
    /// Plain HTTP.
    NoTLS,
    /// TLS with a server certificate; clients are not authenticated.
    TLS,
    /// TLS in which the client proves its platform's integrity with an
    /// attestation token in place of a certificate.
    RaTLS,
}

impl Default for Protocol {
    fn default() -> (protocol: Self)
        ensures
            protocol == Protocol::NoTLS,
    {
        Protocol::NoTLS
    }
}

/// What a listener is started with.
#[derive(Debug)]
pub struct Config {
    /// Path of the server's certificate chain, in PEM.
    pub cert: String,
    /// Path of the server's private key, PKCS8 in PEM.
    pub key: String,
    /// The trust model.
    pub tls: Protocol,
    /// The port to listen on.
    pub port: u16,
    /// Attested mode: address of the remote verification service.
    pub veraison_url: String,
    /// Attested mode: path of the verification service's public key.
    pub veraison_pubkey: String,
    /// Attested mode: path of the document of reference measurements.
    pub reference_json: String,
}

/// What the server presents in a handshake: its certificate chain and its
/// private key, in DER.
#[derive(Debug, PartialEq, Eq)]
pub struct Identity {
    pub certs: Vec<Vec<u8>>,
    pub priv_key: Vec<u8>,
}

/// The mathematical value of an [`Identity`].
pub struct IdentityView {
    pub certs: Seq<Seq<u8>>,
    pub priv_key: Seq<u8>,
}

impl View for Identity {
    type V = IdentityView;

    open spec fn view(&self) -> IdentityView {
        IdentityView { certs: self.certs.deep_view(), priv_key: self.priv_key@ }
    }
}

/// What a session configuration asks of the client.
#[derive(Debug, Clone, Copy, PartialEq, Eq, Structural)]
pub enum ClientAuth {
    /// No client certificate is asked for.
    NoClientAuth,
    /// The client has to present an attestation token as its certificate,
    /// and the verifier chain has to accept it.
    AttestationToken,
}

/// Where the session configuration of a handshake comes from.
#[derive(Debug, Clone, Copy, PartialEq, Eq, Structural)]
pub enum SessionUse {
    /// The configuration that was built at startup, shared by all
    /// handshakes.
    Shared,
    /// A configuration built for this connection alone.
    Rebuilt,
}

/// The session configuration of one handshake, as the TLS provider is to
/// assemble it.
#[derive(Debug, PartialEq, Eq)]
pub struct SessionConfig<'a> {
    /// The certificate chain and key that the server presents.
    pub identity: &'a Identity,
    /// What is asked of the client.
    pub client_auth: ClientAuth,
    /// Whether the assembled configuration is shared or built for this
    /// handshake alone.
    pub source: SessionUse,
}

/// The configuration of the sessions of a listener, in one of two shapes.
#[derive(Debug, PartialEq, Eq)]
pub enum TLSConfig {
    /// Standard TLS.
    Tls(Identity),
    /// Attested TLS. The verifier chain that goes with it is the caller's.
    RaTls(Identity),
}

/// The mathematical value of a [`TLSConfig`].
pub enum TLSConfigView {
    Tls(IdentityView),
    RaTls(IdentityView),
}

impl View for TLSConfig {
    type V = TLSConfigView;

    open spec fn view(&self) -> TLSConfigView {
        match self {
            TLSConfig::Tls(identity) => TLSConfigView::Tls(identity@),
            TLSConfig::RaTls(identity) => TLSConfigView::RaTls(identity@),
        }
    }
}

impl TLSConfig {
    /// What this configuration asks of the client.
    pub open spec fn spec_client_auth(&self) -> ClientAuth {
        match self {
            TLSConfig::Tls(_) => ClientAuth::NoClientAuth,
            TLSConfig::RaTls(_) => ClientAuth::AttestationToken,
        }
    }

    /// Where the configuration of one handshake comes from.
    pub open spec fn spec_session_use(&self) -> SessionUse {
        match self {
            TLSConfig::Tls(_) => SessionUse::Shared,
            TLSConfig::RaTls(_) => SessionUse::Rebuilt,
        }
    }

    /// The certificate chain and key that the server presents.
    pub open spec fn spec_identity(&self) -> IdentityView {
        match self {
            TLSConfig::Tls(own) => own@,
            TLSConfig::RaTls(own) => own@,
        }
    }

    /// Describes the session configuration of the next handshake: the
    /// identity that the server presents, what is asked of the client, and
    /// where the configuration comes from. Under standard TLS it is built
    /// once and shared, and no client certificate is asked for. Under
    /// attested TLS it is built anew for every accepted connection, and the
    /// client has to present an attestation token.
    pub fn get_rustls_config(&self) -> (session: SessionConfig<'_>)
        ensures
            session.identity@ == self.spec_identity(),
            session.client_auth == self.spec_client_auth(),
            session.source == self.spec_session_use(),
    {
        match self {
            TLSConfig::Tls(identity) => SessionConfig {
                identity,
                client_auth: ClientAuth::NoClientAuth,
                source: SessionUse::Shared,
            },
            TLSConfig::RaTls(identity) => SessionConfig {
                identity,
                client_auth: ClientAuth::AttestationToken,
                source: SessionUse::Rebuilt,
            },
        }
    }
}

/// Why the server's identity could not be had, and from which file.
#[derive(Debug, Clone, Copy, PartialEq, Eq, Structural)]
pub enum IdentityError {
    /// The certificate file is bad.
    Certificates(PemError),
    /// The key file is bad.
    PrivateKey(PemError),
}

impl IdentityError {
    /// The text that describes the error, for the files that `config` names.
    pub open spec fn spec_message(&self, config: &Config) -> Seq<char> {
        match self {
            IdentityError::Certificates(e) => e.spec_message(config.cert@),
            IdentityError::PrivateKey(e) => e.spec_message(config.key@),
        }
    }

    /// Describes the error, naming the file of `config` that is bad.
    pub fn message(&self, config: &Config) -> (text: String)
        ensures
            text@ == self.spec_message(config),
    {
        match self {
            IdentityError::Certificates(e) => e.message(config.cert.as_str()),
            IdentityError::PrivateKey(e) => e.message(config.key.as_str()),
        }
    }
}

/// The identity held in the contents of a certificate file and a key file.
/// The certificates are read first: where both files are bad, the error is
/// that of the certificates.
pub open spec fn identity_in(cert_pem: Seq<u8>, key_pem: Seq<u8>) -> Result<
    IdentityView,
    IdentityError,
> {
    match certificates_in(cert_pem) {
        Err(e) => Err(IdentityError::Certificates(e)),
        Ok(certs) => match private_key_in(key_pem) {
            Err(e) => Err(IdentityError::PrivateKey(e)),
            Ok(priv_key) => Ok(IdentityView { certs, priv_key }),
        },
    }
}

/// Reads the server's identity from the contents of its certificate file
/// and its key file.
fn load_identity(cert_pem: &[u8], key_pem: &[u8]) -> (identity: Result<Identity, IdentityError>)
    ensures
        match identity {
            Ok(own) => identity_in(cert_pem@, key_pem@) == Ok::<IdentityView, IdentityError>(own@),
            Err(e) => identity_in(cert_pem@, key_pem@) == Err::<IdentityView, IdentityError>(e),
        },
{
    let certs = match load_certificates_from_pem(cert_pem) {
        Ok(certs) => certs,
        Err(e) => {
            return Err(IdentityError::Certificates(e));
        },
    };
    let priv_key = match load_private_key_from_file(key_pem) {
        Ok(key) => key,
        Err(e) => {
            return Err(IdentityError::PrivateKey(e));
        },
    };
    Ok(Identity { certs, priv_key })
}

/// The configuration for standard TLS, from the contents of the certificate
/// file and the key file.
pub fn tls_server_config(cert_pem: &[u8], key_pem: &[u8]) -> (config: Result<
    TLSConfig,
    IdentityError,
>)
    ensures
        match config {
            Ok(c) => match identity_in(cert_pem@, key_pem@) {
                Ok(own) => c@ == TLSConfigView::Tls(own),
                Err(_) => false,
            },
            Err(e) => identity_in(cert_pem@, key_pem@) == Err::<IdentityView, IdentityError>(e),
        },
{
    match load_identity(cert_pem, key_pem) {
        Ok(identity) => Ok(TLSConfig::Tls(identity)),
        Err(e) => Err(e),
    }
}

/// The configuration for attested TLS, from the contents of the certificate
/// file and the key file. The caller builds the verifier chain before it
/// asks for this.
pub fn ratls_server_config(cert_pem: &[u8], key_pem: &[u8]) -> (config: Result<
    TLSConfig,
    IdentityError,
>)
    ensures
        match config {
            Ok(c) => match identity_in(cert_pem@, key_pem@) {
                Ok(own) => c@ == TLSConfigView::RaTls(own),
                Err(_) => false,
            },
            Err(e) => identity_in(cert_pem@, key_pem@) == Err::<IdentityView, IdentityError>(e),
        },
{
    match load_identity(cert_pem, key_pem) {
        Ok(identity) => Ok(TLSConfig::RaTls(identity)),
        Err(e) => Err(e),
    }
}

/// Where the listener stands.
#[derive(Debug, Clone, Copy, PartialEq, Eq, Structural)]
pub enum Listener {
    /// Waiting for the next connection.
    Listening,
    /// A connection was accepted and its session configuration is being
    /// provided.
    Preparing,
    /// The listener has given up: nothing more is accepted.
    Stopped,
}

/// What the caller reports to the listener.
#[derive(Debug, Clone, Copy, PartialEq, Eq, Structural)]
pub enum ListenerEvent {
    /// A connection was accepted.
    Accepted,
    /// Accepting failed on the socket.
    AcceptFailed,
    /// The session configuration for the accepted connection is there.
    SessionReady,
    /// The session configuration could not be built.
    SessionFailed,
}

/// What the listener asks of the caller.
#[derive(Debug, Clone, Copy, PartialEq, Eq, Structural)]
pub enum ListenerAction {
    /// Provide the session configuration for the accepted connection.
    Prepare(SessionUse),
    /// Start a task of its own for the connection and accept the next one.
    Spawn,
    /// End the loop with an error: the listener cannot go on.
    Stop,
    /// Nothing: the report does not fit where the listener stands.
    Ignore,
}

/// Where one accepted connection stands.
#[derive(Debug, Clone, Copy, PartialEq, Eq, Structural)]
pub enum Connection {
    /// Accepted; its task has not started.
    Accepted,
    /// The TLS handshake is under way.
    Handshaking,
    /// The handshake succeeded and HTTP is spoken.
    Serving,
    /// The handshake failed; the connection is dropped.
    HandshakeFailed,
    /// The connection was served and is over.
    Closed,
}

/// What the caller reports of a connection.
#[derive(Debug, Clone, Copy, PartialEq, Eq, Structural)]
pub enum ConnectionEvent {
    /// The task of the connection started.
    Started,
    /// The handshake succeeded.
    HandshakeDone,
    /// The handshake failed: TLS could not be negotiated, or the client's
    /// token was refused.
    HandshakeFailed,
    /// The peer closed the stream.
    PeerClosed,
    /// The stream failed while HTTP was spoken.
    StreamFailed,
}

/// What a connection's task does next.
#[derive(Debug, Clone, Copy, PartialEq, Eq, Structural)]
pub enum ConnectionAction {
    /// Perform the TLS handshake.
    Handshake,
    /// Speak HTTP over the decrypted stream until it ends.
    ServeHttp,
    /// Record the failed handshake as an error and end the task.
    ReportHandshake,
    /// Record the failed stream as a warning and end the task.
    ReportStream,
    /// End the task.
    Finish,
    /// Nothing: the report does not fit where the connection stands.
    Ignore,
}

/// The listener's next state and what it asks for, on `event`.
pub open spec fn listener_next(session: SessionUse, state: Listener, event: ListenerEvent) -> (
    Listener,
    ListenerAction,
) {
    match (state, event) {
        (Listener::Listening, ListenerEvent::Accepted) => (
            Listener::Preparing,
            ListenerAction::Prepare(session),
        ),
        (Listener::Listening, ListenerEvent::AcceptFailed) => (
            Listener::Stopped,
            ListenerAction::Stop,
        ),
        (Listener::Preparing, ListenerEvent::SessionReady) => (
            Listener::Listening,
            ListenerAction::Spawn,
        ),
        (Listener::Preparing, ListenerEvent::SessionFailed) => (
            Listener::Stopped,
            ListenerAction::Stop,
        ),
        _ => (state, ListenerAction::Ignore),
    }
}

/// A connection's next state and what its task does, on `event`.
pub open spec fn connection_next(state: Connection, event: ConnectionEvent) -> (
    Connection,
    ConnectionAction,
) {
    match (state, event) {
        (Connection::Accepted, ConnectionEvent::Started) => (
            Connection::Handshaking,
            ConnectionAction::Handshake,
        ),
        (Connection::Handshaking, ConnectionEvent::HandshakeDone) => (
            Connection::Serving,
            ConnectionAction::ServeHttp,
        ),
        (Connection::Handshaking, ConnectionEvent::HandshakeFailed) => (
            Connection::HandshakeFailed,
            ConnectionAction::ReportHandshake,
        ),
        (Connection::Serving, ConnectionEvent::PeerClosed) => (
            Connection::Closed,
            ConnectionAction::Finish,
        ),
        (Connection::Serving, ConnectionEvent::StreamFailed) => (
            Connection::Closed,
            ConnectionAction::ReportStream,
        ),
        _ => (state, ConnectionAction::Ignore),
    }
}

/// Where a connection stands after `events`, starting from `state`.
pub open spec fn connection_after(state: Connection, events: Seq<ConnectionEvent>) -> Connection
    decreases events.len(),
{
    if events.len() == 0 {
        state
    } else {
        connection_next(connection_after(state, events.drop_last()), events.last()).0
    }
}

/// Whether HTTP is served at any step of `events`, starting from `state`.
pub open spec fn serves_http(state: Connection, events: Seq<ConnectionEvent>) -> bool
    decreases events.len(),
{
    if events.len() == 0 {
        false
    } else {
        serves_http(state, events.drop_last()) || connection_next(
            connection_after(state, events.drop_last()),
            events.last(),
        ).1 == ConnectionAction::ServeHttp
    }
}

/// Moves the acceptor loop one step: from where the listener stands and
/// what the caller reports to where it stands next and what it asks for.
/// Only a failure of the socket or of the session configuration stops it.
pub fn listener_step(config: &TLSConfig, state: Listener, event: ListenerEvent) -> (next: (
    Listener,
    ListenerAction,
))
    ensures
        next == listener_next(config.spec_session_use(), state, event),
{
    match (state, event) {
        (Listener::Listening, ListenerEvent::Accepted) => (
            Listener::Preparing,
            ListenerAction::Prepare(config.get_rustls_config().source),
        ),
        (Listener::Listening, ListenerEvent::AcceptFailed) => (
            Listener::Stopped,
            ListenerAction::Stop,
        ),
        (Listener::Preparing, ListenerEvent::SessionReady) => (
            Listener::Listening,
            ListenerAction::Spawn,
        ),
        (Listener::Preparing, ListenerEvent::SessionFailed) => (
            Listener::Stopped,
            ListenerAction::Stop,
        ),
        _ => (state, ListenerAction::Ignore),
    }
}

/// Moves one connection one step: from where it stands and what the caller
/// reports to where it stands next and what its task does.
pub fn connection_step(state: Connection, event: ConnectionEvent) -> (next: (
    Connection,
    ConnectionAction,
))
    ensures
        next == connection_next(state, event),
{
    match (state, event) {
        (Connection::Accepted, ConnectionEvent::Started) => (
            Connection::Handshaking,
            ConnectionAction::Handshake,
        ),
        (Connection::Handshaking, ConnectionEvent::HandshakeDone) => (
            Connection::Serving,
            ConnectionAction::ServeHttp,
        ),
        (Connection::Handshaking, ConnectionEvent::HandshakeFailed) => (
            Connection::HandshakeFailed,
            ConnectionAction::ReportHandshake,
        ),
        (Connection::Serving, ConnectionEvent::PeerClosed) => (
            Connection::Closed,
            ConnectionAction::Finish,
        ),
        (Connection::Serving, ConnectionEvent::StreamFailed) => (
            Connection::Closed,
            ConnectionAction::ReportStream,
        ),
        _ => (state, ConnectionAction::Ignore),
    }
}

/// The listener stops on a failed accept or a failed session configuration,
/// and on nothing else.
pub proof fn law_listener_stops_on_fatal_errors_only(
    session: SessionUse,
    state: Listener,
    event: ListenerEvent,
)
    requires
        state != Listener::Stopped,
    ensures
        listener_next(session, state, event).0 == Listener::Stopped <==> (state
            == Listener::Listening && event == ListenerEvent::AcceptFailed) || (state
            == Listener::Preparing && event == ListenerEvent::SessionFailed),
{
}

/// Under attested TLS every accepted connection gets a session
/// configuration of its own; under standard TLS all share one.
pub proof fn law_attested_sessions_are_rebuilt(config: TLSConfig)
    ensures
        listener_next(
            config.spec_session_use(),
            Listener::Listening,
            ListenerEvent::Accepted,
        ).1 == ListenerAction::Prepare(
            match config {
                TLSConfig::Tls(_) => SessionUse::Shared,
                TLSConfig::RaTls(_) => SessionUse::Rebuilt,
            },
        ),
        config.spec_client_auth() == match config {
            TLSConfig::Tls(_) => ClientAuth::NoClientAuth,
            TLSConfig::RaTls(_) => ClientAuth::AttestationToken,
        },
{
}

/// HTTP is served on a connection only from the step at which its
/// handshake succeeds.
pub proof fn law_serving_follows_handshake(state: Connection, event: ConnectionEvent)
    ensures
        connection_next(state, event).1 == ConnectionAction::ServeHttp <==> state
            == Connection::Handshaking && event == ConnectionEvent::HandshakeDone,
        connection_next(state, event).0 == Connection::Serving ==> state == Connection::Serving
            || (state == Connection::Handshaking && event == ConnectionEvent::HandshakeDone),
{
}

/// A connection whose handshake fails is dropped: whatever was reported
/// before the handshake began and whatever is reported after it failed,
/// HTTP is never served on it.
pub proof fn law_failed_handshake_never_serves(
    before: Seq<ConnectionEvent>,
    after: Seq<ConnectionEvent>,
)
    requires
        connection_after(Connection::Accepted, before) == Connection::Handshaking,
    ensures
        connection_after(
            Connection::Accepted,
            before.push(ConnectionEvent::HandshakeFailed),
        ) == Connection::HandshakeFailed,
        !serves_http(
            Connection::Accepted,
            before.push(ConnectionEvent::HandshakeFailed) + after,
        ),
    decreases after.len(),
{
    let failed = before.push(ConnectionEvent::HandshakeFailed);
    assert(failed.drop_last() =~= before);
    lemma_not_served_before_handshake(before);
    if after.len() > 0 {
        law_failed_handshake_never_serves(before, after.drop_last());
        lemma_failed_stays_failed(before, after.drop_last());
        assert((failed + after).drop_last() =~= failed + after.drop_last());
    }
}

/// Until its handshake has ended, a connection has not served HTTP.
proof fn lemma_not_served_before_handshake(events: Seq<ConnectionEvent>)
    requires
        connection_after(Connection::Accepted, events) == Connection::Accepted
            || connection_after(Connection::Accepted, events) == Connection::Handshaking,
    ensures
        !serves_http(Connection::Accepted, events),
    decreases events.len(),
{
    if events.len() > 0 {
        lemma_not_served_before_handshake(events.drop_last());
    }
}

/// After a failed handshake the connection stays where it is.
proof fn lemma_failed_stays_failed(before: Seq<ConnectionEvent>, after: Seq<ConnectionEvent>)
    requires
        connection_after(Connection::Accepted, before) == Connection::Handshaking,
    ensures
        connection_after(
            Connection::Accepted,
            before.push(ConnectionEvent::HandshakeFailed) + after,
        ) == Connection::HandshakeFailed,
    decreases after.len(),
{
    let failed = before.push(ConnectionEvent::HandshakeFailed);
    assert(failed.drop_last() =~= before);
    if after.len() > 0 {
        lemma_failed_stays_failed(before, after.drop_last());
        assert((failed + after).drop_last() =~= failed + after.drop_last());
    }
}

} // verus!
