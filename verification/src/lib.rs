//! Session and transfer rules of a file service that runs over plain HTTP,
//! TLS, or attested TLS.
//!
//! The library decides; it does not touch sockets, files or the network.
//! A caller reads and writes, tells the library what it found, and does
//! what the library answers:
//!
//! - [`serve`] holds the serving side: what a request asks for
//!   ([`serve::routes`]), which files an address names ([`serve::files`]),
//!   which response a request gets, ranges included ([`serve::httpd`]), what
//!   a session configuration is made of and how the acceptor treats each
//!   connection ([`serve::tls`]), and how certificates and keys come out of
//!   PEM text ([`serve::utils`]).
//! - [`get`] holds the fetching side: the client's session ([`get::tls`]),
//!   the address it requests and the replies it accepts ([`get::client`],
//!   [`get::utils`]), and the steps of one download ([`get::download`]).
//! - [`paths`] and [`text`] hold what both sides share: paths as text, and
//!   numbers in decimal.

pub mod get;
pub mod paths;
pub mod serve;
pub mod text;
