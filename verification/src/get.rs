//! The fetching side: the session a client opens, the one request it makes,
//! and what it keeps of the answer.

pub mod client;
pub mod download;
pub mod tls;
pub mod utils;

pub use client::Client;
pub use tls::Config as TlsConfig;
pub use tls::Protocol as TlsProtocol;
