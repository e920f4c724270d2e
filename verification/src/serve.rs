//! The serving side: what is on disk under the root, the responses made of
//! it, and the sessions they travel in.

pub mod files;
pub mod httpd;
pub mod routes;
pub mod tls;
pub mod utils;

pub use files::SimpleFiles;
pub use tls::Config as TlsConfig;
pub use tls::Protocol as TlsProtocol;
