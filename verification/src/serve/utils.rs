//! Certificates and private keys out of PEM text.

use vstd::prelude::*;
use vstd::string::*;

verus! {

/// `std::io::Error`, in which `rustls_pemfile` reports what is wrong with
/// PEM text. It is carried from the reader to the caller and never looked
/// into.
#[verifier::external_type_specification]
#[verifier::external_body]
pub struct ExIoError(std::io::Error);

/// Why a certificate chain or a private key could not be had from PEM text.
#[derive(Debug, Clone, Copy, PartialEq, Eq, Structural)]
pub enum PemError {
    /// The text is not well-formed PEM.
    Malformed,
    /// The text holds no PKCS8-encoded private key.
    NoPrivateKey,
    /// The text holds more than one PKCS8-encoded private key.
    MoreThanOnePrivateKey,
}

impl PemError {
    /// The text that describes the error for the file at `path`.
    pub open spec fn spec_message(&self, path: Seq<char>) -> Seq<char> {
        match self {
            PemError::Malformed => "Malformed PEM in "@ + path,
            PemError::NoPrivateKey => "No PKCS8-encoded private key found in "@ + path,
            PemError::MoreThanOnePrivateKey => "More than one PKCS8-encoded private key found in "@
                + path,
        }
    }

    /// Describes the error for the file at `path`.
    pub fn message(&self, path: &str) -> (text: String)
        ensures
            text@ == self.spec_message(path@),
    {
        let mut text = match self {
            PemError::Malformed => String::from_str("Malformed PEM in "),
            PemError::NoPrivateKey => String::from_str("No PKCS8-encoded private key found in "),
            PemError::MoreThanOnePrivateKey => String::from_str(
                "More than one PKCS8-encoded private key found in ",
            ),
        };
        text.append(path);
        text
    }
}

/// The certificates that `rustls_pemfile` finds in PEM text, each in DER and
/// in the order of the text; `None` where it reports an error.
pub uninterp spec fn pem_certificates(pem: Seq<u8>) -> Option<Seq<Seq<u8>>>;

/// The PKCS8-encoded private keys that `rustls_pemfile` finds in PEM text,
/// each in DER and in the order of the text; `None` where it reports an
/// error.
pub uninterp spec fn pem_pkcs8_keys(pem: Seq<u8>) -> Option<Seq<Seq<u8>>>;

/// Runs `rustls_pemfile::certs` over `pem` and collects what it yields: the
/// DER bytes of each certificate, or the first error. It reads nothing but
/// `pem`, so the result is the one that `pem_certificates` names; nothing
/// more is claimed of it.
#[verifier::external_body]
fn certs(pem: &[u8]) -> (found: Result<Vec<Vec<u8>>, std::io::Error>)
    ensures
        match found {
            Ok(certs) => pem_certificates(pem@) == Some(certs.deep_view()),
            Err(_) => pem_certificates(pem@) is None,
        },
{
    let mut reader = pem;
    rustls_pemfile::certs(&mut reader).map(|cert| cert.map(|der| der.to_vec())).collect()
}

/// Runs `rustls_pemfile::pkcs8_private_keys` over `pem` and collects what it
/// yields: the DER bytes of each key, or the first error. It reads nothing
/// but `pem`, so the result is the one that `pem_pkcs8_keys` names; nothing
/// more is claimed of it.
#[verifier::external_body]
fn pkcs8_private_keys(pem: &[u8]) -> (found: Result<Vec<Vec<u8>>, std::io::Error>)
    ensures
        match found {
            Ok(keys) => pem_pkcs8_keys(pem@) == Some(keys.deep_view()),
            Err(_) => pem_pkcs8_keys(pem@) is None,
        },
{
    let mut reader = pem;
    rustls_pemfile::pkcs8_private_keys(&mut reader).map(
        |key| key.map(|der| der.secret_pkcs8_der().to_vec()),
    ).collect()
}

/// The certificate chain in the PEM text `pem`.
pub open spec fn certificates_in(pem: Seq<u8>) -> Result<Seq<Seq<u8>>, PemError> {
    match pem_certificates(pem) {
        Some(certs) => Ok(certs),
        None => Err(PemError::Malformed),
    }
}

/// The one key among `keys`.
pub open spec fn single_key(keys: Seq<Seq<u8>>) -> Result<Seq<u8>, PemError> {
    if keys.len() == 0 {
        Err(PemError::NoPrivateKey)
    } else if keys.len() == 1 {
        Ok(keys[0])
    } else {
        Err(PemError::MoreThanOnePrivateKey)
    }
}

/// The private key in the PEM text `pem`.
pub open spec fn private_key_in(pem: Seq<u8>) -> Result<Seq<u8>, PemError> {
    match pem_pkcs8_keys(pem) {
        Some(keys) => single_key(keys),
        None => Err(PemError::Malformed),
    }
}

/// Reads the certificate chain of a PEM file from its contents. Sections
/// that are no certificates are passed over.
pub fn load_certificates_from_pem(pem: &[u8]) -> (chain: Result<Vec<Vec<u8>>, PemError>)
    ensures
        match chain {
            Ok(certs) => certificates_in(pem@) == Ok::<Seq<Seq<u8>>, PemError>(certs.deep_view()),
            Err(e) => certificates_in(pem@) == Err::<Seq<Seq<u8>>, PemError>(e),
        },
{
    match certs(pem) {
        Ok(certs) => Ok(certs),
        Err(_) => Err(PemError::Malformed),
    }
}

/// Picks the private key out of the keys that were found: there has to be
/// exactly one.
pub fn only_key(keys: Vec<Vec<u8>>) -> (key: Result<Vec<u8>, PemError>)
    ensures
        match key {
            Ok(der) => single_key(keys.deep_view()) == Ok::<Seq<u8>, PemError>(der@),
            Err(e) => single_key(keys.deep_view()) == Err::<Seq<u8>, PemError>(e),
        },
{
    let mut keys = keys;
    let ghost all = keys.deep_view();
    if keys.len() == 0 {
        Err(PemError::NoPrivateKey)
    } else if keys.len() == 1 {
        let key = keys.remove(0);
        assert(all[0] == key@);
        Ok(key)
    } else {
        Err(PemError::MoreThanOnePrivateKey)
    }
}

/// Reads the private key of a PEM file from its contents: the one
/// PKCS8-encoded key in it. A file without such a key, or with several, is
/// refused.
pub fn load_private_key_from_file(pem: &[u8]) -> (key: Result<Vec<u8>, PemError>)
    ensures
        match key {
            Ok(der) => private_key_in(pem@) == Ok::<Seq<u8>, PemError>(der@),
            Err(e) => private_key_in(pem@) == Err::<Seq<u8>, PemError>(e),
        },
{
    match pkcs8_private_keys(pem) {
        Ok(keys) => only_key(keys),
        Err(_) => Err(PemError::Malformed),
    }
}

} // verus!
