//! Certificates and keys out of PEM text.

use vstd::prelude::*;
use crate::error::TlsError;

verus! {

#[verifier::external_type_specification]
#[verifier::external_body]
pub struct ExIoError(std::io::Error);

/// What `rustls_pemfile::certs` yields for the text `pem`: the DER bodies of its
/// `CERTIFICATE` sections in order, or `None` where the reader reports an error.
pub uninterp spec fn pem_certificates(pem: Seq<u8>) -> Option<Seq<Seq<u8>>>;

/// What `rustls_pemfile::pkcs8_private_keys` yields for the text `pem`: the DER bodies
/// of its `PRIVATE KEY` sections in order, or `None` where the reader reports an error.
pub uninterp spec fn pem_pkcs8_keys(pem: Seq<u8>) -> Option<Seq<Seq<u8>>>;

/// Calls `rustls_pemfile::certs` on `pem` and collects what it yields up to the first
/// error. Trusted: the result is what [`pem_certificates`] names, nothing more is claimed.
#[verifier::external_body]
fn read_certificates(pem: &[u8]) -> (r: Result<Vec<Vec<u8>>, std::io::Error>)
    ensures
        match r {
            Ok(certs) => pem_certificates(pem@) == Some(certs.deep_view()),
            Err(_) => pem_certificates(pem@) is None,
        },
{
    let mut reader = pem;
    rustls_pemfile::certs(&mut reader).map(|item| item.map(|der| der.to_vec())).collect()
}

/// Calls `rustls_pemfile::pkcs8_private_keys` on `pem` and collects what it yields up to
/// the first error. Trusted: the result is what [`pem_pkcs8_keys`] names.
#[verifier::external_body]
fn read_pkcs8_keys(pem: &[u8]) -> (r: Result<Vec<Vec<u8>>, std::io::Error>)
    ensures
        match r {
            Ok(keys) => pem_pkcs8_keys(pem@) == Some(keys.deep_view()),
            Err(_) => pem_pkcs8_keys(pem@) is None,
        },
{
    let mut reader = pem;
    rustls_pemfile::pkcs8_private_keys(&mut reader).map(
        |item| item.map(|der| der.secret_pkcs8_der().to_vec()),
    ).collect()
}

/// The certificates of a PEM text, or `None` where it is malformed.
pub fn certificates(pem: &[u8]) -> (r: Option<Vec<Vec<u8>>>)
    ensures
        r.deep_view() == pem_certificates(pem@),
{
    match read_certificates(pem) {
        Ok(certs) => Some(certs),
        Err(_) => None,
    }
}

/// The PKCS#8 private keys of a PEM text, or `None` where it is malformed.
pub fn pkcs8_keys(pem: &[u8]) -> (r: Option<Vec<Vec<u8>>>)
    ensures
        r.deep_view() == pem_pkcs8_keys(pem@),
{
    match read_pkcs8_keys(pem) {
        Ok(keys) => Some(keys),
        Err(_) => None,
    }
}

/// A client certificate chain with the private key that belongs to it, both as DER.
#[derive(Debug, PartialEq, Eq)]
pub struct ClientIdentity {
    pub chain: Vec<Vec<u8>>,
    pub key: Vec<u8>,
}

impl View for ClientIdentity {
    type V = (Seq<Seq<u8>>, Seq<u8>);

    open spec fn view(&self) -> (Seq<Seq<u8>>, Seq<u8>) {
        (self.chain.deep_view(), self.key@)
    }
}

/// The identity that a client file gives, from the certificates and keys read out of it:
/// every certificate forms the chain and the first key is the client's.
pub open spec fn identity_from(
    certs: Option<Seq<Seq<u8>>>,
    keys: Option<Seq<Seq<u8>>>,
) -> Result<(Seq<Seq<u8>>, Seq<u8>), TlsError> {
    match (certs, keys) {
        (Some(chain), Some(found)) => if found.len() == 0 {
            Err(TlsError::MissingPrivateKey)
        } else {
            Ok((chain, found[0]))
        },
        _ => Err(TlsError::MalformedClientPem),
    }
}

/// Chooses the client identity from what was read out of the client file.
pub fn select_identity(certs: Option<Vec<Vec<u8>>>, keys: Option<Vec<Vec<u8>>>) -> (r: Result<
    ClientIdentity,
    TlsError,
>)
    ensures
        match r {
            Ok(id) => identity_from(certs.deep_view(), keys.deep_view()) == Ok::<
                (Seq<Seq<u8>>, Seq<u8>),
                TlsError,
            >(id@),
            Err(e) => identity_from(certs.deep_view(), keys.deep_view()) == Err::<
                (Seq<Seq<u8>>, Seq<u8>),
                TlsError,
            >(e),
        },
{
    let chain = match certs {
        Some(chain) => chain,
        None => {
            return Err(TlsError::MalformedClientPem);
        },
    };
    let mut found = match keys {
        Some(found) => found,
        None => {
            return Err(TlsError::MalformedClientPem);
        },
    };
    if found.len() == 0 {
        return Err(TlsError::MissingPrivateKey);
    }
    let key = found.swap_remove(0);
    assert(key.deep_view() =~= key@);
    Ok(ClientIdentity { chain, key })
}

/// Reads the client identity out of the text of a combined certificate and key file.
pub fn client_identity(pem: &[u8]) -> (r: Result<ClientIdentity, TlsError>)
    ensures
        match r {
            Ok(id) => identity_from(pem_certificates(pem@), pem_pkcs8_keys(pem@)) == Ok::<
                (Seq<Seq<u8>>, Seq<u8>),
                TlsError,
            >(id@),
            Err(e) => identity_from(pem_certificates(pem@), pem_pkcs8_keys(pem@)) == Err::<
                (Seq<Seq<u8>>, Seq<u8>),
                TlsError,
            >(e),
        },
{
    let certs = certificates(pem);
    let keys = pkcs8_keys(pem);
    select_identity(certs, keys)
}

} // verus!
