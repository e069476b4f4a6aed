//! Trust roots and the TLS client configuration built from them.

use vstd::prelude::*;
use rumqttc::tokio_rustls::rustls::{ClientConfig, RootCertStore};
use rustls_pki_types::{CertificateDer, PrivateKeyDer, PrivatePkcs8KeyDer};
use crate::config::{Config, ConfigView};
use crate::error::TlsError;
use crate::pem::{
    certificates, client_identity, identity_from, pem_certificates, pem_pkcs8_keys,
    ClientIdentity,
};

verus! {

#[verifier::external_type_specification]
#[verifier::external_body]
pub struct ExRootCertStore(RootCertStore);

#[verifier::external_type_specification]
#[verifier::external_body]
pub struct ExClientConfig(ClientConfig);

#[verifier::external_type_specification]
#[verifier::external_body]
pub struct ExRustlsError(rumqttc::tokio_rustls::rustls::Error);

/// A trust anchor as DER values: subject, subject public key info, name constraints.
pub type Anchor = (Seq<u8>, Seq<u8>, Option<Seq<u8>>);

/// The trust anchor that `RootCertStore::add` takes out of the certificate `der`, or
/// `None` where it refuses the certificate.
pub uninterp spec fn trust_anchor_of(der: Seq<u8>) -> Option<Anchor>;

/// The trust anchors that a `RootCertStore` holds, in the order they were added.
pub uninterp spec fn anchors_of(store: RootCertStore) -> Seq<Anchor>;

/// `RootCertStore::empty`. Trusted: the new store holds no anchor.
#[verifier::external_body]
fn empty_store() -> (store: RootCertStore)
    ensures
        anchors_of(store) == Seq::<Anchor>::empty(),
{
    RootCertStore::empty()
}

/// `RootCertStore::add` on a copy of `der`. Trusted: the call succeeds exactly where the
/// certificate yields a trust anchor, and then appends that anchor; a refused certificate
/// leaves the store as it was.
#[verifier::external_body]
fn add_root(store: &mut RootCertStore, der: &[u8]) -> (r: Result<
    (),
    rumqttc::tokio_rustls::rustls::Error,
>)
    ensures
        match trust_anchor_of(der@) {
            Some(anchor) => r is Ok && anchors_of(*final(store)) == anchors_of(*old(store)).push(
                anchor,
            ),
            None => r is Err && anchors_of(*final(store)) == anchors_of(*old(store)),
        },
{
    store.add(CertificateDer::from(der.to_vec()))
}

/// The trust anchors that a `ClientConfig` checks a server's certificate against: those
/// of the store that its verifier was built over by `with_root_certificates`.
pub uninterp spec fn config_anchors(cfg: ClientConfig) -> Seq<Anchor>;

/// The certificate chain that a `ClientConfig` presents to a server that asks for client
/// authentication, as its `client_auth_cert_resolver` resolves it; `None` where it
/// presents none.
pub uninterp spec fn config_client_chain(cfg: ClientConfig) -> Option<Seq<Seq<u8>>>;

/// `ClientConfig::builder`, `with_root_certificates` and `with_no_client_auth` in a row.
/// Trusted: the configuration verifies servers against the anchors of `roots` and
/// presents no client certificate.
#[verifier::external_body]
fn config_without_client_auth(roots: RootCertStore) -> (cfg: ClientConfig)
    ensures
        config_anchors(cfg) == anchors_of(roots),
        config_client_chain(cfg) is None,
{
    ClientConfig::builder().with_root_certificates(roots).with_no_client_auth()
}

/// `ClientConfig::builder`, `with_root_certificates` and `with_client_auth_cert` in a row,
/// on copies of the chain and of the PKCS#8 key. Trusted: a configuration that comes
/// back verifies servers against the anchors of `roots` and presents `chain`. Whether
/// the key is taken is left to the TLS library, so success is not promised.
#[verifier::external_body]
fn config_with_client_auth(roots: RootCertStore, chain: &Vec<Vec<u8>>, key: &[u8]) -> (r: Result<
    ClientConfig,
    rumqttc::tokio_rustls::rustls::Error,
>)
    ensures
        r matches Ok(cfg) ==> config_anchors(cfg) == anchors_of(roots) && config_client_chain(cfg)
            == Some(chain.deep_view()),
{
    let chain = chain.iter().map(|der| CertificateDer::from(der.clone())).collect();
    let key = PrivateKeyDer::Pkcs8(PrivatePkcs8KeyDer::from(key.to_vec()));
    ClientConfig::builder().with_root_certificates(roots).with_client_auth_cert(chain, key)
}

/// Every certificate of `certs` yields a trust anchor.
pub open spec fn all_accepted(certs: Seq<Seq<u8>>) -> bool {
    forall|i: int| 0 <= i < certs.len() ==> trust_anchor_of(#[trigger] certs[i]) is Some
}

/// The anchors of `certs`, one per certificate and in the same order.
pub open spec fn anchors_from(certs: Seq<Seq<u8>>) -> Seq<Anchor> {
    Seq::new(certs.len(), |i: int| trust_anchor_of(certs[i])->0)
}

/// The bytes read from a file, if it could be read.
pub open spec fn contents(read: Option<Vec<u8>>) -> Option<Seq<u8>> {
    match read {
        Some(bytes) => Some(bytes@),
        None => None,
    }
}

/// A store that trusts exactly `certs`, in order; one refused certificate refuses all.
pub fn trust_roots(certs: &Vec<Vec<u8>>) -> (r: Result<RootCertStore, TlsError>)
    ensures
        match r {
            Ok(store) => all_accepted(certs.deep_view()) && anchors_of(store) == anchors_from(
                certs.deep_view(),
            ),
            Err(e) => e == TlsError::RejectedCaCertificate && !all_accepted(certs.deep_view()),
        },
{
    let mut store = empty_store();
    let mut i: usize = 0;
    while i < certs.len()
        invariant
            i <= certs@.len(),
            all_accepted(certs.deep_view().take(i as int)),
            anchors_of(store) == anchors_from(certs.deep_view().take(i as int)),
        decreases certs@.len() - i,
    {
        let ghost before = anchors_of(store);
        assert(certs[i as int].deep_view() =~= certs[i as int]@);
        match add_root(&mut store, certs[i].as_slice()) {
            Ok(()) => {},
            Err(_) => {
                assert(trust_anchor_of(certs.deep_view()[i as int]) is None);
                return Err(TlsError::RejectedCaCertificate);
            },
        }
        proof {
            let done = certs.deep_view().take(i as int);
            let next = certs.deep_view().take(i as int + 1);
            assert(next =~= done.push(certs.deep_view()[i as int]));
            assert forall|k: int| 0 <= k < next.len() implies trust_anchor_of(
                #[trigger] next[k],
            ) is Some by {
                if k < i {
                    assert(next[k] == done[k]);
                }
            }
            assert(anchors_from(next) =~= anchors_from(done).push(
                trust_anchor_of(certs.deep_view()[i as int])->0,
            )) by {
                assert forall|k: int| 0 <= k < i implies anchors_from(next)[k] == anchors_from(
                    done,
                )[k] by {
                    assert(next[k] == done[k]);
                }
            }
        }
        i += 1;
    }
    assert(certs.deep_view().take(i as int) =~= certs.deep_view());
    Ok(store)
}

/// The certificates to trust: none where no CA file is configured, else those of the
/// file, which must be readable, well-formed and made of usable certificates.
pub open spec fn roots_from(ca_path: Option<Seq<char>>, ca_read: Option<Seq<u8>>) -> Result<
    Seq<Seq<u8>>,
    TlsError,
> {
    match ca_path {
        None => Ok(Seq::<Seq<u8>>::empty()),
        Some(_) => match ca_read {
            None => Err(TlsError::UnreadableCaFile),
            Some(pem) => match pem_certificates(pem) {
                None => Err(TlsError::MalformedCaPem),
                Some(certs) => if all_accepted(certs) {
                    Ok(certs)
                } else {
                    Err(TlsError::RejectedCaCertificate)
                },
            },
        },
    }
}

/// The client identity to present: none where no client file is configured, else the
/// one that the file gives, which must be readable.
pub open spec fn identity_for(
    client_path: Option<Seq<char>>,
    client_read: Option<Seq<u8>>,
) -> Result<Option<(Seq<Seq<u8>>, Seq<u8>)>, TlsError> {
    match client_path {
        None => Ok(None),
        Some(_) => match client_read {
            None => Err(TlsError::UnreadableClientFile),
            Some(pem) => match identity_from(pem_certificates(pem), pem_pkcs8_keys(pem)) {
                Ok(id) => Ok(Some(id)),
                Err(e) => Err(e),
            },
        },
    }
}

/// Trust roots and client identity of a configuration, given what its files held. The
/// CA side is settled first, so its faults are the ones reported where both sides fail.
pub open spec fn tls_material(
    cfg: ConfigView,
    ca_read: Option<Seq<u8>>,
    client_read: Option<Seq<u8>>,
) -> Result<(Seq<Seq<u8>>, Option<(Seq<Seq<u8>>, Seq<u8>)>), TlsError> {
    match roots_from(cfg.ca_cert_path, ca_read) {
        Err(e) => Err(e),
        Ok(roots) => match identity_for(cfg.client_combined_path, client_read) {
            Err(e) => Err(e),
            Ok(id) => Ok((roots, id)),
        },
    }
}

/// Builds the trust store of `config` from what was read at its CA path.
pub fn load_trust_roots(config: &Config, ca_read: &Option<Vec<u8>>) -> (r: Result<
    RootCertStore,
    TlsError,
>)
    ensures
        match r {
            Ok(store) => roots_from(config@.ca_cert_path, contents(*ca_read)) matches Ok(certs)
                && anchors_of(store) == anchors_from(certs),
            Err(e) => roots_from(config@.ca_cert_path, contents(*ca_read)) == Err::<
                Seq<Seq<u8>>,
                TlsError,
            >(e),
        },
{
    if config.ca_cert_path.is_none() {
        let store = empty_store();
        assert(anchors_from(Seq::<Seq<u8>>::empty()) =~= Seq::<Anchor>::empty());
        return Ok(store);
    }
    let pem = match ca_read {
        Some(pem) => pem,
        None => {
            return Err(TlsError::UnreadableCaFile);
        },
    };
    let certs = match certificates(pem.as_slice()) {
        Some(certs) => certs,
        None => {
            return Err(TlsError::MalformedCaPem);
        },
    };
    trust_roots(&certs)
}

/// Reads the client identity of `config` from what was read at its client path.
pub fn load_identity(config: &Config, client_read: &Option<Vec<u8>>) -> (r: Result<
    Option<ClientIdentity>,
    TlsError,
>)
    ensures
        match r {
            Ok(Some(id)) => identity_for(config@.client_combined_path, contents(*client_read))
                == Ok::<Option<(Seq<Seq<u8>>, Seq<u8>)>, TlsError>(Some(id@)),
            Ok(None) => identity_for(config@.client_combined_path, contents(*client_read))
                == Ok::<Option<(Seq<Seq<u8>>, Seq<u8>)>, TlsError>(None),
            Err(e) => identity_for(config@.client_combined_path, contents(*client_read))
                == Err::<Option<(Seq<Seq<u8>>, Seq<u8>)>, TlsError>(e),
        },
{
    if config.client_combined_path.is_none() {
        return Ok(None);
    }
    let pem = match client_read {
        Some(pem) => pem,
        None => {
            return Err(TlsError::UnreadableClientFile);
        },
    };
    match client_identity(pem.as_slice()) {
        Ok(id) => Ok(Some(id)),
        Err(e) => Err(e),
    }
}

/// Turns the TLS library's verdict on a client key into the library's own.
pub fn accept_client_config(
    built: Result<ClientConfig, rumqttc::tokio_rustls::rustls::Error>,
) -> (r: Result<ClientConfig, TlsError>)
    ensures
        match built {
            Ok(cfg) => r == Ok::<ClientConfig, TlsError>(cfg),
            Err(_) => r == Err::<ClientConfig, TlsError>(TlsError::RejectedClientKey),
        },
{
    match built {
        Ok(cfg) => Ok(cfg),
        Err(_) => Err(TlsError::RejectedClientKey),
    }
}

/// The certificate chain of an identity, if there is one.
pub open spec fn chain_of(identity: Option<ClientIdentity>) -> Option<Seq<Seq<u8>>> {
    match identity {
        Some(id) => Some(id@.0),
        None => None,
    }
}

/// The client configuration over `roots`, with client authentication where an identity
/// is given: it verifies servers against the anchors of `roots` and presents the
/// identity's chain, or no certificate where there is no identity. Without an identity
/// this cannot fail; with one, only by the key being refused.
pub fn assemble_client_config(roots: RootCertStore, identity: &Option<ClientIdentity>) -> (r:
    Result<ClientConfig, TlsError>)
    ensures
        *identity is None ==> r is Ok,
        r matches Err(e) ==> e == TlsError::RejectedClientKey,
        r matches Ok(cfg) ==> config_anchors(cfg) == anchors_of(roots) && config_client_chain(cfg)
            == chain_of(*identity),
{
    match identity {
        Some(id) => accept_client_config(
            config_with_client_auth(roots, &id.chain, id.key.as_slice()),
        ),
        None => Ok(config_without_client_auth(roots)),
    }
}

/// Builds the TLS client configuration of `config` from what its certificate files held;
/// `None` stands for a file that could not be read.
///
/// A missing CA path is no fault: the configuration then trusts no root of its own. Every
/// fault of the material is reported as [`tls_material`] names it, before anything is
/// built. Material without a client identity always yields a configuration. A
/// configuration that is built verifies servers against the anchors of the material's
/// roots and presents the chain of its identity, if it has one.
pub fn tls_client_config(
    config: &Config,
    ca_read: &Option<Vec<u8>>,
    client_read: &Option<Vec<u8>>,
) -> (r: Result<ClientConfig, TlsError>)
    ensures
        match tls_material(config@, contents(*ca_read), contents(*client_read)) {
            Err(e) => r matches Err(x) && x == e,
            Ok((_, None)) => r is Ok,
            Ok((_, Some(_))) => r matches Err(x) ==> x == TlsError::RejectedClientKey,
        },
        r matches Ok(cfg) ==> tls_material(
            config@,
            contents(*ca_read),
            contents(*client_read),
        ) matches Ok((roots, identity)) && config_anchors(cfg) == anchors_from(roots)
            && config_client_chain(cfg) == match identity {
            Some((chain, _)) => Some(chain),
            None => None,
        },
{
    let roots = match load_trust_roots(config, ca_read) {
        Ok(roots) => roots,
        Err(e) => {
            return Err(e);
        },
    };
    let identity = match load_identity(config, client_read) {
        Ok(identity) => identity,
        Err(e) => {
            return Err(e);
        },
    };
    assemble_client_config(roots, &identity)
}

} // verus!
