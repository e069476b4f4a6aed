use mqtt_subscriber::config::Config;
use mqtt_subscriber::error::{ConfigError, StartupError, TlsError};
use mqtt_subscriber::options::{connection_options, MQ};
use mqtt_subscriber::pem::{
    certificates, client_identity, pkcs8_keys, select_identity, ClientIdentity,
};
use mqtt_subscriber::tls::{
    accept_client_config, assemble_client_config, load_identity, load_trust_roots,
    tls_client_config, trust_roots,
};
use rumqttc::tokio_rustls::rustls::{
    ClientConfig, ClientConnection, Error, RootCertStore, ServerConfig, ServerConnection,
};
use rumqttc::Transport;
use rustls_pki_types::{CertificateDer, PrivateKeyDer, PrivatePkcs8KeyDer, ServerName};
use std::sync::Arc;
use std::time::Duration;

// Made for these tests: a root certificate, a certificate for `localhost` that the root
// signed, and the EC P-256 key of the latter in PKCS#8 form. All are valid until 2100.
const CERT_DER: [u8; 333] = [
    0x30, 0x82, 0x01, 0x49, 0x30, 0x81, 0xf0, 0xa0, 0x03, 0x02, 0x01, 0x02,
    0x02, 0x01, 0x01, 0x30, 0x0a, 0x06, 0x08, 0x2a, 0x86, 0x48, 0xce, 0x3d,
    0x04, 0x03, 0x02, 0x30, 0x1b, 0x31, 0x19, 0x30, 0x17, 0x06, 0x03, 0x55,
    0x04, 0x03, 0x0c, 0x10, 0x74, 0x65, 0x73, 0x74, 0x20, 0x62, 0x72, 0x6f,
    0x6b, 0x65, 0x72, 0x20, 0x72, 0x6f, 0x6f, 0x74, 0x30, 0x20, 0x17, 0x0d,
    0x30, 0x30, 0x30, 0x31, 0x30, 0x31, 0x30, 0x30, 0x30, 0x30, 0x30, 0x30,
    0x5a, 0x18, 0x0f, 0x32, 0x31, 0x30, 0x30, 0x30, 0x31, 0x30, 0x31, 0x30,
    0x30, 0x30, 0x30, 0x30, 0x30, 0x5a, 0x30, 0x1b, 0x31, 0x19, 0x30, 0x17,
    0x06, 0x03, 0x55, 0x04, 0x03, 0x0c, 0x10, 0x74, 0x65, 0x73, 0x74, 0x20,
    0x62, 0x72, 0x6f, 0x6b, 0x65, 0x72, 0x20, 0x72, 0x6f, 0x6f, 0x74, 0x30,
    0x59, 0x30, 0x13, 0x06, 0x07, 0x2a, 0x86, 0x48, 0xce, 0x3d, 0x02, 0x01,
    0x06, 0x08, 0x2a, 0x86, 0x48, 0xce, 0x3d, 0x03, 0x01, 0x07, 0x03, 0x42,
    0x00, 0x04, 0xd0, 0x5c, 0xd5, 0x3a, 0x57, 0x8b, 0xe1, 0xe4, 0x54, 0xea,
    0xf0, 0x67, 0xd0, 0x53, 0x49, 0x4e, 0x4b, 0xe3, 0xf9, 0x8e, 0xb5, 0x9c,
    0x92, 0x4b, 0x9e, 0x88, 0x8d, 0xe2, 0x03, 0x82, 0xe5, 0xdb, 0xf0, 0xfc,
    0xeb, 0xf6, 0xf9, 0xf8, 0x90, 0x77, 0x3b, 0x80, 0x71, 0x6d, 0x58, 0x52,
    0x37, 0xa1, 0xd0, 0x8b, 0x0b, 0x5e, 0x0c, 0x0b, 0xcb, 0x51, 0xf7, 0x03,
    0x50, 0xba, 0xd2, 0xba, 0x3f, 0xa9, 0xa3, 0x23, 0x30, 0x21, 0x30, 0x0f,
    0x06, 0x03, 0x55, 0x1d, 0x13, 0x01, 0x01, 0xff, 0x04, 0x05, 0x30, 0x03,
    0x01, 0x01, 0xff, 0x30, 0x0e, 0x06, 0x03, 0x55, 0x1d, 0x0f, 0x01, 0x01,
    0xff, 0x04, 0x04, 0x03, 0x02, 0x01, 0x86, 0x30, 0x0a, 0x06, 0x08, 0x2a,
    0x86, 0x48, 0xce, 0x3d, 0x04, 0x03, 0x02, 0x03, 0x48, 0x00, 0x30, 0x45,
    0x02, 0x20, 0x35, 0x3c, 0x51, 0x40, 0x5c, 0xf0, 0x4e, 0x4c, 0xb6, 0x8e,
    0x31, 0xf3, 0x33, 0x11, 0x4c, 0xaf, 0xcf, 0xdf, 0x38, 0xe3, 0x53, 0x7f,
    0xbf, 0xef, 0x2e, 0xc8, 0x1b, 0x4c, 0x6d, 0x74, 0xae, 0x5f, 0x02, 0x21,
    0x00, 0xbe, 0x8b, 0x3b, 0xa6, 0x26, 0x18, 0xe4, 0x11, 0xaa, 0xa5, 0x7b,
    0xec, 0xbe, 0x4b, 0x77, 0x1f, 0x40, 0x03, 0x61, 0x19, 0xf7, 0xb3, 0x12,
    0x72, 0x20, 0xa1, 0xa1, 0x60, 0xdf, 0x25, 0x7c, 0x22,
];

const SERVER_DER: [u8; 361] = [
    0x30, 0x82, 0x01, 0x65, 0x30, 0x82, 0x01, 0x0b, 0xa0, 0x03, 0x02, 0x01,
    0x02, 0x02, 0x01, 0x02, 0x30, 0x0a, 0x06, 0x08, 0x2a, 0x86, 0x48, 0xce,
    0x3d, 0x04, 0x03, 0x02, 0x30, 0x1b, 0x31, 0x19, 0x30, 0x17, 0x06, 0x03,
    0x55, 0x04, 0x03, 0x0c, 0x10, 0x74, 0x65, 0x73, 0x74, 0x20, 0x62, 0x72,
    0x6f, 0x6b, 0x65, 0x72, 0x20, 0x72, 0x6f, 0x6f, 0x74, 0x30, 0x20, 0x17,
    0x0d, 0x30, 0x30, 0x30, 0x31, 0x30, 0x31, 0x30, 0x30, 0x30, 0x30, 0x30,
    0x30, 0x5a, 0x18, 0x0f, 0x32, 0x31, 0x30, 0x30, 0x30, 0x31, 0x30, 0x31,
    0x30, 0x30, 0x30, 0x30, 0x30, 0x30, 0x5a, 0x30, 0x14, 0x31, 0x12, 0x30,
    0x10, 0x06, 0x03, 0x55, 0x04, 0x03, 0x0c, 0x09, 0x6c, 0x6f, 0x63, 0x61,
    0x6c, 0x68, 0x6f, 0x73, 0x74, 0x30, 0x59, 0x30, 0x13, 0x06, 0x07, 0x2a,
    0x86, 0x48, 0xce, 0x3d, 0x02, 0x01, 0x06, 0x08, 0x2a, 0x86, 0x48, 0xce,
    0x3d, 0x03, 0x01, 0x07, 0x03, 0x42, 0x00, 0x04, 0x74, 0xca, 0x28, 0xa1,
    0x94, 0xfd, 0x99, 0xdb, 0xf2, 0xf0, 0x7a, 0xa7, 0xd5, 0xf0, 0xbb, 0xf2,
    0xf3, 0x22, 0xbb, 0x5e, 0xef, 0x54, 0x37, 0x92, 0xb6, 0x6c, 0x4d, 0x2a,
    0xf4, 0x94, 0x34, 0x59, 0x37, 0xd9, 0x3c, 0xb1, 0xc1, 0x7b, 0x3d, 0xb6,
    0xce, 0x83, 0xa4, 0x70, 0xb2, 0x8c, 0x4d, 0x9b, 0x75, 0x97, 0xb3, 0x04,
    0xdd, 0xd9, 0x60, 0xa2, 0x76, 0xc3, 0x65, 0xab, 0xb9, 0x01, 0x18, 0xce,
    0xa3, 0x45, 0x30, 0x43, 0x30, 0x0c, 0x06, 0x03, 0x55, 0x1d, 0x13, 0x01,
    0x01, 0xff, 0x04, 0x02, 0x30, 0x00, 0x30, 0x14, 0x06, 0x03, 0x55, 0x1d,
    0x11, 0x04, 0x0d, 0x30, 0x0b, 0x82, 0x09, 0x6c, 0x6f, 0x63, 0x61, 0x6c,
    0x68, 0x6f, 0x73, 0x74, 0x30, 0x1d, 0x06, 0x03, 0x55, 0x1d, 0x25, 0x04,
    0x16, 0x30, 0x14, 0x06, 0x08, 0x2b, 0x06, 0x01, 0x05, 0x05, 0x07, 0x03,
    0x01, 0x06, 0x08, 0x2b, 0x06, 0x01, 0x05, 0x05, 0x07, 0x03, 0x02, 0x30,
    0x0a, 0x06, 0x08, 0x2a, 0x86, 0x48, 0xce, 0x3d, 0x04, 0x03, 0x02, 0x03,
    0x48, 0x00, 0x30, 0x45, 0x02, 0x21, 0x00, 0xe7, 0xb8, 0x6e, 0xec, 0x91,
    0xe9, 0xa7, 0x05, 0xae, 0xfd, 0x1b, 0x31, 0x9f, 0xba, 0xfe, 0x67, 0x23,
    0xd2, 0xb4, 0x3b, 0x1e, 0x53, 0x8e, 0xed, 0x2e, 0x26, 0x61, 0xb2, 0x2a,
    0xdd, 0xb6, 0x18, 0x02, 0x20, 0x33, 0x3e, 0x75, 0x43, 0xbc, 0xa0, 0xff,
    0xa1, 0x42, 0xa6, 0x8f, 0xa1, 0xe2, 0x3e, 0x3e, 0x81, 0x46, 0xbe, 0xeb,
    0x96, 0x28, 0x5a, 0x29, 0x55, 0xd7, 0x31, 0x92, 0x02, 0xb5, 0xee, 0x7e,
    0x3f,
];

const KEY_DER: [u8; 138] = [
    0x30, 0x81, 0x87, 0x02, 0x01, 0x00, 0x30, 0x13, 0x06, 0x07, 0x2a, 0x86,
    0x48, 0xce, 0x3d, 0x02, 0x01, 0x06, 0x08, 0x2a, 0x86, 0x48, 0xce, 0x3d,
    0x03, 0x01, 0x07, 0x04, 0x6d, 0x30, 0x6b, 0x02, 0x01, 0x01, 0x04, 0x20,
    0x1d, 0xed, 0x30, 0x43, 0xcf, 0x0f, 0x59, 0xae, 0xc6, 0x67, 0x1e, 0x18,
    0xf1, 0x92, 0x05, 0x1a, 0x91, 0x15, 0xa7, 0x54, 0x19, 0xf4, 0xc4, 0xf9,
    0xec, 0xe9, 0x2b, 0xac, 0xf4, 0x79, 0xe1, 0xab, 0xa1, 0x44, 0x03, 0x42,
    0x00, 0x04, 0x74, 0xca, 0x28, 0xa1, 0x94, 0xfd, 0x99, 0xdb, 0xf2, 0xf0,
    0x7a, 0xa7, 0xd5, 0xf0, 0xbb, 0xf2, 0xf3, 0x22, 0xbb, 0x5e, 0xef, 0x54,
    0x37, 0x92, 0xb6, 0x6c, 0x4d, 0x2a, 0xf4, 0x94, 0x34, 0x59, 0x37, 0xd9,
    0x3c, 0xb1, 0xc1, 0x7b, 0x3d, 0xb6, 0xce, 0x83, 0xa4, 0x70, 0xb2, 0x8c,
    0x4d, 0x9b, 0x75, 0x97, 0xb3, 0x04, 0xdd, 0xd9, 0x60, 0xa2, 0x76, 0xc3,
    0x65, 0xab, 0xb9, 0x01, 0x18, 0xce,
];

const ALPHABET: &[u8; 64] = b"ABCDEFGHIJKLMNOPQRSTUVWXYZabcdefghijklmnopqrstuvwxyz0123456789+/";

fn base64(data: &[u8]) -> String {
    let mut out = String::new();
    for chunk in data.chunks(3) {
        let b0 = chunk[0] as usize;
        let b1 = if chunk.len() > 1 { chunk[1] as usize } else { 0 };
        let b2 = if chunk.len() > 2 { chunk[2] as usize } else { 0 };
        out.push(ALPHABET[b0 >> 2] as char);
        out.push(ALPHABET[((b0 & 3) << 4) | (b1 >> 4)] as char);
        out.push(if chunk.len() > 1 { ALPHABET[((b1 & 15) << 2) | (b2 >> 6)] as char } else { '=' });
        out.push(if chunk.len() > 2 { ALPHABET[b2 & 63] as char } else { '=' });
    }
    out
}

fn pem(label: &str, der: &[u8]) -> String {
    let body = base64(der);
    let mut out = format!("-----BEGIN {}-----\n", label);
    let mut rest = body.as_str();
    while rest.len() > 64 {
        let (line, tail) = rest.split_at(64);
        out.push_str(line);
        out.push('\n');
        rest = tail;
    }
    out.push_str(rest);
    out.push('\n');
    out.push_str(&format!("-----END {}-----\n", label));
    out
}

fn cert_pem() -> String {
    pem("CERTIFICATE", &CERT_DER)
}

fn key_pem() -> String {
    pem("PRIVATE KEY", &KEY_DER)
}

fn combined() -> Vec<u8> {
    format!("{}{}", cert_pem(), key_pem()).into_bytes()
}

fn broken_pem(label: &str) -> String {
    format!("-----BEGIN {}-----\n!!!!\n-----END {}-----\n", label, label)
}

fn config(scheme: Option<&str>) -> Config {
    Config {
        scheme: scheme.map(String::from),
        broker_address: String::from("broker.example"),
        broker_port: 8883,
        client_id: String::from("sub-1"),
        topics: vec![String::from("t/1"), String::from("t/2")],
        qos: vec![1],
        clean_session: None,
        username: None,
        password: None,
        ca_cert_path: None,
        client_combined_path: None,
    }
}

fn is_tls(transport: Transport) -> bool {
    matches!(transport, Transport::Tls(_))
}

fn is_tcp(transport: Transport) -> bool {
    matches!(transport, Transport::Tcp)
}

fn failure<T>(r: Result<T, TlsError>) -> Option<TlsError> {
    r.err()
}

fn startup_failure<T>(r: Result<T, StartupError>) -> Option<StartupError> {
    r.err()
}

/// The chain that `cfg` presents to a server that asks for a client certificate.
fn presented_chain(cfg: &ClientConfig) -> Option<Vec<Vec<u8>>> {
    let key = cfg.client_auth_cert_resolver.resolve(&[], &[])?;
    Some(key.cert.iter().map(|der| der.as_ref().to_vec()).collect())
}

/// Runs a TLS handshake in memory between a client with `cfg` and a server for
/// `localhost` that presents `SERVER_DER`.
fn handshake(cfg: ClientConfig) -> Result<(), Error> {
    let server_cfg = ServerConfig::builder()
        .with_no_client_auth()
        .with_single_cert(
            vec![CertificateDer::from(SERVER_DER.to_vec())],
            PrivateKeyDer::Pkcs8(PrivatePkcs8KeyDer::from(KEY_DER.to_vec())),
        )
        .unwrap();
    let name = ServerName::try_from("localhost").unwrap();
    let mut client = ClientConnection::new(Arc::new(cfg), name)?;
    let mut server = ServerConnection::new(Arc::new(server_cfg))?;
    let mut rounds = 0;
    while client.is_handshaking() || server.is_handshaking() {
        rounds += 1;
        assert!(rounds < 20);
        let mut to_server = Vec::new();
        while client.wants_write() {
            client.write_tls(&mut to_server).unwrap();
        }
        let mut input = &to_server[..];
        while !input.is_empty() {
            server.read_tls(&mut input).unwrap();
            server.process_new_packets()?;
        }
        let mut to_client = Vec::new();
        while server.wants_write() {
            server.write_tls(&mut to_client).unwrap();
        }
        let mut input = &to_client[..];
        while !input.is_empty() {
            client.read_tls(&mut input).unwrap();
            client.process_new_packets()?;
        }
    }
    Ok(())
}

#[test]
fn certificate_section_is_decoded_to_der() {
    assert_eq!(certificates(cert_pem().as_bytes()), Some(vec![CERT_DER.to_vec()]));
}

#[test]
fn certificates_come_in_file_order() {
    let other = vec![0x30u8, 0x03, 0x02, 0x01, 0x05];
    let two = format!("{}{}{}", cert_pem(), key_pem(), pem("CERTIFICATE", &other));
    assert_eq!(certificates(two.as_bytes()), Some(vec![CERT_DER.to_vec(), other]));
}

#[test]
fn other_sections_are_no_certificates() {
    assert_eq!(certificates(key_pem().as_bytes()), Some(vec![]));
    assert_eq!(certificates(b""), Some(vec![]));
    assert_eq!(certificates(b"no pem here\n"), Some(vec![]));
}

#[test]
fn key_section_is_decoded_to_der() {
    assert_eq!(pkcs8_keys(key_pem().as_bytes()), Some(vec![KEY_DER.to_vec()]));
    assert_eq!(pkcs8_keys(&combined()), Some(vec![KEY_DER.to_vec()]));
    assert_eq!(pkcs8_keys(cert_pem().as_bytes()), Some(vec![]));
}

#[test]
fn other_key_forms_are_no_pkcs8_keys() {
    let sec1 = pem("EC PRIVATE KEY", &[0x30, 0x03, 0x02, 0x01, 0x01]);
    assert_eq!(pkcs8_keys(sec1.as_bytes()), Some(vec![]));
}

#[test]
fn broken_base64_is_malformed() {
    assert_eq!(certificates(broken_pem("CERTIFICATE").as_bytes()), None);
    assert_eq!(pkcs8_keys(broken_pem("CERTIFICATE").as_bytes()), None);
}

#[test]
fn section_without_end_is_malformed() {
    let open = "-----BEGIN CERTIFICATE-----\nMIIB\n";
    assert_eq!(certificates(open.as_bytes()), None);
}

#[test]
fn identity_takes_every_certificate_and_the_first_key() {
    let chain = vec![vec![1u8, 2, 3], vec![4u8]];
    let keys = vec![vec![9u8, 9], vec![8u8]];
    assert_eq!(
        select_identity(Some(chain.clone()), Some(keys)),
        Ok(ClientIdentity { chain, key: vec![9u8, 9] })
    );
}

#[test]
fn identity_without_certificates_is_accepted() {
    assert_eq!(
        select_identity(Some(vec![]), Some(vec![vec![7u8]])),
        Ok(ClientIdentity { chain: vec![], key: vec![7u8] })
    );
}

#[test]
fn identity_without_key_is_refused() {
    assert_eq!(
        select_identity(Some(vec![vec![1u8]]), Some(vec![])),
        Err(TlsError::MissingPrivateKey)
    );
}

#[test]
fn identity_from_malformed_text_is_refused() {
    assert_eq!(
        select_identity(None, Some(vec![vec![1u8]])),
        Err(TlsError::MalformedClientPem)
    );
    assert_eq!(select_identity(Some(vec![]), None), Err(TlsError::MalformedClientPem));
    assert_eq!(select_identity(None, None), Err(TlsError::MalformedClientPem));
}

#[test]
fn combined_file_gives_chain_and_key() {
    assert_eq!(
        client_identity(&combined()),
        Ok(ClientIdentity { chain: vec![CERT_DER.to_vec()], key: KEY_DER.to_vec() })
    );
}

#[test]
fn certificate_alone_lacks_a_key() {
    assert_eq!(
        client_identity(cert_pem().as_bytes()),
        Err(TlsError::MissingPrivateKey)
    );
}

#[test]
fn malformed_client_file_is_refused() {
    let broken = format!("{}{}", cert_pem(), broken_pem("PRIVATE KEY"));
    assert_eq!(client_identity(broken.as_bytes()), Err(TlsError::MalformedClientPem));
}

#[test]
fn usable_certificates_become_trust_anchors() {
    let store: RootCertStore = trust_roots(&vec![CERT_DER.to_vec(), CERT_DER.to_vec()]).unwrap();
    assert_eq!(store.len(), 2);
    assert_eq!(store.roots[0].subject.as_ref(), &CERT_DER[92..119]);
    let none: RootCertStore = trust_roots(&vec![]).unwrap();
    assert!(none.is_empty());
}

#[test]
fn unusable_certificate_is_refused() {
    assert_eq!(
        failure(trust_roots(&vec![CERT_DER.to_vec(), vec![0x30, 0x00]])),
        Some(TlsError::RejectedCaCertificate)
    );
    assert_eq!(
        failure(trust_roots(&vec![KEY_DER.to_vec()])),
        Some(TlsError::RejectedCaCertificate)
    );
}

#[test]
fn missing_ca_path_gives_an_empty_store() {
    let cfg = config(Some("ssl"));
    assert!(load_trust_roots(&cfg, &None).unwrap().is_empty());
    assert!(load_trust_roots(&cfg, &Some(cert_pem().into_bytes())).unwrap().is_empty());
}

#[test]
fn ca_file_fills_the_store() {
    let mut cfg = config(Some("ssl"));
    cfg.ca_cert_path = Some(String::from("ca.pem"));
    let store = load_trust_roots(&cfg, &Some(cert_pem().into_bytes())).unwrap();
    assert_eq!(store.len(), 1);
}

#[test]
fn ca_file_faults_are_told_apart() {
    let mut cfg = config(Some("ssl"));
    cfg.ca_cert_path = Some(String::from("ca.pem"));
    assert_eq!(failure(load_trust_roots(&cfg, &None)), Some(TlsError::UnreadableCaFile));
    assert_eq!(
        failure(load_trust_roots(&cfg, &Some(broken_pem("CERTIFICATE").into_bytes()))),
        Some(TlsError::MalformedCaPem)
    );
    let unusable = pem("CERTIFICATE", &[0x30, 0x00]);
    assert_eq!(
        failure(load_trust_roots(&cfg, &Some(unusable.into_bytes()))),
        Some(TlsError::RejectedCaCertificate)
    );
}

#[test]
fn client_file_is_read_only_where_configured() {
    let mut cfg = config(Some("ssl"));
    assert_eq!(load_identity(&cfg, &Some(combined())), Ok(None));
    assert_eq!(load_identity(&cfg, &None), Ok(None));
    cfg.client_combined_path = Some(String::from("client.pem"));
    assert_eq!(
        load_identity(&cfg, &Some(combined())),
        Ok(Some(ClientIdentity { chain: vec![CERT_DER.to_vec()], key: KEY_DER.to_vec() }))
    );
    assert_eq!(load_identity(&cfg, &None), Err(TlsError::UnreadableClientFile));
    assert_eq!(
        load_identity(&cfg, &Some(cert_pem().into_bytes())),
        Err(TlsError::MissingPrivateKey)
    );
}

#[test]
fn refusal_of_the_tls_library_becomes_a_rejected_key() {
    let refused: Result<ClientConfig, Error> = Err(Error::General(String::from("no")));
    assert_eq!(
        failure(accept_client_config(refused)),
        Some(TlsError::RejectedClientKey)
    );
    let built = assemble_client_config(RootCertStore::empty(), &None);
    assert!(accept_client_config(built.map_err(|_| Error::General(String::new()))).is_ok());
}

#[test]
fn client_key_is_taken_or_refused() {
    let good = Some(ClientIdentity { chain: vec![CERT_DER.to_vec()], key: KEY_DER.to_vec() });
    assert!(assemble_client_config(RootCertStore::empty(), &good).is_ok());
    let bad = Some(ClientIdentity { chain: vec![CERT_DER.to_vec()], key: vec![0x30, 0x00] });
    assert_eq!(
        failure(assemble_client_config(RootCertStore::empty(), &bad)),
        Some(TlsError::RejectedClientKey)
    );
}

#[test]
fn configuration_without_identity_presents_no_certificate() {
    let cfg = assemble_client_config(RootCertStore::empty(), &None).unwrap();
    assert!(!cfg.client_auth_cert_resolver.has_certs());
    assert_eq!(presented_chain(&cfg), None);
    let cfg = tls_client_config(&config(Some("ssl")), &None, &None).unwrap();
    assert_eq!(presented_chain(&cfg), None);
}

#[test]
fn configuration_with_identity_presents_its_chain() {
    let chain = vec![SERVER_DER.to_vec(), CERT_DER.to_vec()];
    let identity = Some(ClientIdentity { chain: chain.clone(), key: KEY_DER.to_vec() });
    let cfg = assemble_client_config(RootCertStore::empty(), &identity).unwrap();
    assert!(cfg.client_auth_cert_resolver.has_certs());
    assert_eq!(presented_chain(&cfg), Some(chain));
    let mut settings = config(Some("ssl"));
    settings.client_combined_path = Some(String::from("client.pem"));
    let cfg = tls_client_config(&settings, &None, &Some(combined())).unwrap();
    assert_eq!(presented_chain(&cfg), Some(vec![CERT_DER.to_vec()]));
}

#[test]
fn configuration_trusts_the_anchors_of_its_store() {
    let trusting = trust_roots(&vec![CERT_DER.to_vec()]).unwrap();
    let cfg = assemble_client_config(trusting, &None).unwrap();
    assert_eq!(handshake(cfg).err(), None);
}

#[test]
fn configuration_over_an_empty_store_trusts_no_server() {
    let cfg = assemble_client_config(RootCertStore::empty(), &None).unwrap();
    assert!(matches!(handshake(cfg), Err(Error::InvalidCertificate(_))));
}

#[test]
fn configuration_over_another_root_does_not_trust_the_server() {
    let other = trust_roots(&vec![SERVER_DER.to_vec()]).unwrap();
    let cfg = assemble_client_config(other, &None).unwrap();
    assert!(matches!(handshake(cfg), Err(Error::InvalidCertificate(_))));
}

#[test]
fn configured_ca_file_decides_which_server_is_trusted() {
    let mut settings = config(Some("ssl"));
    let without = tls_client_config(&settings, &None, &None).unwrap();
    assert!(handshake(without).is_err());
    settings.ca_cert_path = Some(String::from("ca.pem"));
    let with = tls_client_config(&settings, &Some(cert_pem().into_bytes()), &None).unwrap();
    assert_eq!(handshake(with).err(), None);
}

#[test]
fn tls_without_ca_path_proceeds() {
    let cfg = config(Some("ssl"));
    assert!(cfg.missing_ca_warning());
    assert!(tls_client_config(&cfg, &None, &None).is_ok());
}

#[test]
fn tls_with_unreadable_client_file_fails() {
    let mut cfg = config(Some("mqtts"));
    cfg.client_combined_path = Some(String::from("client.pem"));
    assert_eq!(
        failure(tls_client_config(&cfg, &None, &None)),
        Some(TlsError::UnreadableClientFile)
    );
}

#[test]
fn tls_reports_ca_faults_before_client_faults() {
    let mut cfg = config(Some("ssl"));
    cfg.ca_cert_path = Some(String::from("ca.pem"));
    cfg.client_combined_path = Some(String::from("client.pem"));
    assert_eq!(
        failure(tls_client_config(&cfg, &None, &None)),
        Some(TlsError::UnreadableCaFile)
    );
    assert_eq!(
        failure(tls_client_config(&cfg, &Some(cert_pem().into_bytes()), &None)),
        Some(TlsError::UnreadableClientFile)
    );
    assert!(tls_client_config(&cfg, &Some(cert_pem().into_bytes()), &Some(combined())).is_ok());
}

#[test]
fn plain_options_hold_the_configured_settings() {
    let options = connection_options(&config(None), &None, &None).unwrap();
    assert_eq!(options.client_id(), "sub-1");
    assert_eq!(options.broker_address(), (String::from("broker.example"), 8883));
    assert_eq!(options.keep_alive(), Duration::from_secs(20));
    assert!(options.clean_session());
    assert_eq!(options.credentials(), None);
    assert!(is_tcp(options.transport()));
}

#[test]
fn options_carry_credentials_and_session_flag() {
    let mut cfg = config(Some("tcp"));
    cfg.clean_session = Some(false);
    cfg.username = Some(String::from("alice"));
    let options = connection_options(&cfg, &None, &None).unwrap();
    assert!(!options.clean_session());
    assert_eq!(options.credentials(), Some((String::from("alice"), String::new())));
    cfg.password = Some(String::from("secret"));
    let options = connection_options(&cfg, &None, &None).unwrap();
    assert_eq!(
        options.credentials(),
        Some((String::from("alice"), String::from("secret")))
    );
    assert_eq!(options.keep_alive(), Duration::from_secs(20));
}

#[test]
fn persistent_session_needs_a_client_id() {
    let mut cfg = config(None);
    cfg.client_id = String::new();
    assert!(connection_options(&cfg, &None, &None).is_ok());
    cfg.clean_session = Some(false);
    assert_eq!(
        startup_failure(connection_options(&cfg, &None, &None)),
        Some(StartupError::Config(ConfigError::ClientIdRequired))
    );
}

#[test]
fn unencrypted_options_ignore_the_certificate_files() {
    let mut cfg = config(Some("tcp"));
    cfg.ca_cert_path = Some(String::from("ca.pem"));
    cfg.client_combined_path = Some(String::from("client.pem"));
    let options = connection_options(&cfg, &None, &None).unwrap();
    assert!(is_tcp(options.transport()));
}

#[test]
fn encrypted_options_use_the_tls_transport() {
    let options = connection_options(&config(Some("ssl")), &None, &None).unwrap();
    assert!(is_tls(options.transport()));
    assert_eq!(options.keep_alive(), Duration::from_secs(20));
    let mut cfg = config(Some("mqtts"));
    cfg.ca_cert_path = Some(String::from("ca.pem"));
    cfg.client_combined_path = Some(String::from("client.pem"));
    let options =
        connection_options(&cfg, &Some(cert_pem().into_bytes()), &Some(combined())).unwrap();
    assert!(is_tls(options.transport()));
    assert_eq!(options.client_id(), "sub-1");
}

#[test]
fn encrypted_options_fail_on_faulty_material() {
    let mut cfg = config(Some("ssl"));
    cfg.client_combined_path = Some(String::from("client.pem"));
    assert_eq!(
        startup_failure(connection_options(&cfg, &None, &None)),
        Some(StartupError::Tls(TlsError::UnreadableClientFile))
    );
    let unusable = format!("{}{}", cert_pem(), pem("PRIVATE KEY", &[0x30, 0x00]));
    assert_eq!(
        startup_failure(connection_options(&cfg, &None, &Some(unusable.into_bytes()))),
        Some(StartupError::Tls(TlsError::RejectedClientKey))
    );
    cfg.client_id = String::new();
    cfg.clean_session = Some(false);
    assert_eq!(
        startup_failure(connection_options(&cfg, &None, &None)),
        Some(StartupError::Config(ConfigError::ClientIdRequired))
    );
}

#[test]
fn subscriber_keeps_the_configuration_beside_the_options() {
    let mut cfg = config(Some("tcp"));
    cfg.username = Some(String::from("alice"));
    cfg.password = Some(String::from("secret"));
    cfg.clean_session = Some(true);
    cfg.ca_cert_path = Some(String::from("ca.pem"));
    let mq = MQ::new(cfg, &None, &None).unwrap();
    assert_eq!(mq.mqtt_options.client_id(), "sub-1");
    assert_eq!(mq.mqtt_options.keep_alive(), Duration::from_secs(20));
    assert_eq!(mq.broker_address, "broker.example");
    assert_eq!(mq.broker_port, 8883);
    assert_eq!(mq.client_id, "sub-1");
    assert_eq!(mq.topics, vec![String::from("t/1"), String::from("t/2")]);
    assert_eq!(mq.qos, vec![1]);
    assert_eq!(mq.clean_session, Some(true));
    assert_eq!(mq.username, Some(String::from("alice")));
    assert_eq!(mq.password, Some(String::from("secret")));
    assert_eq!(mq.ca_cert_path, Some(String::from("ca.pem")));
    assert_eq!(mq.client_combined_path, None);
}

#[test]
fn subscriber_is_not_made_from_a_faulty_configuration() {
    let mut cfg = config(Some("ssl"));
    cfg.ca_cert_path = Some(String::from("ca.pem"));
    assert_eq!(
        startup_failure(MQ::new(cfg, &Some(broken_pem("CERTIFICATE").into_bytes()), &None)),
        Some(StartupError::Tls(TlsError::MalformedCaPem))
    );
}
