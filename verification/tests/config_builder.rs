//! The phased configuration builder: the mandatory decision points, the
//! key/certificate pairing check, and the finished configuration's
//! defaults.
//!
//! The private key is the first test vector of RFC 8032 wrapped as PKCS#8;
//! the certificate is a minimal DER X.509 shell around its public key.

use rustls::builder::{ClientCertVerifier, ConfigBuilder, EnabledVersions};
use rustls::sign::{CertificateDer, PrivateKeyDer, ServerCertResolver};
use rustls::x509::{bytes_eq, ed25519_spki, spki_of_cert};
use rustls::Error;

const SEED: [u8; 32] = [
    0x9d, 0x61, 0xb1, 0x9d, 0xef, 0xfd, 0x5a, 0x60, 0xba, 0x84, 0x4a, 0xf4, 0x92, 0xec, 0x2c,
    0xc4, 0x44, 0x49, 0xc5, 0x69, 0x7b, 0x32, 0x69, 0x19, 0x70, 0x3b, 0xac, 0x03, 0x1c, 0xae,
    0x7f, 0x60,
];

const PUBKEY: [u8; 32] = [
    0xd7, 0x5a, 0x98, 0x01, 0x82, 0xb1, 0x0a, 0xb7, 0xd5, 0x4b, 0xfe, 0xd3, 0xc9, 0x64, 0x07,
    0x3a, 0x0e, 0xe1, 0x72, 0xf3, 0xda, 0xa6, 0x23, 0x25, 0xaf, 0x02, 0x1a, 0x68, 0xf7, 0x07,
    0x51, 0x1a,
];

fn test_key() -> PrivateKeyDer {
    let mut der = vec![
        0x30, 0x2e, 0x02, 0x01, 0x00, 0x30, 0x05, 0x06, 0x03, 0x2b, 0x65, 0x70, 0x04, 0x22,
        0x04, 0x20,
    ];
    der.extend_from_slice(&SEED);
    PrivateKeyDer::Pkcs8(der)
}

fn spki_for(pubkey: &[u8; 32]) -> Vec<u8> {
    let mut spki = vec![
        0x30, 0x2a, 0x30, 0x05, 0x06, 0x03, 0x2b, 0x65, 0x70, 0x03, 0x21, 0x00,
    ];
    spki.extend_from_slice(pubkey);
    spki
}

fn test_cert_for(pubkey: &[u8; 32]) -> Vec<u8> {
    let mut tbs_content = vec![0x02, 0x01, 0x01]; // serial number
    tbs_content.extend_from_slice(&[0x30, 0x05, 0x06, 0x03, 0x2b, 0x65, 0x70]); // signature alg
    tbs_content.extend_from_slice(&[0x30, 0x00]); // issuer
    tbs_content.extend_from_slice(&[0x30, 0x00]); // validity
    tbs_content.extend_from_slice(&[0x30, 0x00]); // subject
    tbs_content.extend_from_slice(&spki_for(pubkey));
    let mut cert_content = vec![0x30, tbs_content.len() as u8];
    cert_content.extend_from_slice(&tbs_content);
    cert_content.extend_from_slice(&[0x30, 0x05, 0x06, 0x03, 0x2b, 0x65, 0x70]); // signature alg
    cert_content.extend_from_slice(&[0x03, 0x01, 0x00]); // signature
    let mut cert = vec![0x30, cert_content.len() as u8];
    cert.extend_from_slice(&cert_content);
    cert
}

fn versions() -> EnabledVersions {
    EnabledVersions {
        tls12: false,
        tls13: true,
    }
}

#[test]
fn single_cert_builder_succeeds_and_resolver_returns_it() {
    let cert_bytes = test_cert_for(&PUBKEY);
    let chain = vec![CertificateDer::new(cert_bytes.clone())];
    let config = ConfigBuilder::new(versions())
        .with_no_client_auth()
        .with_single_cert(chain, test_key())
        .expect("matching key and certificate must be accepted");

    assert_eq!(*config.client_cert_verifier(), ClientCertVerifier::NoClientAuth);
    assert_eq!(*config.versions(), versions());

    // The resolver hands back exactly the configured chain and key, for any
    // context.
    for name in [b"example.com".to_vec(), b"other.test".to_vec(), vec![]] {
        match config.cert_resolver().resolve(&name) {
            Some(ck) => {
                assert_eq!(ck.cert_chain.len(), 1);
                assert_eq!(ck.cert_chain[0].bytes, cert_bytes);
                match &ck.key {
                    PrivateKeyDer::Pkcs8(der) => assert_eq!(der[16..], SEED),
                    _ => panic!("key encoding changed"),
                }
                assert!(ck.ocsp.is_none());
            }
            None => panic!("single-cert resolver must always resolve"),
        }
    }
}

#[test]
fn finished_configuration_has_documented_defaults() {
    let chain = vec![CertificateDer::new(test_cert_for(&PUBKEY))];
    let config = ConfigBuilder::new(versions())
        .with_no_client_auth()
        .with_single_cert(chain, test_key())
        .unwrap();

    assert!(!config.ignore_client_order());
    assert_eq!(config.max_fragment_size(), None);
    assert_eq!(config.session_cache_capacity(), 256);
    assert!(!config.issues_tickets());
    assert!(config.alpn_protocols().is_empty());
    assert!(!config.enable_secret_extraction());
    assert_eq!(config.max_early_data_size(), 0);
    assert!(!config.send_half_rtt_data());
    assert_eq!(config.send_tls13_tickets(), 2);
}

#[test]
fn client_cert_verifier_is_kept() {
    let config = ConfigBuilder::new(versions())
        .with_client_cert_verifier(ClientCertVerifier::External(9))
        .with_cert_resolver(ServerCertResolver::External(4));
    assert_eq!(*config.client_cert_verifier(), ClientCertVerifier::External(9));
    // An external resolver resolves outside the library.
    assert!(config.cert_resolver().resolve(&b"example.com".to_vec()).is_none());
}

#[test]
fn mismatched_key_and_certificate_are_rejected() {
    let wrong_cert = test_cert_for(&[0u8; 32]);
    let chain = vec![CertificateDer::new(wrong_cert)];
    let err = ConfigBuilder::new(versions())
        .with_no_client_auth()
        .with_single_cert(chain, test_key())
        .expect_err("mismatch must be rejected");
    assert_eq!(err, Error::KeyCertMismatch);
}

#[test]
fn malformed_private_key_is_rejected() {
    let chain = vec![CertificateDer::new(test_cert_for(&PUBKEY))];
    let err = ConfigBuilder::new(versions())
        .with_no_client_auth()
        .with_single_cert(chain, PrivateKeyDer::Pkcs8(vec![1, 2, 3]))
        .expect_err("garbage key must be rejected");
    assert_eq!(err, Error::InvalidPrivateKey);

    // An encoding this library's backend does not parse is likewise an
    // invalid key.
    let chain = vec![CertificateDer::new(test_cert_for(&PUBKEY))];
    let err = ConfigBuilder::new(versions())
        .with_no_client_auth()
        .with_single_cert(chain, PrivateKeyDer::Pkcs1(vec![0x30, 0x00]))
        .expect_err("unsupported encoding must be rejected");
    assert_eq!(err, Error::InvalidPrivateKey);
}

#[test]
fn unreadable_chain_is_rejected() {
    let err = ConfigBuilder::new(versions())
        .with_no_client_auth()
        .with_single_cert(vec![], test_key())
        .expect_err("empty chain must be rejected");
    assert_eq!(err, Error::MalformedCertificate);

    let err = ConfigBuilder::new(versions())
        .with_no_client_auth()
        .with_single_cert(
            vec![CertificateDer::new(vec![0xde, 0xad])],
            test_key(),
        )
        .expect_err("unreadable leaf must be rejected");
    assert_eq!(err, Error::MalformedCertificate);
}

#[test]
fn ocsp_response_is_stapled() {
    let chain = vec![CertificateDer::new(test_cert_for(&PUBKEY))];
    let config = ConfigBuilder::new(versions())
        .with_no_client_auth()
        .with_single_cert_with_ocsp(chain, test_key(), vec![0x0b, 0x0c])
        .unwrap();
    match config.cert_resolver().resolve(&vec![]) {
        Some(ck) => assert_eq!(ck.ocsp, Some(vec![0x0b, 0x0c])),
        None => panic!("single-cert resolver must resolve"),
    }
}

#[test]
fn spki_extraction_finds_the_leaf_public_key() {
    let cert = test_cert_for(&PUBKEY);
    let spki = spki_of_cert(&cert).expect("test certificate is readable");
    assert_eq!(spki, spki_for(&PUBKEY));
    assert_eq!(spki, ed25519_spki(&PUBKEY.to_vec()));
    assert!(spki_of_cert(&vec![0x30, 0x00]).is_none());
    assert!(spki_of_cert(&vec![]).is_none());
}

#[test]
fn bytes_eq_compares_contents() {
    assert!(bytes_eq(&vec![1, 2, 3], &vec![1, 2, 3]));
    assert!(!bytes_eq(&vec![1, 2, 3], &vec![1, 2, 4]));
    assert!(!bytes_eq(&vec![1, 2], &vec![1, 2, 3]));
    assert!(bytes_eq(&vec![], &vec![]));
}
