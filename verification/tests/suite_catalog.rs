//! The cipher suite catalog, resumption compatibility, and secret
//! extraction.

use rustls::cipher::{AeadKey, ConnectionTrafficSecrets, Iv};
use rustls::suites::{
    all_cipher_suites, lookup_suite, tls13_aes_128_gcm_sha256, tls13_aes_256_gcm_sha384,
    tls13_chacha20_poly1305_sha256, BulkAlgorithm, CipherSuite, HashAlgorithm,
    SupportedCipherSuite,
};

#[test]
fn catalog_holds_the_three_suites() {
    let all = all_cipher_suites();
    assert_eq!(all.len(), 3);
    assert_eq!(
        all[0].common.suite,
        CipherSuite::Tls13Chacha20Poly1305Sha256
    );
    assert_eq!(all[1].common.suite, CipherSuite::Tls13Aes256GcmSha384);
    assert_eq!(all[2].common.suite, CipherSuite::Tls13Aes128GcmSha256);
}

#[test]
fn wire_values_are_registered_ids() {
    assert_eq!(CipherSuite::Tls13Aes128GcmSha256.wire_value(), 0x1301);
    assert_eq!(CipherSuite::Tls13Aes256GcmSha384.wire_value(), 0x1302);
    assert_eq!(
        CipherSuite::Tls13Chacha20Poly1305Sha256.wire_value(),
        0x1303
    );
}

#[test]
fn lookup_finds_each_suite_by_identity() {
    for id in [
        CipherSuite::Tls13Aes128GcmSha256,
        CipherSuite::Tls13Aes256GcmSha384,
        CipherSuite::Tls13Chacha20Poly1305Sha256,
    ] {
        let found = lookup_suite(id).expect("catalog suite must be found");
        assert_eq!(found.common.suite, id);
    }
}

#[test]
fn suite_equality_is_identity_equality() {
    let a = tls13_aes_128_gcm_sha256();
    let b = tls13_aes_128_gcm_sha256();
    let c = tls13_aes_256_gcm_sha384();
    assert!(a == b);
    assert!(a != c);
}

#[test]
fn key_and_tag_lengths() {
    assert_eq!(BulkAlgorithm::Aes128Gcm.key_len(), 16);
    assert_eq!(BulkAlgorithm::Aes256Gcm.key_len(), 32);
    assert_eq!(BulkAlgorithm::Chacha20Poly1305.key_len(), 32);
    assert_eq!(BulkAlgorithm::Aes128Gcm.tag_len(), 16);
    assert_eq!(BulkAlgorithm::Aes256Gcm.tag_len(), 16);
    assert_eq!(BulkAlgorithm::Chacha20Poly1305.tag_len(), 16);
}

#[test]
fn resumption_requires_matching_hash() {
    let aes128 = tls13_aes_128_gcm_sha256();
    let aes256 = tls13_aes_256_gcm_sha384();
    let chacha = tls13_chacha20_poly1305_sha256();

    // Same hash algorithm (SHA-256): resumption allowed, prior suite is
    // handed back.
    let resumed = aes128.can_resume_from(&chacha).expect("same hash");
    assert_eq!(
        resumed.common.suite,
        CipherSuite::Tls13Chacha20Poly1305Sha256
    );
    assert!(chacha.can_resume_from(&aes128).is_some());
    assert!(aes128.can_resume_from(&aes128).is_some());
    assert!(aes256.can_resume_from(&aes256).is_some());

    // Differing hash algorithms: resumption refused both ways.
    assert!(aes128.can_resume_from(&aes256).is_none());
    assert!(aes256.can_resume_from(&aes128).is_none());
    assert!(aes256.can_resume_from(&chacha).is_none());
}

#[test]
fn suite_fields_describe_their_algorithms() {
    let aes128 = tls13_aes_128_gcm_sha256();
    assert_eq!(aes128.common.bulk, BulkAlgorithm::Aes128Gcm);
    assert_eq!(aes128.common.hash_algorithm, HashAlgorithm::Sha256);
    assert_eq!(aes128.hmac_algorithm, HashAlgorithm::Sha256);
    let aes256 = tls13_aes_256_gcm_sha384();
    assert_eq!(aes256.common.hash_algorithm, HashAlgorithm::Sha384);
    let chacha = tls13_chacha20_poly1305_sha256();
    assert_eq!(chacha.common.bulk, BulkAlgorithm::Chacha20Poly1305);
    let SupportedCipherSuite::Tls13(s) = SupportedCipherSuite::from(aes128);
    assert_eq!(s.common.suite, CipherSuite::Tls13Aes128GcmSha256);
}

#[test]
fn extract_keys_splits_key_salt_and_iv() {
    let iv_bytes: Vec<u8> = (0u8..12).collect();

    let secrets = BulkAlgorithm::Aes128Gcm.extract_keys(
        AeadKey::new(vec![7; 16]),
        Iv::new(iv_bytes.clone()),
    );
    match secrets {
        ConnectionTrafficSecrets::Aes128Gcm { key, salt, iv } => {
            assert_eq!(key, [7u8; 16]);
            assert_eq!(salt, [0, 1, 2, 3]);
            assert_eq!(iv, [4, 5, 6, 7, 8, 9, 10, 11]);
        }
        _ => panic!("wrong secret shape"),
    }

    let secrets = BulkAlgorithm::Aes256Gcm.extract_keys(
        AeadKey::new(vec![9; 32]),
        Iv::new(iv_bytes.clone()),
    );
    match secrets {
        ConnectionTrafficSecrets::Aes256Gcm { key, salt, iv } => {
            assert_eq!(key, [9u8; 32]);
            assert_eq!(salt, [0, 1, 2, 3]);
            assert_eq!(iv, [4, 5, 6, 7, 8, 9, 10, 11]);
        }
        _ => panic!("wrong secret shape"),
    }

    let secrets = BulkAlgorithm::Chacha20Poly1305.extract_keys(
        AeadKey::new(vec![3; 32]),
        Iv::new(iv_bytes.clone()),
    );
    match secrets {
        ConnectionTrafficSecrets::Chacha20Poly1305 { key, iv } => {
            assert_eq!(key, [3u8; 32]);
            assert_eq!(iv.to_vec(), iv_bytes);
        }
        _ => panic!("wrong secret shape"),
    }
}

#[test]
fn slice_to_array_copies_exactly() {
    let arr: [u8; 4] = rustls::cipher::slice_to_array(&[10, 20, 30, 40]);
    assert_eq!(arr, [10, 20, 30, 40]);
    let (k, s, i): ([u8; 2], [u8; 1], [u8; 3]) =
        rustls::cipher::slices_to_arrays(&[1, 2], &[3], &[4, 5, 6]);
    assert_eq!(k, [1, 2]);
    assert_eq!(s, [3]);
    assert_eq!(i, [4, 5, 6]);
}
