//! Record protection round trips and failure behaviour, across all three
//! AEAD algorithms.

use rustls::cipher::{
    make_nonce, make_tls13_aad, ContentType, Iv, AeadKey, OpaqueMessage, PlainMessage,
    ProtocolVersion,
};
use rustls::suites::BulkAlgorithm;
use rustls::Error;

fn key_for(alg: BulkAlgorithm, fill: u8) -> AeadKey {
    AeadKey::new(vec![fill; alg.key_len()])
}

fn iv_fixture() -> Iv {
    Iv::new((0u8..12).collect())
}

fn round_trip(alg: BulkAlgorithm, payload: Vec<u8>, typ: ContentType, seq: u64) {
    let enc = alg.encrypter(key_for(alg, 0x42), iv_fixture());
    let dec = alg.decrypter(key_for(alg, 0x42), iv_fixture());
    let plain = PlainMessage {
        typ,
        version: ProtocolVersion::Tls13,
        payload: payload.clone(),
    };
    let opaque = enc.encrypt(&plain, seq).expect("encryption must succeed");
    assert_eq!(opaque.typ, ContentType::ApplicationData);
    assert_eq!(opaque.version, ProtocolVersion::Tls12);
    assert_eq!(opaque.payload.len(), payload.len() + 1 + alg.tag_len());
    let recovered = dec.decrypt(opaque, seq).expect("decryption must succeed");
    assert_eq!(recovered.typ, typ);
    assert_eq!(recovered.version, ProtocolVersion::Tls13);
    assert_eq!(recovered.payload, payload);
}

#[test]
fn round_trip_aes_128_gcm() {
    round_trip(
        BulkAlgorithm::Aes128Gcm,
        vec![1, 2, 3, 4, 5],
        ContentType::Handshake,
        0,
    );
}

#[test]
fn round_trip_aes_256_gcm() {
    round_trip(
        BulkAlgorithm::Aes256Gcm,
        vec![0xff; 100],
        ContentType::ApplicationData,
        7,
    );
}

#[test]
fn round_trip_chacha20_poly1305() {
    round_trip(
        BulkAlgorithm::Chacha20Poly1305,
        vec![9, 8, 7],
        ContentType::Alert,
        u64::MAX,
    );
}

#[test]
fn round_trip_empty_payload() {
    round_trip(BulkAlgorithm::Aes128Gcm, vec![], ContentType::Handshake, 3);
}

#[test]
fn round_trip_payload_with_trailing_zeros() {
    // Zero bytes inside the payload must survive: only padding after the
    // content-type byte is stripped, and there is none here.
    round_trip(
        BulkAlgorithm::Chacha20Poly1305,
        vec![1, 2, 0, 0],
        ContentType::Handshake,
        11,
    );
}

#[test]
fn wrong_sequence_number_fails() {
    for alg in [
        BulkAlgorithm::Aes128Gcm,
        BulkAlgorithm::Aes256Gcm,
        BulkAlgorithm::Chacha20Poly1305,
    ] {
        let enc = alg.encrypter(key_for(alg, 0x42), iv_fixture());
        let dec = alg.decrypter(key_for(alg, 0x42), iv_fixture());
        let plain = PlainMessage {
            typ: ContentType::ApplicationData,
            version: ProtocolVersion::Tls13,
            payload: vec![1, 2, 3],
        };
        let opaque = enc.encrypt(&plain, 5).unwrap();
        assert!(matches!(dec.decrypt(opaque, 6), Err(Error::DecryptError)));
    }
}

#[test]
fn wrong_key_fails() {
    let alg = BulkAlgorithm::Aes128Gcm;
    let enc = alg.encrypter(key_for(alg, 0x42), iv_fixture());
    let dec = alg.decrypter(key_for(alg, 0x43), iv_fixture());
    let plain = PlainMessage {
        typ: ContentType::ApplicationData,
        version: ProtocolVersion::Tls13,
        payload: vec![1, 2, 3],
    };
    let opaque = enc.encrypt(&plain, 5).unwrap();
    assert!(matches!(dec.decrypt(opaque, 5), Err(Error::DecryptError)));
}

#[test]
fn flipping_any_single_bit_fails() {
    let alg = BulkAlgorithm::Aes128Gcm;
    let enc = alg.encrypter(key_for(alg, 0x42), iv_fixture());
    let dec = alg.decrypter(key_for(alg, 0x42), iv_fixture());
    let plain = PlainMessage {
        typ: ContentType::Handshake,
        version: ProtocolVersion::Tls13,
        payload: vec![0xde, 0xad, 0xbe],
    };
    let opaque = enc.encrypt(&plain, 1).unwrap();
    let bytes = opaque.payload.clone();
    for byte_index in 0..bytes.len() {
        for bit in 0..8 {
            let mut tampered = bytes.clone();
            tampered[byte_index] ^= 1u8 << bit;
            let msg = OpaqueMessage {
                typ: ContentType::ApplicationData,
                version: ProtocolVersion::Tls12,
                payload: tampered,
            };
            assert!(matches!(dec.decrypt(msg, 1), Err(Error::DecryptError)));
        }
    }
}

#[test]
fn shorter_than_tag_is_rejected() {
    for alg in [
        BulkAlgorithm::Aes128Gcm,
        BulkAlgorithm::Aes256Gcm,
        BulkAlgorithm::Chacha20Poly1305,
    ] {
        let dec = alg.decrypter(key_for(alg, 0x42), iv_fixture());
        for len in 0..alg.tag_len() {
            let msg = OpaqueMessage {
                typ: ContentType::ApplicationData,
                version: ProtocolVersion::Tls12,
                payload: vec![0; len],
            };
            assert!(matches!(dec.decrypt(msg, 0), Err(Error::DecryptError)));
        }
    }
}

#[test]
fn all_padding_inner_text_is_rejected() {
    // An inner plaintext that is nothing but zero bytes unpads to nothing
    // and must be rejected, even though authentication succeeds.
    let alg = BulkAlgorithm::Aes128Gcm;
    let enc = alg.encrypter(key_for(alg, 0x42), iv_fixture());
    let dec = alg.decrypter(key_for(alg, 0x42), iv_fixture());
    let plain = PlainMessage {
        typ: ContentType::Unknown(0),
        version: ProtocolVersion::Tls13,
        payload: vec![],
    };
    let opaque = enc.encrypt(&plain, 9).unwrap();
    assert!(matches!(dec.decrypt(opaque, 9), Err(Error::DecryptError)));
}

#[test]
fn nonce_is_iv_xor_big_endian_sequence() {
    let iv = Iv::new(vec![0x10; 12]);
    let nonce = make_nonce(&iv, 0x0102030405060708);
    assert_eq!(
        nonce,
        vec![
            0x10, 0x10, 0x10, 0x10, // fixed high bytes
            0x10 ^ 0x01,
            0x10 ^ 0x02,
            0x10 ^ 0x03,
            0x10 ^ 0x04,
            0x10 ^ 0x05,
            0x10 ^ 0x06,
            0x10 ^ 0x07,
            0x10 ^ 0x08,
        ]
    );
    // Sequence zero leaves the IV untouched.
    assert_eq!(make_nonce(&iv, 0), vec![0x10; 12]);
}

#[test]
fn aad_is_header_with_big_endian_length() {
    assert_eq!(make_tls13_aad(0x1234), vec![23, 3, 3, 0x12, 0x34]);
    assert_eq!(make_tls13_aad(21), vec![23, 3, 3, 0, 21]);
}

#[test]
fn content_type_bytes() {
    assert_eq!(ContentType::ChangeCipherSpec.encoded_byte(), 20);
    assert_eq!(ContentType::Alert.encoded_byte(), 21);
    assert_eq!(ContentType::Handshake.encoded_byte(), 22);
    assert_eq!(ContentType::ApplicationData.encoded_byte(), 23);
    assert_eq!(ContentType::Unknown(99).encoded_byte(), 99);
    assert_eq!(ContentType::from_byte(22), ContentType::Handshake);
    assert_eq!(ContentType::from_byte(99), ContentType::Unknown(99));
    assert_eq!(ProtocolVersion::Tls12.wire_value(), 0x0303);
    assert_eq!(ProtocolVersion::Tls13.wire_value(), 0x0304);
}
