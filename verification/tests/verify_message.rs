//! The CertificateVerify signed-message format, byte for byte.

use rustls::verify::{
    client_context_bytes, construct_client_verify_message, construct_server_verify_message,
    construct_verify_message, server_context_bytes,
};

#[test]
fn client_message_for_zero_hash_is_exact() {
    let hash = vec![0u8; 32];
    let msg = construct_client_verify_message(&hash);
    assert_eq!(msg.len(), 64 + 34 + 32);
    assert_eq!(&msg[..64], &[0x20u8; 64][..]);
    assert_eq!(&msg[64..98], b"TLS 1.3, client CertificateVerify\0");
    assert_eq!(&msg[98..], &[0u8; 32][..]);
}

#[test]
fn server_message_uses_server_context() {
    let hash: Vec<u8> = (0u8..48).collect();
    let msg = construct_server_verify_message(&hash);
    assert_eq!(msg.len(), 64 + 34 + 48);
    assert_eq!(&msg[..64], &[0x20u8; 64][..]);
    assert_eq!(&msg[64..98], b"TLS 1.3, server CertificateVerify\0");
    assert_eq!(&msg[98..], &hash[..]);
}

#[test]
fn context_strings_carry_their_null_terminator() {
    let client = client_context_bytes();
    assert_eq!(client, b"TLS 1.3, client CertificateVerify\0".to_vec());
    let server = server_context_bytes();
    assert_eq!(server, b"TLS 1.3, server CertificateVerify\0".to_vec());
}

#[test]
fn generic_construction_concatenates() {
    let msg = construct_verify_message(&vec![0xaa, 0xbb], &vec![0x41, 0x00]);
    assert_eq!(msg.len(), 64 + 2 + 2);
    assert_eq!(&msg[..64], &[0x20u8; 64][..]);
    assert_eq!(&msg[64..], &[0x41, 0x00, 0xaa, 0xbb][..]);
}
