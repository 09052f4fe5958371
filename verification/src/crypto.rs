//! Trusted boundary to the cryptographic backend.
//!
//! Everything here is believed, not proved: each item's contract states what
//! the named backend function is documented (and shown by its source) to do,
//! and the rest of the library is verified against these contracts.

use vstd::prelude::*;

use crate::suites::{spec_key_len, spec_tag_len, BulkAlgorithm};
use crate::Error;

verus! {

/// Numeric tag telling the three AEAD algorithms apart inside the sealing
/// model `seal_of`.
pub open spec fn spec_aead_id(alg: BulkAlgorithm) -> int {
    match alg {
        BulkAlgorithm::Aes128Gcm => 1,
        BulkAlgorithm::Aes256Gcm => 2,
        BulkAlgorithm::Chacha20Poly1305 => 3,
    }
}

/// The ciphertext-plus-tag that AEAD sealing produces. Sealing is a pure
/// function of the algorithm, key, nonce, additional data and plaintext; its
/// value is named here, never spelled out.
pub uninterp spec fn seal_of(
    alg: int,
    key: Seq<u8>,
    nonce: Seq<u8>,
    aad: Seq<u8>,
    plaintext: Seq<u8>,
) -> Seq<u8>;

/// Relies on `ring::aead::LessSafeKey::seal_in_place_append_tag`: deterministic
/// AEAD sealing that encrypts the buffer in place and appends the tag. Its
/// source fails only on inputs vastly longer than a TLS record, so under the
/// length bound below it succeeds.
#[verifier::external_body]
pub(crate) fn aead_seal(
    alg: BulkAlgorithm,
    key: &Vec<u8>,
    nonce: &Vec<u8>,
    aad: &Vec<u8>,
    data: &mut Vec<u8>,
) -> (r: Result<(), Error>)
    requires
        key@.len() == spec_key_len(alg),
        nonce@.len() == 12,
        old(data)@.len() <= 0xffff,
    ensures
        r is Ok,
        final(data)@ == seal_of(spec_aead_id(alg), key@, nonce@, aad@, old(data)@),
        final(data)@.len() == old(data)@.len() + spec_tag_len(alg),
{
    let ring_alg = match alg {
        BulkAlgorithm::Aes128Gcm => &ring::aead::AES_128_GCM,
        BulkAlgorithm::Aes256Gcm => &ring::aead::AES_256_GCM,
        BulkAlgorithm::Chacha20Poly1305 => &ring::aead::CHACHA20_POLY1305,
    };
    let k = ring::aead::LessSafeKey::new(ring::aead::UnboundKey::new(ring_alg, key).unwrap());
    let n = ring::aead::Nonce::try_assume_unique_for_key(nonce).unwrap();
    match k.seal_in_place_append_tag(n, ring::aead::Aad::from(aad.as_slice()), data) {
        Ok(()) => Ok(()),
        Err(_) => Err(Error::EncryptError),
    }
}

/// Holds when the opened buffer `out`, reported to hold `n` plaintext bytes,
/// carries as its prefix some plaintext whose seal under the given parameters
/// is exactly the original buffer `ct`.
pub open spec fn spec_open_authentic(
    alg: BulkAlgorithm,
    key: Seq<u8>,
    nonce: Seq<u8>,
    aad: Seq<u8>,
    ct: Seq<u8>,
    n: int,
    out: Seq<u8>,
) -> bool {
    exists|pt: Seq<u8>|
        pt.len() == n && ct == #[trigger] seal_of(spec_aead_id(alg), key, nonce, aad, pt)
            && out.subrange(0, n) == pt
}

/// Holds when, for every plaintext whose seal under the given parameters is
/// the buffer `ct`, opening reported success with that plaintext's length and
/// left the plaintext as the prefix of `out`.
pub open spec fn spec_open_complete(
    alg: BulkAlgorithm,
    key: Seq<u8>,
    nonce: Seq<u8>,
    aad: Seq<u8>,
    ct: Seq<u8>,
    r: Result<usize, Error>,
    out: Seq<u8>,
) -> bool {
    forall|pt: Seq<u8>|
        ct == #[trigger] seal_of(spec_aead_id(alg), key, nonce, aad, pt) ==> (r matches Ok(n)
            && n == pt.len() && out.subrange(0, pt.len() as int) == pt)
}

/// Relies on `ring::aead::LessSafeKey::open_in_place`: authenticated
/// decryption. It succeeds exactly on buffers produced by sealing under the
/// same algorithm, key, nonce and additional data, and then recovers the
/// sealed bytes as a prefix of the buffer; everything else is rejected with
/// one undifferentiated error. The buffer's length never changes.
#[verifier::external_body]
pub(crate) fn aead_open(
    alg: BulkAlgorithm,
    key: &Vec<u8>,
    nonce: &Vec<u8>,
    aad: &Vec<u8>,
    data: &mut Vec<u8>,
) -> (r: Result<usize, Error>)
    requires
        key@.len() == spec_key_len(alg),
        nonce@.len() == 12,
    ensures
        final(data)@.len() == old(data)@.len(),
        r matches Ok(n) ==> n + spec_tag_len(alg) == old(data)@.len(),
        r matches Ok(n) ==> spec_open_authentic(alg, key@, nonce@, aad@, old(data)@, n as int, final(data)@),
        spec_open_complete(alg, key@, nonce@, aad@, old(data)@, r, final(data)@),
        r matches Err(e) ==> e == Error::DecryptError,
{
    let ring_alg = match alg {
        BulkAlgorithm::Aes128Gcm => &ring::aead::AES_128_GCM,
        BulkAlgorithm::Aes256Gcm => &ring::aead::AES_256_GCM,
        BulkAlgorithm::Chacha20Poly1305 => &ring::aead::CHACHA20_POLY1305,
    };
    let k = ring::aead::LessSafeKey::new(ring::aead::UnboundKey::new(ring_alg, key).unwrap());
    let n = ring::aead::Nonce::try_assume_unique_for_key(nonce).unwrap();
    match k.open_in_place(n, ring::aead::Aad::from(aad.as_slice()), data.as_mut_slice()) {
        Ok(plain) => Ok(plain.len()),
        Err(_) => Err(Error::DecryptError),
    }
}

/// The public key carried by an Ed25519 PKCS#8 key document, or nothing when
/// the document is not a well-formed Ed25519 key. A pure function of the
/// document's bytes; its value is named here, never spelled out.
pub uninterp spec fn ed25519_pub_of(der: Seq<u8>) -> Option<Seq<u8>>;

/// Relies on `ring::signature::Ed25519KeyPair::from_pkcs8_maybe_unchecked` and
/// `ring::signature::KeyPair::public_key`: parsing a PKCS#8 (v1 or v2)
/// Ed25519 key document and computing its 32-byte public key, a function of
/// the document's bytes alone.
#[verifier::external_body]
pub(crate) fn ed25519_public_key(der: &Vec<u8>) -> (r: Option<Vec<u8>>)
    ensures
        r matches Some(k) ==> ed25519_pub_of(der@) == Some(k@) && k@.len() == 32,
        r is None ==> ed25519_pub_of(der@) is None,
{
    match ring::signature::Ed25519KeyPair::from_pkcs8_maybe_unchecked(der) {
        Ok(kp) => Some(ring::signature::KeyPair::public_key(&kp).as_ref().to_vec()),
        Err(_) => None,
    }
}

} // verus!
