//! Record protection for TLS 1.3.
//!
//! One encrypter or decrypter protects one direction of one connection, under
//! one derived traffic key and base IV. Sequence numbers are owned by the
//! caller and must never repeat under the same key; the per-record nonce is
//! the base IV with the big-endian sequence number folded into its low eight
//! bytes. The additional authenticated data is the five-byte record header:
//! application-data content type, the TLS 1.2 legacy version, and the
//! two-byte length of the ciphertext plus tag.

use vstd::prelude::*;

use crate::crypto::{aead_open, aead_seal, seal_of, spec_aead_id};
use crate::suites::{spec_key_len, spec_tag_len, BulkAlgorithm};
use crate::Error;

verus! {

/// The content type of a TLS record.
#[derive(Clone, Copy, Debug, PartialEq, Eq, Structural)]
pub enum ContentType {
    ChangeCipherSpec,
    Alert,
    Handshake,
    ApplicationData,
    Unknown(u8),
}

impl ContentType {
    /// The wire byte of this content type.
    pub open spec fn spec_encoded(self) -> u8 {
        match self {
            ContentType::ChangeCipherSpec => 20,
            ContentType::Alert => 21,
            ContentType::Handshake => 22,
            ContentType::ApplicationData => 23,
            ContentType::Unknown(b) => b,
        }
    }

    /// The wire byte of this content type.
    pub fn encoded_byte(&self) -> (b: u8)
        ensures
            b == self.spec_encoded(),
    {
        match self {
            ContentType::ChangeCipherSpec => 20,
            ContentType::Alert => 21,
            ContentType::Handshake => 22,
            ContentType::ApplicationData => 23,
            ContentType::Unknown(b) => *b,
        }
    }

    /// The content type a wire byte stands for.
    pub open spec fn spec_of_byte(b: u8) -> ContentType {
        if b == 20 {
            ContentType::ChangeCipherSpec
        } else if b == 21 {
            ContentType::Alert
        } else if b == 22 {
            ContentType::Handshake
        } else if b == 23 {
            ContentType::ApplicationData
        } else {
            ContentType::Unknown(b)
        }
    }

    /// The content type a wire byte stands for.
    pub fn from_byte(b: u8) -> (t: ContentType)
        ensures
            t == ContentType::spec_of_byte(b),
    {
        if b == 20 {
            ContentType::ChangeCipherSpec
        } else if b == 21 {
            ContentType::Alert
        } else if b == 22 {
            ContentType::Handshake
        } else if b == 23 {
            ContentType::ApplicationData
        } else {
            ContentType::Unknown(b)
        }
    }
}

/// The protocol version tag carried by a record.
#[derive(Clone, Copy, Debug, PartialEq, Eq, Structural)]
pub enum ProtocolVersion {
    Tls12,
    Tls13,
}

impl ProtocolVersion {
    /// The registered two-byte value of this version.
    pub open spec fn spec_wire_value(self) -> u16 {
        match self {
            ProtocolVersion::Tls12 => 0x0303,
            ProtocolVersion::Tls13 => 0x0304,
        }
    }

    /// The registered two-byte value of this version.
    pub fn wire_value(&self) -> (v: u16)
        ensures
            v == self.spec_wire_value(),
    {
        match self {
            ProtocolVersion::Tls12 => 0x0303,
            ProtocolVersion::Tls13 => 0x0304,
        }
    }
}

/// A message before record protection: real content type, version, and
/// plaintext payload.
#[derive(Debug)]
pub struct PlainMessage {
    pub typ: ContentType,
    pub version: ProtocolVersion,
    pub payload: Vec<u8>,
}

/// A message after record protection: the outer (opaque) content type and
/// version, and a payload holding ciphertext plus tag.
#[derive(Debug)]
pub struct OpaqueMessage {
    pub typ: ContentType,
    pub version: ProtocolVersion,
    pub payload: Vec<u8>,
}

/// A derived AEAD traffic key. Owned by the protector derived for; its length
/// must equal the algorithm's declared key length.
pub struct AeadKey {
    bytes: Vec<u8>,
}

impl View for AeadKey {
    type V = Seq<u8>;

    closed spec fn view(&self) -> Seq<u8> {
        self.bytes@
    }
}

impl AeadKey {
    /// Wrap derived key material.
    pub fn new(bytes: Vec<u8>) -> (k: AeadKey)
        ensures
            k@ == bytes@,
    {
        AeadKey { bytes }
    }

    /// The key's length in bytes.
    pub fn len(&self) -> (n: usize)
        ensures
            n == self@.len(),
    {
        self.bytes.len()
    }
}

/// A twelve-byte base IV for one direction of traffic.
pub struct Iv {
    bytes: Vec<u8>,
}

impl View for Iv {
    type V = Seq<u8>;

    closed spec fn view(&self) -> Seq<u8> {
        self.bytes@
    }
}

impl Iv {
    /// Wrap a derived base IV; it must be exactly twelve bytes.
    pub fn new(bytes: Vec<u8>) -> (iv: Iv)
        requires
            bytes@.len() == 12,
        ensures
            iv@ == bytes@,
    {
        Iv { bytes }
    }
}

/// The per-record nonce: the base IV with the big-endian sequence number
/// XORed into its low eight bytes.
pub open spec fn spec_nonce(iv: Seq<u8>, seq_num: u64) -> Seq<u8>
    recommends
        iv.len() == 12,
{
    seq![
        iv[0],
        iv[1],
        iv[2],
        iv[3],
        iv[4] ^ (seq_num >> 56) as u8,
        iv[5] ^ (seq_num >> 48) as u8,
        iv[6] ^ (seq_num >> 40) as u8,
        iv[7] ^ (seq_num >> 32) as u8,
        iv[8] ^ (seq_num >> 24) as u8,
        iv[9] ^ (seq_num >> 16) as u8,
        iv[10] ^ (seq_num >> 8) as u8,
        iv[11] ^ (seq_num as u8),
    ]
}

/// Combine the base IV with a sequence number into the per-record nonce.
pub fn make_nonce(iv: &Iv, seq_num: u64) -> (r: Vec<u8>)
    requires
        iv@.len() == 12,
    ensures
        r@ == spec_nonce(iv@, seq_num),
        r@.len() == 12,
{
    let mut out: Vec<u8> = Vec::new();
    out.push(iv.bytes[0]);
    out.push(iv.bytes[1]);
    out.push(iv.bytes[2]);
    out.push(iv.bytes[3]);
    out.push(iv.bytes[4] ^ (#[verifier::truncate] ((seq_num >> 56) as u8)));
    out.push(iv.bytes[5] ^ (#[verifier::truncate] ((seq_num >> 48) as u8)));
    out.push(iv.bytes[6] ^ (#[verifier::truncate] ((seq_num >> 40) as u8)));
    out.push(iv.bytes[7] ^ (#[verifier::truncate] ((seq_num >> 32) as u8)));
    out.push(iv.bytes[8] ^ (#[verifier::truncate] ((seq_num >> 24) as u8)));
    out.push(iv.bytes[9] ^ (#[verifier::truncate] ((seq_num >> 16) as u8)));
    out.push(iv.bytes[10] ^ (#[verifier::truncate] ((seq_num >> 8) as u8)));
    out.push(iv.bytes[11] ^ (#[verifier::truncate] (seq_num as u8)));
    proof {
        assert(out@ =~= spec_nonce(iv@, seq_num));
    }
    out
}

/// Law: distinct sequence numbers give distinct nonces under one base IV.
/// This is the core safety invariant of the whole scheme: as long as the
/// caller never hands the same sequence number twice to one key, no nonce is
/// ever reused, and a record protected under one sequence number is never
/// the seal belonging to another.
pub proof fn lemma_nonce_injective(iv: Seq<u8>, s1: u64, s2: u64)
    requires
        iv.len() == 12,
        s1 != s2,
    ensures
        spec_nonce(iv, s1) != spec_nonce(iv, s2),
{
    if spec_nonce(iv, s1) == spec_nonce(iv, s2) {
        let x4 = iv[4];
        let x5 = iv[5];
        let x6 = iv[6];
        let x7 = iv[7];
        let x8 = iv[8];
        let x9 = iv[9];
        let x10 = iv[10];
        let x11 = iv[11];
        assert(spec_nonce(iv, s1)[4] == x4 ^ (s1 >> 56) as u8);
        assert(spec_nonce(iv, s2)[4] == x4 ^ (s2 >> 56) as u8);
        assert(spec_nonce(iv, s1)[5] == x5 ^ (s1 >> 48) as u8);
        assert(spec_nonce(iv, s2)[5] == x5 ^ (s2 >> 48) as u8);
        assert(spec_nonce(iv, s1)[6] == x6 ^ (s1 >> 40) as u8);
        assert(spec_nonce(iv, s2)[6] == x6 ^ (s2 >> 40) as u8);
        assert(spec_nonce(iv, s1)[7] == x7 ^ (s1 >> 32) as u8);
        assert(spec_nonce(iv, s2)[7] == x7 ^ (s2 >> 32) as u8);
        assert(spec_nonce(iv, s1)[8] == x8 ^ (s1 >> 24) as u8);
        assert(spec_nonce(iv, s2)[8] == x8 ^ (s2 >> 24) as u8);
        assert(spec_nonce(iv, s1)[9] == x9 ^ (s1 >> 16) as u8);
        assert(spec_nonce(iv, s2)[9] == x9 ^ (s2 >> 16) as u8);
        assert(spec_nonce(iv, s1)[10] == x10 ^ (s1 >> 8) as u8);
        assert(spec_nonce(iv, s2)[10] == x10 ^ (s2 >> 8) as u8);
        assert(spec_nonce(iv, s1)[11] == x11 ^ (s1 as u8));
        assert(spec_nonce(iv, s2)[11] == x11 ^ (s2 as u8));
        assert(s1 == s2) by (bit_vector)
            requires
                x4 ^ (s1 >> 56) as u8 == x4 ^ (s2 >> 56) as u8,
                x5 ^ (s1 >> 48) as u8 == x5 ^ (s2 >> 48) as u8,
                x6 ^ (s1 >> 40) as u8 == x6 ^ (s2 >> 40) as u8,
                x7 ^ (s1 >> 32) as u8 == x7 ^ (s2 >> 32) as u8,
                x8 ^ (s1 >> 24) as u8 == x8 ^ (s2 >> 24) as u8,
                x9 ^ (s1 >> 16) as u8 == x9 ^ (s2 >> 16) as u8,
                x10 ^ (s1 >> 8) as u8 == x10 ^ (s2 >> 8) as u8,
                x11 ^ (s1 as u8) == x11 ^ (s2 as u8),
        ;
        assert(false);
    }
}

/// The five-byte additional authenticated data of a protected record:
/// application data, the TLS 1.2 legacy version, and the big-endian length
/// of the ciphertext plus tag.
pub open spec fn spec_aad(len: int) -> Seq<u8>
    recommends
        0 <= len <= 0xffff,
{
    seq![23u8, 3u8, 3u8, (len / 256) as u8, (len % 256) as u8]
}

/// Build the additional authenticated data for a record of the given total
/// (ciphertext plus tag) length.
pub fn make_tls13_aad(len: usize) -> (r: Vec<u8>)
    requires
        len <= 0xffff,
    ensures
        r@ == spec_aad(len as int),
{
    let mut out: Vec<u8> = Vec::new();
    out.push(23);
    out.push(3);
    out.push(3);
    out.push((len / 256) as u8);
    out.push((len % 256) as u8);
    proof {
        assert(out@ =~= spec_aad(len as int));
    }
    out
}

/// The inner plaintext with its trailing zero padding removed.
pub open spec fn spec_unpad(s: Seq<u8>) -> Seq<u8>
    decreases s.len(),
{
    if s.len() == 0 {
        s
    } else if s.last() == 0 {
        spec_unpad(s.drop_last())
    } else {
        s
    }
}

/// The ciphertext-plus-tag of a record whose inner plaintext is `inner`,
/// protected under `alg`, `key` and the nonce derived from `iv` and
/// `seq_num`, with the additional data built from total length `ct_len`.
pub open spec fn spec_record_seal(
    alg: BulkAlgorithm,
    key: Seq<u8>,
    iv: Seq<u8>,
    seq_num: u64,
    inner: Seq<u8>,
    ct_len: int,
) -> Seq<u8> {
    seal_of(spec_aead_id(alg), key, spec_nonce(iv, seq_num), spec_aad(ct_len), inner)
}

/// Decryption under (`alg`, `key`, `iv`, `seq_num`) accepts `ct` exactly when
/// `ct` is the seal of some inner plaintext of the right length whose
/// unpadded form is nonempty.
pub open spec fn spec_decrypt_accepts(
    alg: BulkAlgorithm,
    key: Seq<u8>,
    iv: Seq<u8>,
    seq_num: u64,
    ct: Seq<u8>,
) -> bool {
    exists|pt: Seq<u8>|
        ct == #[trigger] spec_record_seal(alg, key, iv, seq_num, pt, ct.len() as int) && pt.len()
            + spec_tag_len(alg) == ct.len() && spec_unpad(pt).len() > 0
}

/// The plain message `p` is what decryption under (`alg`, `key`, `iv`,
/// `seq_num`) recovers from `ct`: for every inner plaintext sealing to `ct`,
/// `p` carries the content type named by the unpadded plaintext's last byte,
/// the bytes before it as payload, and the TLS 1.3 version.
pub open spec fn spec_recovered(
    alg: BulkAlgorithm,
    key: Seq<u8>,
    iv: Seq<u8>,
    seq_num: u64,
    ct: Seq<u8>,
    p: PlainMessage,
) -> bool {
    forall|pt: Seq<u8>|
        ct == #[trigger] spec_record_seal(alg, key, iv, seq_num, pt, ct.len() as int) ==> {
            &&& spec_unpad(pt).len() > 0
            &&& p.typ == ContentType::spec_of_byte(spec_unpad(pt).last())
            &&& p.payload@ == spec_unpad(pt).drop_last()
            &&& p.version == ProtocolVersion::Tls13
        }
}

/// Encrypts outgoing records for one direction of one connection.
pub struct Tls13MessageEncrypter {
    alg: BulkAlgorithm,
    key: AeadKey,
    iv: Iv,
}

/// Decrypts incoming records for one direction of one connection.
pub struct Tls13MessageDecrypter {
    alg: BulkAlgorithm,
    key: AeadKey,
    iv: Iv,
}

impl BulkAlgorithm {
    /// Bind a derived key and base IV into an encrypter for this algorithm.
    pub fn encrypter(&self, key: AeadKey, iv: Iv) -> (e: Tls13MessageEncrypter)
        requires
            key@.len() == spec_key_len(*self),
            iv@.len() == 12,
        ensures
            e.wf(),
            e.spec_alg() == *self,
            e.spec_key() == key@,
            e.spec_iv() == iv@,
    {
        Tls13MessageEncrypter { alg: *self, key, iv }
    }

    /// Bind a derived key and base IV into a decrypter for this algorithm.
    pub fn decrypter(&self, key: AeadKey, iv: Iv) -> (d: Tls13MessageDecrypter)
        requires
            key@.len() == spec_key_len(*self),
            iv@.len() == 12,
        ensures
            d.wf(),
            d.spec_alg() == *self,
            d.spec_key() == key@,
            d.spec_iv() == iv@,
    {
        Tls13MessageDecrypter { alg: *self, key, iv }
    }
}

impl Tls13MessageEncrypter {
    /// The algorithm this encrypter uses.
    pub closed spec fn spec_alg(&self) -> BulkAlgorithm {
        self.alg
    }

    /// The traffic key this encrypter holds.
    pub closed spec fn spec_key(&self) -> Seq<u8> {
        self.key@
    }

    /// The base IV this encrypter holds.
    pub closed spec fn spec_iv(&self) -> Seq<u8> {
        self.iv@
    }

    /// The key matches the algorithm's key length and the IV is twelve bytes.
    pub open spec fn wf(&self) -> bool {
        self.spec_key().len() == spec_key_len(self.spec_alg()) && self.spec_iv().len() == 12
    }

    /// Protect one outgoing record.
    ///
    /// The plaintext's content-type byte is appended to the payload, the
    /// whole is sealed, and the result is tagged as opaque application data
    /// under the legacy TLS 1.2 version. The caller owns `seq_num` and must
    /// never reuse it under this key.
    pub fn encrypt(&self, msg: &PlainMessage, seq_num: u64) -> (r: Result<OpaqueMessage, Error>)
        requires
            self.wf(),
            msg.payload@.len() + 1 + spec_tag_len(self.spec_alg()) <= 0xffff,
        ensures
            r is Ok,
            r matches Ok(m) ==> m.typ == ContentType::ApplicationData,
            r matches Ok(m) ==> m.version == ProtocolVersion::Tls12,
            r matches Ok(m) ==> m.payload@.len() == msg.payload@.len() + 1 + spec_tag_len(self.spec_alg()),
            r matches Ok(m) ==> m.payload@ == spec_record_seal(self.spec_alg(), self.spec_key(), self.spec_iv(), seq_num, msg.payload@.push(msg.typ.spec_encoded()), (msg.payload@.len() + 1 + spec_tag_len(self.spec_alg())) as int),
    {
        let tag_len = self.alg.tag_len();
        let total_len = msg.payload.len() + 1 + tag_len;
        let mut payload: Vec<u8> = Vec::new();
        let mut i: usize = 0;
        while i < msg.payload.len()
            invariant
                i <= msg.payload@.len(),
                payload@ == msg.payload@.subrange(0, i as int),
            decreases msg.payload@.len() - i,
        {
            payload.push(msg.payload[i]);
            i = i + 1;
        }
        proof {
            assert(payload@ =~= msg.payload@);
        }
        payload.push(msg.typ.encoded_byte());
        let nonce = make_nonce(&self.iv, seq_num);
        let aad = make_tls13_aad(total_len);
        match aead_seal(self.alg, &self.key.bytes, &nonce, &aad, &mut payload) {
            Ok(()) => Ok(
                OpaqueMessage {
                    typ: ContentType::ApplicationData,
                    version: ProtocolVersion::Tls12,
                    payload,
                },
            ),
            Err(e) => Err(e),
        }
    }
}

impl Tls13MessageDecrypter {
    /// The algorithm this decrypter uses.
    pub closed spec fn spec_alg(&self) -> BulkAlgorithm {
        self.alg
    }

    /// The traffic key this decrypter holds.
    pub closed spec fn spec_key(&self) -> Seq<u8> {
        self.key@
    }

    /// The base IV this decrypter holds.
    pub closed spec fn spec_iv(&self) -> Seq<u8> {
        self.iv@
    }

    /// The key matches the algorithm's key length and the IV is twelve bytes.
    pub open spec fn wf(&self) -> bool {
        self.spec_key().len() == spec_key_len(self.spec_alg()) && self.spec_iv().len() == 12
    }

    /// Unprotect one incoming record.
    ///
    /// Anything shorter than the tag is rejected before any cryptography is
    /// attempted. Every failure — short input, authentication failure, or a
    /// padding that leaves nothing — collapses into the one undifferentiated
    /// decryption error. On success the trailing padding and content-type
    /// byte are stripped off and the real content type is recovered.
    pub fn decrypt(&self, msg: OpaqueMessage, seq_num: u64) -> (r: Result<PlainMessage, Error>)
        requires
            self.wf(),
            msg.payload@.len() <= 0xffff,
        ensures
            msg.payload@.len() < spec_tag_len(self.spec_alg()) ==> r is Err,
            r is Ok <==> spec_decrypt_accepts(self.spec_alg(), self.spec_key(), self.spec_iv(), seq_num, msg.payload@),
            r matches Ok(p) ==> spec_recovered(self.spec_alg(), self.spec_key(), self.spec_iv(), seq_num, msg.payload@, p),
            r matches Err(e) ==> e == Error::DecryptError,
    {
        let ghost ct: Seq<u8> = msg.payload@;
        let tag_len = self.alg.tag_len();
        let mut payload: Vec<u8> = msg.payload;
        if payload.len() < tag_len {
            proof {
                lemma_short_input_not_accepted(self.spec_alg(), self.spec_key(), self.spec_iv(), seq_num, ct);
            }
            return Err(Error::DecryptError);
        }
        let nonce = make_nonce(&self.iv, seq_num);
        let aad = make_tls13_aad(payload.len());
        let res = aead_open(self.alg, &self.key.bytes, &nonce, &aad, &mut payload);
        let plain_len: usize = match res {
            Ok(n) => n,
            Err(e) => {
                proof {
                    if spec_decrypt_accepts(self.spec_alg(), self.spec_key(), self.spec_iv(), seq_num, ct) {
                        let pt = choose|pt: Seq<u8>|
                            ct == #[trigger] spec_record_seal(self.spec_alg(), self.spec_key(), self.spec_iv(), seq_num, pt, ct.len() as int) && pt.len() + spec_tag_len(self.spec_alg()) == ct.len() && spec_unpad(pt).len() > 0;
                        assert(ct == seal_of(spec_aead_id(self.spec_alg()), self.spec_key(), spec_nonce(self.spec_iv(), seq_num), spec_aad(ct.len() as int), pt));
                        assert(false);
                    }
                }
                return Err(e);
            },
        };
        let ghost opened: Seq<u8> = payload@;
        let ghost inner: Seq<u8> = opened.subrange(0, plain_len as int);
        proof {
            let pt0 = choose|pt: Seq<u8>|
                pt.len() == plain_len as int && ct == #[trigger] seal_of(spec_aead_id(self.spec_alg()), self.spec_key(), spec_nonce(self.spec_iv(), seq_num), spec_aad(ct.len() as int), pt) && opened.subrange(0, plain_len as int) == pt;
            assert(inner == pt0);
            assert(ct == spec_record_seal(self.spec_alg(), self.spec_key(), self.spec_iv(), seq_num, inner, ct.len() as int));
            assert forall|pt: Seq<u8>|
                ct == #[trigger] spec_record_seal(self.spec_alg(), self.spec_key(), self.spec_iv(), seq_num, pt, ct.len() as int) implies pt == inner by {
                assert(ct == seal_of(spec_aead_id(self.spec_alg()), self.spec_key(), spec_nonce(self.spec_iv(), seq_num), spec_aad(ct.len() as int), pt));
            }
        }
        payload.truncate(plain_len);
        proof {
            assert(payload@ == inner);
        }
        while payload.len() > 0 && payload[payload.len() - 1] == 0
            invariant
                spec_unpad(payload@) == spec_unpad(inner),
            decreases payload@.len(),
        {
            let _ = payload.pop();
        }
        proof {
            assert(spec_unpad(payload@) == payload@);
            assert(payload@ == spec_unpad(inner));
        }
        if payload.len() == 0 {
            proof {
                lemma_empty_unpad_not_accepted(self.spec_alg(), self.spec_key(), self.spec_iv(), seq_num, ct, inner);
            }
            return Err(Error::DecryptError);
        }
        let typ_byte = payload[payload.len() - 1];
        let _ = payload.pop();
        let p = PlainMessage {
            typ: ContentType::from_byte(typ_byte),
            version: ProtocolVersion::Tls13,
            payload,
        };
        proof {
            lemma_accept_witness(self.spec_alg(), self.spec_key(), self.spec_iv(), seq_num, ct, inner);
            assert forall|pt: Seq<u8>|
                ct == #[trigger] spec_record_seal(self.spec_alg(), self.spec_key(), self.spec_iv(), seq_num, pt, ct.len() as int) implies {
                &&& spec_unpad(pt).len() > 0
                &&& p.typ == ContentType::spec_of_byte(spec_unpad(pt).last())
                &&& p.payload@ == spec_unpad(pt).drop_last()
                &&& p.version == ProtocolVersion::Tls13
            } by {
                assert(ct == seal_of(spec_aead_id(self.spec_alg()), self.spec_key(), spec_nonce(self.spec_iv(), seq_num), spec_aad(ct.len() as int), pt));
                assert(pt == inner);
            }
            assert(spec_recovered(self.spec_alg(), self.spec_key(), self.spec_iv(), seq_num, ct, p));
        }
        Ok(p)
    }
}

/// Live key material for one direction, split the way an external transport
/// expects it: the key, and the IV split into salt and per-record part where
/// the algorithm uses an implicit salt.
pub enum ConnectionTrafficSecrets {
    Chacha20Poly1305 { key: [u8; 32], iv: [u8; 12] },
    Aes128Gcm { key: [u8; 16], salt: [u8; 4], iv: [u8; 8] },
    Aes256Gcm { key: [u8; 32], salt: [u8; 4], iv: [u8; 8] },
}

/// Copy a slice of exactly `N` bytes into a fixed-size array.
pub fn slice_to_array<const N: usize>(slice: &[u8]) -> (r: [u8; N])
    requires
        slice@.len() == N,
    ensures
        r@ == slice@,
{
    let mut out: [u8; N] = [0u8; N];
    let mut i: usize = 0;
    while i < N
        invariant
            i <= N,
            slice@.len() == N,
            out@.len() == N,
            forall|k: int| 0 <= k < i ==> out@[k] == slice@[k],
        decreases N - i,
    {
        out[i] = slice[i];
        i = i + 1;
    }
    proof {
        assert(out@ =~= slice@);
    }
    out
}

/// Copy three exact-length slices into fixed-size key, salt and IV arrays.
pub fn slices_to_arrays<const NK: usize, const NS: usize, const NI: usize>(
    k: &[u8],
    s: &[u8],
    i: &[u8],
) -> (r: ([u8; NK], [u8; NS], [u8; NI]))
    requires
        k@.len() == NK,
        s@.len() == NS,
        i@.len() == NI,
    ensures
        r.0@ == k@,
        r.1@ == s@,
        r.2@ == i@,
{
    (slice_to_array(k), slice_to_array(s), slice_to_array(i))
}

impl BulkAlgorithm {
    /// Expose raw key and IV material in the fixed-size split this algorithm
    /// uses, for handing live keys to an external transport.
    pub fn extract_keys(&self, key: AeadKey, iv: Iv) -> (r: ConnectionTrafficSecrets)
        requires
            key@.len() == spec_key_len(*self),
            iv@.len() == 12,
        ensures
            *self == BulkAlgorithm::Chacha20Poly1305 ==> (r matches ConnectionTrafficSecrets::Chacha20Poly1305 { key: k, iv: i } && k@ == key@ && i@ == iv@),
            *self == BulkAlgorithm::Aes128Gcm ==> (r matches ConnectionTrafficSecrets::Aes128Gcm { key: k, salt: s, iv: i } && k@ == key@ && s@ == iv@.subrange(0, 4) && i@ == iv@.subrange(4, 12)),
            *self == BulkAlgorithm::Aes256Gcm ==> (r matches ConnectionTrafficSecrets::Aes256Gcm { key: k, salt: s, iv: i } && k@ == key@ && s@ == iv@.subrange(0, 4) && i@ == iv@.subrange(4, 12)),
    {
        match self {
            BulkAlgorithm::Chacha20Poly1305 => {
                let k: [u8; 32] = slice_to_array(key.bytes.as_slice());
                let i: [u8; 12] = slice_to_array(iv.bytes.as_slice());
                ConnectionTrafficSecrets::Chacha20Poly1305 { key: k, iv: i }
            },
            BulkAlgorithm::Aes128Gcm => {
                let (k, s, i): ([u8; 16], [u8; 4], [u8; 8]) = slices_to_arrays(
                    key.bytes.as_slice(),
                    vstd::slice::slice_subrange(iv.bytes.as_slice(), 0, 4),
                    vstd::slice::slice_subrange(iv.bytes.as_slice(), 4, 12),
                );
                ConnectionTrafficSecrets::Aes128Gcm { key: k, salt: s, iv: i }
            },
            BulkAlgorithm::Aes256Gcm => {
                let (k, s, i): ([u8; 32], [u8; 4], [u8; 8]) = slices_to_arrays(
                    key.bytes.as_slice(),
                    vstd::slice::slice_subrange(iv.bytes.as_slice(), 0, 4),
                    vstd::slice::slice_subrange(iv.bytes.as_slice(), 4, 12),
                );
                ConnectionTrafficSecrets::Aes256Gcm { key: k, salt: s, iv: i }
            },
        }
    }
}

/// A ciphertext shorter than the tag is never the seal of anything of the
/// right length, so decryption never owes success on it.
proof fn lemma_short_input_not_accepted(
    alg: BulkAlgorithm,
    key: Seq<u8>,
    iv: Seq<u8>,
    seq_num: u64,
    ct: Seq<u8>,
)
    requires
        ct.len() < spec_tag_len(alg),
    ensures
        !spec_decrypt_accepts(alg, key, iv, seq_num, ct),
{
    if spec_decrypt_accepts(alg, key, iv, seq_num, ct) {
        let pt = choose|pt: Seq<u8>|
            ct == #[trigger] spec_record_seal(alg, key, iv, seq_num, pt, ct.len() as int)
                && pt.len() + spec_tag_len(alg) == ct.len() && spec_unpad(pt).len() > 0;
        assert(false);
    }
}

/// When the recovered inner plaintext unpads to nothing, the ciphertext is
/// not accepted: every plaintext it seals equals the recovered one.
proof fn lemma_empty_unpad_not_accepted(
    alg: BulkAlgorithm,
    key: Seq<u8>,
    iv: Seq<u8>,
    seq_num: u64,
    ct: Seq<u8>,
    inner: Seq<u8>,
)
    requires
        ct == spec_record_seal(alg, key, iv, seq_num, inner, ct.len() as int),
        spec_unpad(inner).len() == 0,
        forall|pt: Seq<u8>|
            ct == #[trigger] spec_record_seal(alg, key, iv, seq_num, pt, ct.len() as int) ==> pt
                == inner,
    ensures
        !spec_decrypt_accepts(alg, key, iv, seq_num, ct),
{
    if spec_decrypt_accepts(alg, key, iv, seq_num, ct) {
        let pt = choose|pt: Seq<u8>|
            ct == #[trigger] spec_record_seal(alg, key, iv, seq_num, pt, ct.len() as int)
                && pt.len() + spec_tag_len(alg) == ct.len() && spec_unpad(pt).len() > 0;
        assert(pt == inner);
        assert(false);
    }
}

/// Law: a record protected and then unprotected under the same key, IV and
/// sequence number is accepted, and what is recovered is exactly the original
/// content type and payload.
///
/// `ct` is what `encrypt` produces for a plaintext `payload` with content
/// type `typ` (its `ensures` gives both hypotheses about `ct`); the
/// conclusions are precisely `decrypt`'s success condition on `ct` and the
/// statement that any message satisfying `decrypt`'s recovery condition
/// carries `typ` and `payload` unchanged. The content type must be one a
/// wire byte can name again, and not the padding byte zero.
pub proof fn lemma_record_round_trip(
    alg: BulkAlgorithm,
    key: Seq<u8>,
    iv: Seq<u8>,
    typ: ContentType,
    payload: Seq<u8>,
    seq_num: u64,
    ct: Seq<u8>,
)
    requires
        typ.spec_encoded() != 0,
        ContentType::spec_of_byte(typ.spec_encoded()) == typ,
        ct == spec_record_seal(alg, key, iv, seq_num, payload.push(typ.spec_encoded()), ct.len() as int),
        ct.len() == payload.len() + 1 + spec_tag_len(alg),
    ensures
        spec_decrypt_accepts(alg, key, iv, seq_num, ct),
        forall|p: PlainMessage|
            #[trigger] spec_recovered(alg, key, iv, seq_num, ct, p) ==> p.typ == typ && p.payload@
                == payload && p.version == ProtocolVersion::Tls13,
{
    let inner = payload.push(typ.spec_encoded());
    assert(inner.last() == typ.spec_encoded());
    assert(spec_unpad(inner) == inner);
    assert(inner.drop_last() =~= payload);
    lemma_accept_witness(alg, key, iv, seq_num, ct, inner);
    assert forall|p: PlainMessage|
        #[trigger] spec_recovered(alg, key, iv, seq_num, ct, p) implies p.typ == typ && p.payload@
        == payload && p.version == ProtocolVersion::Tls13 by {
        assert(ct == spec_record_seal(alg, key, iv, seq_num, inner, ct.len() as int));
    }
}

/// The recovered inner plaintext itself witnesses acceptance.
proof fn lemma_accept_witness(
    alg: BulkAlgorithm,
    key: Seq<u8>,
    iv: Seq<u8>,
    seq_num: u64,
    ct: Seq<u8>,
    inner: Seq<u8>,
)
    requires
        ct == spec_record_seal(alg, key, iv, seq_num, inner, ct.len() as int),
        inner.len() + spec_tag_len(alg) == ct.len(),
        spec_unpad(inner).len() > 0,
    ensures
        spec_decrypt_accepts(alg, key, iv, seq_num, ct),
{
    assert(ct == spec_record_seal(alg, key, iv, seq_num, inner, ct.len() as int) && inner.len()
        + spec_tag_len(alg) == ct.len() && spec_unpad(inner).len() > 0);
}

} // verus!

