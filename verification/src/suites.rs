//! The catalog of supported TLS 1.3 cipher suites.
//!
//! Each suite pairs a hash algorithm (which also selects the HMAC used by the
//! key schedule) with an AEAD algorithm, plus usage limits. The catalog is a
//! small fixed list; suites cannot be registered dynamically.

use vstd::prelude::*;

verus! {

/// Protocol-registered identity of a TLS 1.3 cipher suite.
#[derive(Clone, Copy, Debug, PartialEq, Eq, Structural)]
pub enum CipherSuite {
    Tls13Aes128GcmSha256,
    Tls13Aes256GcmSha384,
    Tls13Chacha20Poly1305Sha256,
}

impl CipherSuite {
    /// The registered two-byte identifier of this suite.
    pub open spec fn spec_wire_value(self) -> u16 {
        match self {
            CipherSuite::Tls13Aes128GcmSha256 => 0x1301,
            CipherSuite::Tls13Aes256GcmSha384 => 0x1302,
            CipherSuite::Tls13Chacha20Poly1305Sha256 => 0x1303,
        }
    }

    /// The registered two-byte identifier of this suite.
    pub fn wire_value(&self) -> (v: u16)
        ensures
            v == self.spec_wire_value(),
    {
        match self {
            CipherSuite::Tls13Aes128GcmSha256 => 0x1301,
            CipherSuite::Tls13Aes256GcmSha384 => 0x1302,
            CipherSuite::Tls13Chacha20Poly1305Sha256 => 0x1303,
        }
    }
}

/// Hash algorithm of a suite; the key schedule's HMAC uses the same choice.
#[derive(Clone, Copy, Debug, PartialEq, Eq, Structural)]
pub enum HashAlgorithm {
    Sha256,
    Sha384,
}

/// The AEAD algorithm of a suite.
#[derive(Clone, Copy, Debug, PartialEq, Eq, Structural)]
pub enum BulkAlgorithm {
    Aes128Gcm,
    Aes256Gcm,
    Chacha20Poly1305,
}

/// Key length in bytes that `alg` requires.
pub open spec fn spec_key_len(alg: BulkAlgorithm) -> nat {
    match alg {
        BulkAlgorithm::Aes128Gcm => 16,
        BulkAlgorithm::Aes256Gcm => 32,
        BulkAlgorithm::Chacha20Poly1305 => 32,
    }
}

/// Authentication-tag length in bytes that `alg` appends; 16 for every
/// supported algorithm.
pub open spec fn spec_tag_len(alg: BulkAlgorithm) -> nat {
    16
}

impl BulkAlgorithm {
    /// Key length in bytes required by this algorithm; callers deriving keys
    /// size their buffers with this.
    pub fn key_len(&self) -> (n: usize)
        ensures
            n == spec_key_len(*self),
    {
        match self {
            BulkAlgorithm::Aes128Gcm => 16,
            BulkAlgorithm::Aes256Gcm => 32,
            BulkAlgorithm::Chacha20Poly1305 => 32,
        }
    }

    /// Authentication-tag length in bytes.
    pub fn tag_len(&self) -> (n: usize)
        ensures
            n == spec_tag_len(*self),
    {
        16
    }
}

/// Fields common to cipher suites of every protocol version.
#[derive(Clone, Copy, Debug)]
pub struct CipherSuiteCommon {
    /// The suite's registered identity.
    pub suite: CipherSuite,
    /// The AEAD algorithm the suite uses for record protection.
    pub bulk: BulkAlgorithm,
    /// The hash algorithm of the suite.
    pub hash_algorithm: HashAlgorithm,
}

/// A TLS 1.3 cipher suite: identity, hash, HMAC and AEAD choices, plus the
/// limits on how much traffic a single key may protect.
///
/// Two suite values are equal (`==`) exactly when their identities match.
#[derive(Clone, Copy, Debug)]
pub struct Tls13CipherSuite {
    /// Common cipher suite fields.
    pub common: CipherSuiteCommon,
    /// Hash backing the key schedule's HMAC; always the suite's own hash.
    pub hmac_algorithm: HashAlgorithm,
    /// Maximum number of records safely encryptable under one key.
    pub confidentiality_limit: u64,
    /// Maximum number of failed decryption attempts tolerated.
    pub integrity_limit: u64,
}

impl PartialEq for Tls13CipherSuite {
    fn eq(&self, other: &Tls13CipherSuite) -> (r: bool) {
        self.common.suite == other.common.suite
    }
}

impl vstd::std_specs::cmp::PartialEqSpecImpl for Tls13CipherSuite {
    open spec fn obeys_eq_spec() -> bool {
        true
    }

    open spec fn eq_spec(&self, other: &Tls13CipherSuite) -> bool {
        self.common.suite == other.common.suite
    }
}

impl Tls13CipherSuite {
    /// Can a session using suite `self` resume from a session that used suite
    /// `prev`?
    ///
    /// The key schedule is parameterized by the hash algorithm, so resumption
    /// is sound only between suites sharing it: the prior suite is returned
    /// exactly when the hash algorithms agree, and never otherwise.
    pub fn can_resume_from(&self, prev: &Tls13CipherSuite) -> (r: Option<Tls13CipherSuite>)
        ensures
            r is Some <==> prev.common.hash_algorithm == self.common.hash_algorithm,
            r matches Some(s) ==> s == *prev,
    {
        if prev.common.hash_algorithm == self.common.hash_algorithm {
            Some(*prev)
        } else {
            None
        }
    }
}

/// The TLS 1.3 suite pairing ChaCha20-Poly1305 with SHA-256.
pub open spec fn spec_chacha20_poly1305_sha256() -> Tls13CipherSuite {
    (Tls13CipherSuite {
        common: CipherSuiteCommon {
            suite: CipherSuite::Tls13Chacha20Poly1305Sha256,
            bulk: BulkAlgorithm::Chacha20Poly1305,
            hash_algorithm: HashAlgorithm::Sha256,
        },
        hmac_algorithm: HashAlgorithm::Sha256,
        confidentiality_limit: 0xffff_ffff_ffff_ffff,
        integrity_limit: 1u64 << 36,
    })
}

/// The TLS 1.3 suite pairing AES-256-GCM with SHA-384.
pub open spec fn spec_aes_256_gcm_sha384() -> Tls13CipherSuite {
    (Tls13CipherSuite {
        common: CipherSuiteCommon {
            suite: CipherSuite::Tls13Aes256GcmSha384,
            bulk: BulkAlgorithm::Aes256Gcm,
            hash_algorithm: HashAlgorithm::Sha384,
        },
        hmac_algorithm: HashAlgorithm::Sha384,
        confidentiality_limit: 1u64 << 23,
        integrity_limit: 1u64 << 52,
    })
}

/// The TLS 1.3 suite pairing AES-128-GCM with SHA-256.
pub open spec fn spec_aes_128_gcm_sha256() -> Tls13CipherSuite {
    (Tls13CipherSuite {
        common: CipherSuiteCommon {
            suite: CipherSuite::Tls13Aes128GcmSha256,
            bulk: BulkAlgorithm::Aes128Gcm,
            hash_algorithm: HashAlgorithm::Sha256,
        },
        hmac_algorithm: HashAlgorithm::Sha256,
        confidentiality_limit: 1u64 << 23,
        integrity_limit: 1u64 << 52,
    })
}

/// The TLS 1.3 ciphersuite TLS_CHACHA20_POLY1305_SHA256.
pub fn tls13_chacha20_poly1305_sha256() -> (s: Tls13CipherSuite)
    ensures
        s == spec_chacha20_poly1305_sha256(),
{
    Tls13CipherSuite {
        common: CipherSuiteCommon {
            suite: CipherSuite::Tls13Chacha20Poly1305Sha256,
            bulk: BulkAlgorithm::Chacha20Poly1305,
            hash_algorithm: HashAlgorithm::Sha256,
        },
        hmac_algorithm: HashAlgorithm::Sha256,
        confidentiality_limit: 0xffff_ffff_ffff_ffff,
        integrity_limit: 1u64 << 36,
    }
}

/// The TLS 1.3 ciphersuite TLS_AES_256_GCM_SHA384.
pub fn tls13_aes_256_gcm_sha384() -> (s: Tls13CipherSuite)
    ensures
        s == spec_aes_256_gcm_sha384(),
{
    Tls13CipherSuite {
        common: CipherSuiteCommon {
            suite: CipherSuite::Tls13Aes256GcmSha384,
            bulk: BulkAlgorithm::Aes256Gcm,
            hash_algorithm: HashAlgorithm::Sha384,
        },
        hmac_algorithm: HashAlgorithm::Sha384,
        confidentiality_limit: 1u64 << 23,
        integrity_limit: 1u64 << 52,
    }
}

/// The TLS 1.3 ciphersuite TLS_AES_128_GCM_SHA256.
pub fn tls13_aes_128_gcm_sha256() -> (s: Tls13CipherSuite)
    ensures
        s == spec_aes_128_gcm_sha256(),
{
    Tls13CipherSuite {
        common: CipherSuiteCommon {
            suite: CipherSuite::Tls13Aes128GcmSha256,
            bulk: BulkAlgorithm::Aes128Gcm,
            hash_algorithm: HashAlgorithm::Sha256,
        },
        hmac_algorithm: HashAlgorithm::Sha256,
        confidentiality_limit: 1u64 << 23,
        integrity_limit: 1u64 << 52,
    }
}

/// The fixed catalog, as a sequence.
pub open spec fn spec_all_suites() -> Seq<Tls13CipherSuite> {
    seq![
        spec_chacha20_poly1305_sha256(),
        spec_aes_256_gcm_sha384(),
        spec_aes_128_gcm_sha256(),
    ]
}

/// The full, fixed catalog of supported TLS 1.3 suites.
pub fn all_cipher_suites() -> (v: Vec<Tls13CipherSuite>)
    ensures
        v@ == spec_all_suites(),
{
    let mut v: Vec<Tls13CipherSuite> = Vec::new();
    v.push(tls13_chacha20_poly1305_sha256());
    v.push(tls13_aes_256_gcm_sha384());
    v.push(tls13_aes_128_gcm_sha256());
    proof {
        assert(v@ =~= spec_all_suites());
    }
    v
}

/// Look a suite up by identity: a scan over the fixed catalog.
///
/// Returns the catalog entry with identity `id`; unsupported identities are
/// simply absent, so the lookup itself cannot fail otherwise.
pub fn lookup_suite(id: CipherSuite) -> (r: Option<Tls13CipherSuite>)
    ensures
        r matches Some(s) ==> s.common.suite == id && spec_all_suites().contains(s),
        r is None ==> forall|i: int|
            0 <= i < spec_all_suites().len() ==> #[trigger] spec_all_suites()[i].common.suite
                != id,
{
    let all = all_cipher_suites();
    let mut i: usize = 0;
    while i < all.len()
        invariant
            all@ == spec_all_suites(),
            0 <= i <= all@.len(),
            forall|j: int| 0 <= j < i ==> #[trigger] all@[j].common.suite != id,
        decreases all@.len() - i,
    {
        if all[i].common.suite == id {
            return Some(all[i]);
        }
        i = i + 1;
    }
    None
}

/// A cipher suite supported by this library, tagged by protocol version.
#[derive(Clone, Copy, Debug)]
pub enum SupportedCipherSuite {
    Tls13(Tls13CipherSuite),
}

impl From<Tls13CipherSuite> for SupportedCipherSuite {
    fn from(s: Tls13CipherSuite) -> (r: SupportedCipherSuite) {
        SupportedCipherSuite::Tls13(s)
    }
}

impl vstd::std_specs::convert::FromSpecImpl<Tls13CipherSuite> for SupportedCipherSuite {
    open spec fn obeys_from_spec() -> bool {
        true
    }

    open spec fn from_spec(s: Tls13CipherSuite) -> SupportedCipherSuite {
        SupportedCipherSuite::Tls13(s)
    }
}

} // verus!

