//! Certified key material and server-certificate resolution.
//!
//! A `CertifiedKey` pairs a certificate chain (leaf first) with the private
//! key it certifies; the pairing is checked once, at construction, and never
//! again. The private keys this library can check are Ed25519 keys in PKCS#8
//! form; parsing is done by the cryptographic backend, the comparison against
//! the leaf certificate here.

use vstd::prelude::*;

use crate::crypto::{ed25519_pub_of, ed25519_public_key};
use crate::x509::{bytes_eq, ed25519_spki, spec_ed25519_spki, spec_spki_of_cert, spki_of_cert};
use crate::Error;

verus! {

/// A DER-encoded certificate.
#[derive(Debug)]
pub struct CertificateDer {
    pub bytes: Vec<u8>,
}

impl View for CertificateDer {
    type V = Seq<u8>;

    open spec fn view(&self) -> Seq<u8> {
        self.bytes@
    }
}

impl CertificateDer {
    /// Wrap DER certificate bytes.
    pub fn new(bytes: Vec<u8>) -> (c: CertificateDer)
        ensures
            c@ == bytes@,
    {
        CertificateDer { bytes }
    }
}

/// A DER-encoded private key, tagged by its encoding.
#[derive(Debug)]
pub enum PrivateKeyDer {
    Pkcs1(Vec<u8>),
    Pkcs8(Vec<u8>),
    Sec1(Vec<u8>),
}

impl View for PrivateKeyDer {
    type V = Seq<u8>;

    open spec fn view(&self) -> Seq<u8> {
        match self {
            PrivateKeyDer::Pkcs1(v) => v@,
            PrivateKeyDer::Pkcs8(v) => v@,
            PrivateKeyDer::Sec1(v) => v@,
        }
    }
}

/// The views of a chain's certificates, in order.
pub open spec fn spec_chain_views(chain: Seq<CertificateDer>) -> Seq<Seq<u8>> {
    chain.map_values(|c: CertificateDer| c@)
}

/// The error that certified-key construction owes for this chain and key,
/// or nothing when construction must succeed: the key must be a PKCS#8
/// Ed25519 key the backend accepts, the chain must carry a readable leaf,
/// and the key's public component must match the leaf's public key.
pub open spec fn spec_certified_key_error(chain: Seq<Seq<u8>>, key: PrivateKeyDer) -> Option<
    Error,
> {
    if !(key is Pkcs8) || ed25519_pub_of(key@) is None {
        Some(Error::InvalidPrivateKey)
    } else if chain.len() == 0 || spec_spki_of_cert(chain[0]) is None {
        Some(Error::MalformedCertificate)
    } else if spec_spki_of_cert(chain[0]) != Some(
        spec_ed25519_spki(ed25519_pub_of(key@).unwrap()),
    ) {
        Some(Error::KeyCertMismatch)
    } else {
        None
    }
}

/// A certificate chain (leaf first), the private key certified by its leaf,
/// and an optional stapled OCSP response. Immutable once constructed; the
/// key/leaf pairing was checked by `from_der` and is never re-checked.
#[derive(Debug)]
pub struct CertifiedKey {
    pub cert_chain: Vec<CertificateDer>,
    pub key: PrivateKeyDer,
    pub ocsp: Option<Vec<u8>>,
}

impl CertifiedKey {
    /// Check a chain and key against one another and pair them.
    ///
    /// Fails with `InvalidPrivateKey` when the key is not a PKCS#8 Ed25519
    /// key the backend can parse; with `MalformedCertificate` when the chain
    /// is empty or the leaf's SubjectPublicKeyInfo cannot be located; and
    /// with `KeyCertMismatch` when the key's public component differs from
    /// the leaf's public key. Succeeds exactly otherwise.
    pub fn from_der(cert_chain: Vec<CertificateDer>, key_der: PrivateKeyDer) -> (r: Result<
        CertifiedKey,
        Error,
    >)
        ensures
            r is Ok <==> spec_certified_key_error(spec_chain_views(cert_chain@), key_der) is None,
            r matches Err(e) ==> spec_certified_key_error(spec_chain_views(cert_chain@), key_der) == Some(e),
            r matches Ok(ck) ==> ck.cert_chain@ == cert_chain@ && ck.key == key_der && ck.ocsp is None,
    {
        let pubkey: Vec<u8> = match &key_der {
            PrivateKeyDer::Pkcs8(der) => match ed25519_public_key(der) {
                Some(k) => k,
                None => {
                    return Err(Error::InvalidPrivateKey);
                },
            },
            _ => {
                return Err(Error::InvalidPrivateKey);
            },
        };
        if cert_chain.len() == 0 {
            return Err(Error::MalformedCertificate);
        }
        proof {
            assert(spec_chain_views(cert_chain@)[0] == cert_chain@[0]@);
        }
        let spki: Vec<u8> = match spki_of_cert(&cert_chain[0].bytes) {
            Some(s) => s,
            None => {
                return Err(Error::MalformedCertificate);
            },
        };
        let expected = ed25519_spki(&pubkey);
        if !bytes_eq(&spki, &expected) {
            return Err(Error::KeyCertMismatch);
        }
        Ok(CertifiedKey { cert_chain, key: key_der, ocsp: None })
    }
}

/// The strategy for choosing the certified key presented to a connecting
/// peer.
#[derive(Debug)]
pub enum ServerCertResolver {
    /// Always present the same certified key, whatever the connection
    /// context; for single-certificate deployments.
    Single(CertifiedKey),
    /// An application-supplied strategy, named by a tag the embedding
    /// application interprets; resolution then happens outside this library.
    External(u64),
}

impl ServerCertResolver {
    /// Choose the certified key for a connection, given the requested server
    /// name. A fixed single-key resolver returns its key for every input;
    /// an external strategy resolves outside this library, so nothing is
    /// returned here and the caller must treat that as a resolution failure
    /// or consult the application.
    pub fn resolve(&self, server_name: &Vec<u8>) -> (r: Option<&CertifiedKey>)
        ensures
            self matches ServerCertResolver::Single(ck) ==> (r matches Some(k) && k == ck),
            self matches ServerCertResolver::External(_) ==> r is None,
    {
        match self {
            ServerCertResolver::Single(ck) => Some(ck),
            ServerCertResolver::External(_) => None,
        }
    }
}

} // verus!
