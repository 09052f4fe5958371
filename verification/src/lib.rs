pub mod builder;
pub mod cipher;
pub mod crypto;
pub mod sign;
pub mod suites;
pub mod verify;
pub mod x509;

use vstd::prelude::*;

verus! {

/// Errors surfaced by this library.
#[derive(Clone, Copy, Debug, PartialEq, Eq, Structural)]
pub enum Error {
    /// Authenticated decryption of a record failed; deliberately carries no
    /// detail about which check failed.
    DecryptError,
    /// The sealing primitive reported a failure.
    EncryptError,
    /// The supplied private key could not be parsed.
    InvalidPrivateKey,
    /// The end-entity certificate could not be read.
    MalformedCertificate,
    /// The private key's public component does not match the end-entity
    /// certificate's public key.
    KeyCertMismatch,
}

} // verus!
