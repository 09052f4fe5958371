//! The phased server-configuration builder.
//!
//! A configuration is assembled through a fixed sequence of states, each
//! consumed by its transition: first a client-certificate policy, then a
//! certificate-providing step. No other path produces a `ServerConfig`: its
//! fields are private, and this module's transitions are its only
//! constructors, so a finished configuration has always passed through both
//! decision points.

use vstd::prelude::*;

use crate::sign::{
    spec_certified_key_error, spec_chain_views, CertificateDer, CertifiedKey, PrivateKeyDer,
    ServerCertResolver,
};
use crate::Error;

verus! {

/// Which protocol versions a configuration enables.
#[derive(Clone, Copy, Debug, PartialEq, Eq, Structural)]
pub struct EnabledVersions {
    pub tls12: bool,
    pub tls13: bool,
}

/// The policy for verifying client certificates.
#[derive(Clone, Copy, Debug, PartialEq, Eq, Structural)]
pub enum ClientCertVerifier {
    /// Client authentication disabled.
    NoClientAuth,
    /// An application-supplied verifier, named by a tag the embedding
    /// application interprets; verification then happens outside this
    /// library.
    External(u64),
}

/// A builder in some state `S`, holding what has been collected so far.
#[derive(Debug)]
pub struct ConfigBuilder<S> {
    pub state: S,
}

/// The first builder state: protocol versions are fixed, and a
/// client-certificate policy must be chosen next.
#[derive(Debug)]
pub struct WantsVerifier {
    pub versions: EnabledVersions,
}

/// A config builder state where the caller must supply how to provide a
/// server certificate to the connecting peer.
#[derive(Debug)]
pub struct WantsServerCert {
    pub versions: EnabledVersions,
    pub verifier: ClientCertVerifier,
}

impl ConfigBuilder<WantsVerifier> {
    /// Start building a server configuration with the given enabled
    /// protocol versions.
    pub fn new(versions: EnabledVersions) -> (b: ConfigBuilder<WantsVerifier>)
        ensures
            b.state.versions == versions,
    {
        ConfigBuilder { state: WantsVerifier { versions } }
    }

    /// Choose how to verify client certificates.
    pub fn with_client_cert_verifier(self, client_cert_verifier: ClientCertVerifier) -> (b:
        ConfigBuilder<WantsServerCert>)
        ensures
            b.state.versions == self.state.versions,
            b.state.verifier == client_cert_verifier,
    {
        ConfigBuilder {
            state: WantsServerCert {
                versions: self.state.versions,
                verifier: client_cert_verifier,
            },
        }
    }

    /// Disable client authentication.
    pub fn with_no_client_auth(self) -> (b: ConfigBuilder<WantsServerCert>)
        ensures
            b.state.versions == self.state.versions,
            b.state.verifier == ClientCertVerifier::NoClientAuth,
    {
        self.with_client_cert_verifier(ClientCertVerifier::NoClientAuth)
    }
}

/// The finished, immutable server configuration. Constructed only by the
/// builder's terminal transitions; every field is present and holds either
/// what the builder collected or its documented default.
#[derive(Debug)]
pub struct ServerConfig {
    verifier: ClientCertVerifier,
    cert_resolver: ServerCertResolver,
    versions: EnabledVersions,
    ignore_client_order: bool,
    max_fragment_size: Option<u32>,
    session_cache_capacity: u32,
    issues_tickets: bool,
    alpn_protocols: Vec<Vec<u8>>,
    enable_secret_extraction: bool,
    max_early_data_size: u32,
    send_half_rtt_data: bool,
    send_tls13_tickets: u32,
}

impl ServerConfig {
    /// The client-certificate policy this configuration was built with.
    pub closed spec fn spec_verifier(&self) -> ClientCertVerifier {
        self.verifier
    }

    /// The certificate-resolving strategy this configuration was built with.
    pub closed spec fn spec_cert_resolver(&self) -> ServerCertResolver {
        self.cert_resolver
    }

    /// The enabled protocol versions.
    pub closed spec fn spec_versions(&self) -> EnabledVersions {
        self.versions
    }

    /// Whether the server's cipher-suite order beats the client's.
    pub closed spec fn spec_ignore_client_order(&self) -> bool {
        self.ignore_client_order
    }

    /// The negotiated fragment-size cap; nothing means unrestricted.
    pub closed spec fn spec_max_fragment_size(&self) -> Option<u32> {
        self.max_fragment_size
    }

    /// How many sessions the bounded in-memory session cache holds.
    pub closed spec fn spec_session_cache_capacity(&self) -> u32 {
        self.session_cache_capacity
    }

    /// Whether a ticket issuer is active; by default tickets are never
    /// issued.
    pub closed spec fn spec_issues_tickets(&self) -> bool {
        self.issues_tickets
    }

    /// The ALPN protocol list, most preferred first.
    pub closed spec fn spec_alpn_protocols(&self) -> Seq<Vec<u8>> {
        self.alpn_protocols@
    }

    /// Whether live key material may be extracted for external transports.
    pub closed spec fn spec_enable_secret_extraction(&self) -> bool {
        self.enable_secret_extraction
    }

    /// The early-data limit in bytes; zero disables early data.
    pub closed spec fn spec_max_early_data_size(&self) -> u32 {
        self.max_early_data_size
    }

    /// Whether half-RTT data may be sent.
    pub closed spec fn spec_send_half_rtt_data(&self) -> bool {
        self.send_half_rtt_data
    }

    /// How many TLS 1.3 session tickets are sent after a handshake.
    pub closed spec fn spec_send_tls13_tickets(&self) -> u32 {
        self.send_tls13_tickets
    }

    /// Every field the builder does not collect holds its documented
    /// default: client order respected, fragment size unrestricted, a
    /// 256-entry session cache, no tickets issued, no ALPN protocols, secret
    /// extraction off, early data disabled, no half-RTT data, and two
    /// TLS 1.3 tickets per handshake.
    pub open spec fn spec_default_policies(&self) -> bool {
        &&& self.spec_ignore_client_order() == false
        &&& self.spec_max_fragment_size() is None
        &&& self.spec_session_cache_capacity() == 256
        &&& self.spec_issues_tickets() == false
        &&& self.spec_alpn_protocols().len() == 0
        &&& self.spec_enable_secret_extraction() == false
        &&& self.spec_max_early_data_size() == 0
        &&& self.spec_send_half_rtt_data() == false
        &&& self.spec_send_tls13_tickets() == 2
    }

    /// The certificate-resolving strategy.
    pub fn cert_resolver(&self) -> (r: &ServerCertResolver)
        ensures
            r == self.spec_cert_resolver(),
    {
        &self.cert_resolver
    }

    /// The client-certificate policy.
    pub fn client_cert_verifier(&self) -> (r: &ClientCertVerifier)
        ensures
            r == self.spec_verifier(),
    {
        &self.verifier
    }

    /// The enabled protocol versions.
    pub fn versions(&self) -> (r: &EnabledVersions)
        ensures
            r == self.spec_versions(),
    {
        &self.versions
    }

    /// The ALPN protocol list.
    pub fn alpn_protocols(&self) -> (r: &Vec<Vec<u8>>)
        ensures
            r@ == self.spec_alpn_protocols(),
    {
        &self.alpn_protocols
    }

    /// The negotiated fragment-size cap; nothing means unrestricted.
    pub fn max_fragment_size(&self) -> (r: Option<u32>)
        ensures
            r == self.spec_max_fragment_size(),
    {
        self.max_fragment_size
    }

    /// How many sessions the bounded in-memory session cache holds.
    pub fn session_cache_capacity(&self) -> (r: u32)
        ensures
            r == self.spec_session_cache_capacity(),
    {
        self.session_cache_capacity
    }

    /// Whether a ticket issuer is active.
    pub fn issues_tickets(&self) -> (r: bool)
        ensures
            r == self.spec_issues_tickets(),
    {
        self.issues_tickets
    }

    /// Whether live key material may be extracted for external transports.
    pub fn enable_secret_extraction(&self) -> (r: bool)
        ensures
            r == self.spec_enable_secret_extraction(),
    {
        self.enable_secret_extraction
    }

    /// The early-data limit in bytes; zero disables early data.
    pub fn max_early_data_size(&self) -> (r: u32)
        ensures
            r == self.spec_max_early_data_size(),
    {
        self.max_early_data_size
    }

    /// Whether half-RTT data may be sent.
    pub fn send_half_rtt_data(&self) -> (r: bool)
        ensures
            r == self.spec_send_half_rtt_data(),
    {
        self.send_half_rtt_data
    }

    /// How many TLS 1.3 session tickets are sent after a handshake.
    pub fn send_tls13_tickets(&self) -> (r: u32)
        ensures
            r == self.spec_send_tls13_tickets(),
    {
        self.send_tls13_tickets
    }

    /// Whether the server's cipher-suite order beats the client's.
    pub fn ignore_client_order(&self) -> (r: bool)
        ensures
            r == self.spec_ignore_client_order(),
    {
        self.ignore_client_order
    }
}

impl ConfigBuilder<WantsServerCert> {
    /// Sets a single certificate chain and matching private key, used for
    /// all subsequent connections irrespective of connection context.
    ///
    /// Fails exactly as `CertifiedKey::from_der` does: when the key cannot
    /// be parsed, when the leaf certificate cannot be read, or when the
    /// key's public component does not match the leaf's public key; no
    /// configuration is produced then.
    pub fn with_single_cert(self, cert_chain: Vec<CertificateDer>, key_der: PrivateKeyDer) -> (r:
        Result<ServerConfig, Error>)
        ensures
            r is Ok <==> spec_certified_key_error(spec_chain_views(cert_chain@), key_der) is None,
            r matches Err(e) ==> spec_certified_key_error(spec_chain_views(cert_chain@), key_der) == Some(e),
            r matches Ok(c) ==> c.spec_verifier() == self.state.verifier,
            r matches Ok(c) ==> c.spec_versions() == self.state.versions,
            r matches Ok(c) ==> c.spec_default_policies(),
            r matches Ok(c) ==> (c.spec_cert_resolver() matches ServerCertResolver::Single(ck) && ck.cert_chain@ == cert_chain@ && ck.key == key_der && ck.ocsp is None),
    {
        match CertifiedKey::from_der(cert_chain, key_der) {
            Ok(certified_key) => Ok(self.with_cert_resolver(ServerCertResolver::Single(certified_key))),
            Err(e) => Err(e),
        }
    }

    /// Sets a single certificate chain, matching private key and an OCSP
    /// response to staple.
    ///
    /// Succeeds and fails exactly as `with_single_cert` does; on success the
    /// resolver's key additionally carries the OCSP response.
    pub fn with_single_cert_with_ocsp(
        self,
        cert_chain: Vec<CertificateDer>,
        key_der: PrivateKeyDer,
        ocsp: Vec<u8>,
    ) -> (r: Result<ServerConfig, Error>)
        ensures
            r is Ok <==> spec_certified_key_error(spec_chain_views(cert_chain@), key_der) is None,
            r matches Err(e) ==> spec_certified_key_error(spec_chain_views(cert_chain@), key_der) == Some(e),
            r matches Ok(c) ==> c.spec_verifier() == self.state.verifier,
            r matches Ok(c) ==> c.spec_versions() == self.state.versions,
            r matches Ok(c) ==> c.spec_default_policies(),
            r matches Ok(c) ==> (c.spec_cert_resolver() matches ServerCertResolver::Single(ck) && ck.cert_chain@ == cert_chain@ && ck.key == key_der && (ck.ocsp matches Some(o) && o@ == ocsp@)),
    {
        match CertifiedKey::from_der(cert_chain, key_der) {
            Ok(mut certified_key) => {
                certified_key.ocsp = Some(ocsp);
                Ok(self.with_cert_resolver(ServerCertResolver::Single(certified_key)))
            },
            Err(e) => Err(e),
        }
    }

    /// Sets a custom certificate-resolving strategy and finalizes the
    /// configuration, with every remaining field at its documented default.
    pub fn with_cert_resolver(self, cert_resolver: ServerCertResolver) -> (c: ServerConfig)
        ensures
            c.spec_verifier() == self.state.verifier,
            c.spec_cert_resolver() == cert_resolver,
            c.spec_versions() == self.state.versions,
            c.spec_default_policies(),
    {
        ServerConfig {
            verifier: self.state.verifier,
            cert_resolver,
            versions: self.state.versions,
            ignore_client_order: false,
            max_fragment_size: None,
            session_cache_capacity: 256,
            issues_tickets: false,
            alpn_protocols: Vec::new(),
            enable_secret_extraction: false,
            max_early_data_size: 0,
            send_half_rtt_data: false,
            send_tls13_tickets: 2,
        }
    }
}

} // verus!
