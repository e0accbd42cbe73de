//! The certificate resolver: holds the currently active certificate chain
//! and private key, produces the certificate to present for each incoming
//! hello, and supports wholesale replacement of its active state on a hot
//! reload — never a field-by-field edit, so no handshake can observe a
//! half-updated chain/key pair.

use crate::cert::{copy_bytes, copy_chain};
use crate::config::{LoadError, TlsError};
use std::sync::Arc;
use vstd::prelude::*;

verus! {

/// The active certificate material: an ordered certificate chain and the
/// matching private key, each as encoded bytes. Exactly one instance is
/// active in a resolver at any time and it is only ever replaced wholesale.
pub struct ResolverConfig {
    pub cert_chain: Vec<Vec<u8>>,
    pub private_key: Vec<u8>,
}

impl ResolverConfig {
    /// The chain as a sequence of byte sequences.
    pub open spec fn chain(&self) -> Seq<Seq<u8>> {
        self.cert_chain.deep_view()
    }

    /// The key bytes.
    pub open spec fn key(&self) -> Seq<u8> {
        self.private_key@
    }
}

/// What a reload does to the active material: both sources parsed, so the
/// whole pair is replaced; otherwise the previous pair is retained.
pub open spec fn reload_model(
    active: ResolverConfig,
    cert_chain: Result<Vec<Vec<u8>>, LoadError>,
    private_key: Result<Vec<u8>, LoadError>,
) -> ResolverConfig {
    match (cert_chain, private_key) {
        (Result::Ok(c), Result::Ok(k)) => ResolverConfig { cert_chain: c, private_key: k },
        _ => active,
    }
}

/// Reload isolation: the material after a reload is exactly the new pair
/// when both sources parsed, and exactly the previous pair otherwise —
/// never a mix of old and new chain/key. A snapshot taken before the
/// reload is a value of its own and is untouched either way.
pub proof fn lemma_reload_isolation(
    active: ResolverConfig,
    cert_chain: Result<Vec<Vec<u8>>, LoadError>,
    private_key: Result<Vec<u8>, LoadError>,
)
    ensures
        ({
            let r = reload_model(active, cert_chain, private_key);
            ||| r == active
            ||| (cert_chain matches Result::Ok(c) && private_key matches Result::Ok(k)
                && r.cert_chain == c && r.private_key == k)
        }),
        (cert_chain is Ok && private_key is Ok) ==> reload_model(
            active,
            cert_chain,
            private_key,
        ) == (ResolverConfig {
            cert_chain: cert_chain->Ok_0,
            private_key: private_key->Ok_0,
        }),
        !(cert_chain is Ok && private_key is Ok) ==> reload_model(
            active,
            cert_chain,
            private_key,
        ) == active,
{
}

/// Owns the active [`ResolverConfig`]. The I/O layer shares one resolver,
/// under mutual exclusion, between the TLS engine configuration (which
/// resolves a certificate per handshake) and the hot-reload task (which
/// replaces the active state).
pub struct Resolver {
    config: ResolverConfig,
}

/// Declares rustls's certified-key type (a certificate chain paired with
/// a signing key) so it can be carried through signatures; it is opaque
/// here.
#[verifier::external_type_specification]
#[verifier::external_body]
pub struct ExCertifiedKey(rustls::sign::CertifiedKey);

/// Whether these private-key bytes parse as a signing key rustls supports
/// (RSA DER or PKCS8, ECDSA PKCS8/SEC1, Ed25519 PKCS8); a property of the
/// bytes alone. Parsing succeeds only on such bytes, but success is not
/// promised the other way: on the ECDSA path the parser also consumes the
/// system's random source and fails when it does, so on such keys two
/// calls on equal bytes may differ.
pub uninterp spec fn signing_key_supported(key: Seq<u8>) -> bool;

/// The certificate chain a certified key presents.
pub uninterp spec fn presented_chain(ck: Arc<rustls::sign::CertifiedKey>) -> Seq<Seq<u8>>;

/// The private-key bytes a certified key's signing key was built from.
pub uninterp spec fn certified_key_source(ck: Arc<rustls::sign::CertifiedKey>) -> Seq<u8>;

/// Relies on rustls::sign::any_supported_type, which parses the key bytes
/// and returns a signing key only when they are of a supported type (for
/// ECDSA keys it also consumes the system's random source, so success on
/// given bytes is not promised), and on rustls::sign::CertifiedKey::new,
/// which stores the given chain unchanged as the chain to present,
/// paired with the signing key built from the given bytes.
#[verifier::external_body]
fn certified_key_for(chain: &Vec<Vec<u8>>, key: &Vec<u8>) -> (r: Option<
    Arc<rustls::sign::CertifiedKey>,
>)
    ensures
        r is Some ==> signing_key_supported(key@),
        r matches Some(ck) ==> presented_chain(ck) == chain.deep_view(),
        r matches Some(ck) ==> certified_key_source(ck) == key@,
{
    let der = rustls::PrivateKey(key.clone());
    match rustls::sign::any_supported_type(&der) {
        Ok(sign_key) => {
            let certs: Vec<rustls::Certificate> =
                chain.iter().map(|c| rustls::Certificate(c.clone())).collect();
            Some(Arc::new(rustls::sign::CertifiedKey::new(certs, sign_key)))
        },
        Err(_) => None,
    }
}

impl Resolver {
    /// The currently active material.
    pub closed spec fn active(&self) -> ResolverConfig {
        self.config
    }

    /// Construct the resolver from the initial parse results of the
    /// configured chain and key sources. Fails fast — aborting listener
    /// construction — when either source was malformed, the chain error
    /// taking precedence.
    pub fn new(
        cert_chain: Result<Vec<Vec<u8>>, LoadError>,
        private_key: Result<Vec<u8>, LoadError>,
    ) -> (r: Result<Resolver, TlsError>)
        ensures
            match (cert_chain, private_key) {
                (Result::Ok(c), Result::Ok(k)) => r matches Result::Ok(res) && res.active()
                    == (ResolverConfig { cert_chain: c, private_key: k }),
                (Result::Err(e), _) => r == Result::<Resolver, TlsError>::Err(
                    TlsError::BadCertChain(e),
                ),
                (Result::Ok(_), Result::Err(e)) => r == Result::<Resolver, TlsError>::Err(
                    TlsError::BadPrivateKey(e),
                ),
            },
    {
        let chain = match cert_chain {
            Result::Ok(c) => c,
            Result::Err(e) => {
                return Result::Err(TlsError::BadCertChain(e));
            },
        };
        let key = match private_key {
            Result::Ok(k) => k,
            Result::Err(e) => {
                return Result::Err(TlsError::BadPrivateKey(e));
            },
        };
        Result::Ok(Resolver { config: ResolverConfig { cert_chain: chain, private_key: key } })
    }

    /// A wholesale copy of the active material: the chain and key of one
    /// snapshot, never a mix of two.
    pub fn current_material(&self) -> (r: ResolverConfig)
        ensures
            r.chain() == self.active().chain(),
            r.key() == self.active().key(),
    {
        ResolverConfig {
            cert_chain: copy_chain(&self.config.cert_chain),
            private_key: copy_bytes(&self.config.private_key),
        }
    }

    /// Resolve the certificate to present for an incoming hello: a
    /// signing-capable certificate built from the active chain and key,
    /// produced synchronously. Whatever is returned presents exactly the
    /// active chain and carries a signing key built from exactly the
    /// active key bytes — one snapshot, never a mix, so a handshake after
    /// a reload presents the new chain and one resolved before it keeps
    /// the old. `None` comes when the active key bytes are not a
    /// supported signing key (and, for ECDSA keys, when the system's
    /// random source fails).
    pub fn resolve(&self) -> (r: Option<Arc<rustls::sign::CertifiedKey>>)
        ensures
            r is Some ==> signing_key_supported(self.active().key()),
            r matches Some(ck) ==> presented_chain(ck) == self.active().chain(),
            r matches Some(ck) ==> certified_key_source(ck) == self.active().key(),
    {
        certified_key_for(&self.config.cert_chain, &self.config.private_key)
    }

    /// Apply a reload: when both sources parsed, replace the active state
    /// wholesale with the new pair; otherwise retain the previous state
    /// unchanged, so a transiently unreadable source never takes the
    /// listener down. Returns whether a replacement took place. In-flight
    /// handshakes hold their own snapshot and complete unaffected.
    pub fn apply_reload(
        &mut self,
        cert_chain: Result<Vec<Vec<u8>>, LoadError>,
        private_key: Result<Vec<u8>, LoadError>,
    ) -> (replaced: bool)
        ensures
            final(self).active() == reload_model(old(self).active(), cert_chain, private_key),
            replaced == (cert_chain is Ok && private_key is Ok),
    {
        match (cert_chain, private_key) {
            (Result::Ok(c), Result::Ok(k)) => {
                self.config = ResolverConfig { cert_chain: c, private_key: k };
                true
            },
            _ => false,
        }
    }
}

} // verus!
