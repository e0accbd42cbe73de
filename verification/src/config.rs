//! Bind-time configuration: the client-authentication policy, the ALPN
//! protocol list, session-cache sizing, and the errors a listener can fail
//! with while loading certificate material.

use vstd::prelude::*;

verus! {

/// Error from a certificate/key loading collaborator, carrying the
/// collaborator's descriptive message.
#[derive(Debug)]
pub struct LoadError {
    pub message: String,
}

/// A construction-fatal error: malformed certificate chain, private key or
/// CA certificate set. Each variant keeps the loader's own message; the
/// variant itself fixes the descriptive prefix (see [`TlsError::label`]).
#[derive(Debug)]
pub enum TlsError {
    /// The certificate chain could not be parsed.
    BadCertChain(LoadError),
    /// The private key could not be parsed.
    BadPrivateKey(LoadError),
    /// The CA certificate set could not be parsed.
    BadCaCerts(LoadError),
}

impl TlsError {
    /// The descriptive prefix for this error, to be joined with the
    /// underlying loader message by the I/O layer.
    pub fn label(&self) -> (r: &'static str)
        ensures
            match self {
                TlsError::BadCertChain(_) => r@ == "bad TLS cert chain"@,
                TlsError::BadPrivateKey(_) => r@ == "bad TLS private key"@,
                TlsError::BadCaCerts(_) => r@ == "bad CA cert(s)"@,
            },
    {
        match self {
            TlsError::BadCertChain(_) => "bad TLS cert chain",
            TlsError::BadPrivateKey(_) => "bad TLS private key",
            TlsError::BadCaCerts(_) => "bad CA cert(s)",
        }
    }
}

/// Listener configuration, fixed once the listener is constructed. The
/// certificate, key and CA sources themselves live with the I/O layer,
/// which re-reads them and hands their parse results in.
pub struct Config {
    /// Acceptable cipher suites, in preference order, by their IANA codes.
    pub ciphersuites: Vec<u16>,
    /// Ignore the client's cipher preference order in favour of ours.
    pub prefer_server_order: bool,
    /// Require (rather than merely accept) an authenticated client
    /// certificate when a CA is configured.
    pub mandatory_mtls: bool,
    /// Advertise HTTP/2 ahead of HTTP/1.1 during ALPN.
    pub http2: bool,
}

/// Client-authentication policy, derived from the configuration. The
/// mTLS variants carry the CA certificates that client chains are
/// verified against.
pub enum ClientAuthPolicy {
    /// No CA configured: no client certificate is requested.
    NoClientAuth,
    /// CA configured, mTLS optional: verify a presented client
    /// certificate, accept a client without one.
    OptionalMtls(Vec<Vec<u8>>),
    /// CA configured, mTLS mandatory: require and verify a client
    /// certificate.
    MandatoryMtls(Vec<Vec<u8>>),
}

/// Whether a handshake passes the client-authentication policy, given
/// whether the client presented a chain and whether that chain verifies
/// against the configured CA.
pub open spec fn client_auth_permits(policy: ClientAuthPolicy, presented: bool, valid: bool) -> bool {
    match policy {
        ClientAuthPolicy::NoClientAuth => true,
        ClientAuthPolicy::OptionalMtls(_) => !presented || valid,
        ClientAuthPolicy::MandatoryMtls(_) => presented && valid,
    }
}

/// Executable twin of [`client_auth_permits`].
pub fn check_client_auth(policy: &ClientAuthPolicy, presented: bool, valid: bool) -> (r: bool)
    ensures
        r == client_auth_permits(*policy, presented, valid),
{
    match policy {
        ClientAuthPolicy::NoClientAuth => true,
        ClientAuthPolicy::OptionalMtls(_) => !presented || valid,
        ClientAuthPolicy::MandatoryMtls(_) => presented && valid,
    }
}

/// Build the client-authentication policy from the CA source's parse
/// result: no CA source means no client auth; a CA with the mandatory
/// flag requires a verified client certificate; a CA without it also
/// accepts anonymous clients; a malformed CA set is construction-fatal.
pub fn client_auth_policy(ca: Option<Result<Vec<Vec<u8>>, LoadError>>, mandatory_mtls: bool) -> (r:
    Result<ClientAuthPolicy, TlsError>)
    ensures
        match ca {
            Option::None => r == Result::<ClientAuthPolicy, TlsError>::Ok(
                ClientAuthPolicy::NoClientAuth,
            ),
            Option::Some(Result::Ok(ders)) => if mandatory_mtls {
                r == Result::<ClientAuthPolicy, TlsError>::Ok(
                    ClientAuthPolicy::MandatoryMtls(ders),
                )
            } else {
                r == Result::<ClientAuthPolicy, TlsError>::Ok(ClientAuthPolicy::OptionalMtls(ders))
            },
            Option::Some(Result::Err(e)) => r == Result::<ClientAuthPolicy, TlsError>::Err(
                TlsError::BadCaCerts(e),
            ),
        },
{
    match ca {
        Option::None => Result::Ok(ClientAuthPolicy::NoClientAuth),
        Option::Some(Result::Ok(ders)) => {
            if mandatory_mtls {
                Result::Ok(ClientAuthPolicy::MandatoryMtls(ders))
            } else {
                Result::Ok(ClientAuthPolicy::OptionalMtls(ders))
            }
        },
        Option::Some(Result::Err(e)) => Result::Err(TlsError::BadCaCerts(e)),
    }
}

/// The ALPN protocol name `h2`.
pub open spec fn h2_alpn() -> Seq<u8> {
    seq![104u8, 50u8]
}

/// The ALPN protocol name `http/1.1`.
pub open spec fn http11_alpn() -> Seq<u8> {
    seq![104u8, 116u8, 116u8, 112u8, 47u8, 49u8, 46u8, 49u8]
}

fn h2_bytes() -> (r: Vec<u8>)
    ensures
        r@ == h2_alpn(),
{
    let mut v: Vec<u8> = Vec::new();
    v.push(104u8);
    v.push(50u8);
    proof {
        assert(v@ =~= h2_alpn());
    }
    v
}

fn http11_bytes() -> (r: Vec<u8>)
    ensures
        r@ == http11_alpn(),
{
    let mut v: Vec<u8> = Vec::new();
    v.push(104u8);
    v.push(116u8);
    v.push(116u8);
    v.push(112u8);
    v.push(47u8);
    v.push(49u8);
    v.push(46u8);
    v.push(49u8);
    proof {
        assert(v@ =~= http11_alpn());
    }
    v
}

/// The ALPN protocol list to advertise: `h2` ahead of `http/1.1` when
/// HTTP/2 is enabled, `http/1.1` alone otherwise.
pub fn alpn_protocols(http2: bool) -> (r: Vec<Vec<u8>>)
    ensures
        http2 ==> r.deep_view() == seq![h2_alpn(), http11_alpn()],
        !http2 ==> r.deep_view() == seq![http11_alpn()],
{
    let mut v: Vec<Vec<u8>> = Vec::new();
    if http2 {
        v.push(h2_bytes());
    }
    v.push(http11_bytes());
    proof {
        if http2 {
            assert(v.deep_view() =~~= seq![h2_alpn(), http11_alpn()]);
        } else {
            assert(v.deep_view() =~~= seq![http11_alpn()]);
        }
    }
    v
}

/// Capacity of the bounded in-memory session cache.
pub const SESSION_CACHE_CAPACITY: usize = 1024;

/// Everything the TLS engine configuration is built from, decided at bind
/// time: the client-auth policy, the cipher-suite restriction, server
/// cipher-order preference, the ALPN list, and session-cache sizing.
pub struct TlsConfigPlan {
    pub client_auth: ClientAuthPolicy,
    pub ciphersuites: Vec<u16>,
    pub ignore_client_order: bool,
    pub alpn_protocols: Vec<Vec<u8>>,
    pub session_cache_capacity: usize,
}

/// What a correct engine-configuration plan for `config` and the CA parse
/// result `ca` holds: the derived client-auth policy, the configured
/// cipher-suite restriction and order preference, the ALPN list, and the
/// fixed session-cache capacity.
pub open spec fn plan_matches(
    plan: TlsConfigPlan,
    config: Config,
    ca: Option<Result<Vec<Vec<u8>>, LoadError>>,
) -> bool {
    &&& match ca {
        Option::None => plan.client_auth == ClientAuthPolicy::NoClientAuth,
        Option::Some(Result::Ok(ders)) => if config.mandatory_mtls {
            plan.client_auth == ClientAuthPolicy::MandatoryMtls(ders)
        } else {
            plan.client_auth == ClientAuthPolicy::OptionalMtls(ders)
        },
        Option::Some(Result::Err(_)) => false,
    }
    &&& plan.ciphersuites == config.ciphersuites
    &&& plan.ignore_client_order == config.prefer_server_order
    &&& (config.http2 ==> plan.alpn_protocols.deep_view() == seq![h2_alpn(), http11_alpn()])
    &&& (!config.http2 ==> plan.alpn_protocols.deep_view() == seq![http11_alpn()])
    &&& plan.session_cache_capacity == SESSION_CACHE_CAPACITY
}

/// Decide the full TLS engine configuration for a listener. Fails only on
/// a malformed CA certificate set; the certificate chain and private key
/// are the resolver's concern.
pub fn plan_server_config(config: Config, ca: Option<Result<Vec<Vec<u8>>, LoadError>>) -> (r:
    Result<TlsConfigPlan, TlsError>)
    ensures
        match r {
            Result::Ok(plan) => plan_matches(plan, config, ca),
            Result::Err(e) => match ca {
                Option::Some(Result::Err(le)) => e == TlsError::BadCaCerts(le),
                _ => false,
            },
        },
{
    let client_auth = match client_auth_policy(ca, config.mandatory_mtls) {
        Result::Ok(p) => p,
        Result::Err(e) => {
            return Result::Err(e);
        },
    };
    let alpn = alpn_protocols(config.http2);
    Result::Ok(
        TlsConfigPlan {
            client_auth,
            ciphersuites: config.ciphersuites,
            ignore_client_order: config.prefer_server_order,
            alpn_protocols: alpn,
            session_cache_capacity: SESSION_CACHE_CAPACITY,
        },
    )
}

} // verus!
