//! The bind-time decision sequence of the TLS listener: derive the engine
//! configuration plan and construct the resolver from the initial parse
//! results, failing fast — with the CA error taking precedence, then the
//! chain error, then the key error — when any source was malformed. The
//! I/O layer performs the reads, assembles the TLS engine from the plan,
//! binds the TCP listener and starts the hot-reload task.

use crate::config::{plan_matches, plan_server_config, Config, LoadError, TlsConfigPlan, TlsError};
use crate::resolver::{Resolver, ResolverConfig};
use vstd::prelude::*;

verus! {

/// Decide everything a listener is built from: the engine-configuration
/// plan and the resolver holding the initial certificate material. Every
/// malformed source is construction-fatal, and no plan or resolver is
/// handed out in that case.
pub fn plan_listener(
    config: Config,
    cert_chain: Result<Vec<Vec<u8>>, LoadError>,
    private_key: Result<Vec<u8>, LoadError>,
    ca: Option<Result<Vec<Vec<u8>>, LoadError>>,
) -> (r: Result<(TlsConfigPlan, Resolver), TlsError>)
    ensures
        match r {
            Result::Ok(pr) => {
                &&& plan_matches(pr.0, config, ca)
                &&& cert_chain matches Result::Ok(c) && private_key matches Result::Ok(k)
                    && pr.1.active() == (ResolverConfig { cert_chain: c, private_key: k })
            },
            Result::Err(e) => match ca {
                Option::Some(Result::Err(le)) => e == TlsError::BadCaCerts(le),
                _ => match (cert_chain, private_key) {
                    (Result::Err(le), _) => e == TlsError::BadCertChain(le),
                    (Result::Ok(_), Result::Err(le)) => e == TlsError::BadPrivateKey(le),
                    _ => false,
                },
            },
        },
{
    let plan = match plan_server_config(config, ca) {
        Result::Ok(p) => p,
        Result::Err(e) => {
            return Result::Err(e);
        },
    };
    let resolver = match Resolver::new(cert_chain, private_key) {
        Result::Ok(res) => res,
        Result::Err(e) => {
            return Result::Err(e);
        },
    };
    Result::Ok((plan, resolver))
}

} // verus!
