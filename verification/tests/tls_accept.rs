use tls_accept::cert::Certificates;
use tls_accept::config::{
    alpn_protocols, check_client_auth, client_auth_policy, plan_server_config, ClientAuthPolicy,
    Config, LoadError, TlsError, SESSION_CACHE_CAPACITY,
};
use tls_accept::listener::plan_listener;
use tls_accept::resolver::Resolver;
use tls_accept::stream::{
    ControlAction, HandshakeEvent, HandshakeStep, IoDispatch, PeerAddr, TlsStream,
};

fn addr(last: u8) -> PeerAddr {
    PeerAddr::V4 { octets: [127, 0, 0, last], port: 8443 }
}

fn load_err(msg: &str) -> LoadError {
    LoadError { message: msg.to_string() }
}

/// A PKCS#8 v1 Ed25519 private key, as rustls's signing-key parser accepts.
fn ed25519_key() -> Vec<u8> {
    let mut der = vec![
        0x30, 0x2e, 0x02, 0x01, 0x00, 0x30, 0x05, 0x06, 0x03, 0x2b, 0x65, 0x70, 0x04, 0x22, 0x04,
        0x20,
    ];
    der.extend_from_slice(&[0x42u8; 32]);
    der
}

fn chain_a() -> Vec<Vec<u8>> {
    vec![vec![1, 2, 3], vec![4, 5, 6]]
}

fn chain_b() -> Vec<Vec<u8>> {
    vec![vec![9, 9, 9]]
}

// Non-blocking accept: every accepted raw connection yields a connection
// immediately, all of them still handshaking before any handshake event.
#[test]
fn accept_returns_before_any_handshake_completes() {
    let streams: Vec<TlsStream> = (0..3).map(|i| TlsStream::accept(addr(i as u8))).collect();
    for s in &streams {
        assert!(matches!(s.io_dispatch(), IoDispatch::DriveHandshake));
        let cell = s.peer_certificates().unwrap();
        assert!(cell.get().is_none());
    }
}

#[test]
fn peer_address_is_fixed_at_accept() {
    let s = TlsStream::accept(addr(7));
    match s.peer_address().unwrap() {
        PeerAddr::V4 { octets, port } => {
            assert_eq!(octets, [127, 0, 0, 7]);
            assert_eq!(port, 8443);
        }
        PeerAddr::V6 { .. } => panic!("accepted a V4 peer"),
    }
}

#[test]
fn pending_poll_suspends_and_stays_handshaking() {
    let mut s = TlsStream::accept(addr(1));
    let step = s.on_handshake_event(HandshakeEvent::Pending);
    assert!(matches!(step, HandshakeStep::Suspend));
    assert!(matches!(s.io_dispatch(), IoDispatch::DriveHandshake));
    assert!(s.peer_certificates().unwrap().get().is_none());
}

// Scenario C: the client presented a chain; after completion the cell holds
// exactly that chain and reads/writes go to the encrypted stream.
#[test]
fn completion_with_client_chain_fills_cell() {
    let mut s = TlsStream::accept(addr(2));
    let step = s.on_handshake_event(HandshakeEvent::Complete(Some(chain_a())));
    assert!(matches!(step, HandshakeStep::Proceed));
    assert!(matches!(s.io_dispatch(), IoDispatch::UseStream));
    let cell = s.peer_certificates().unwrap();
    assert_eq!(cell.get().unwrap(), &chain_a());
}

// Scenario A: CA configured, mTLS optional, client presented nothing; the
// handshake succeeds and the cell stays empty.
#[test]
fn completion_without_client_chain_leaves_cell_empty() {
    let policy = ClientAuthPolicy::OptionalMtls(chain_b());
    assert!(check_client_auth(&policy, false, false));

    let mut s = TlsStream::accept(addr(3));
    let step = s.on_handshake_event(HandshakeEvent::Complete(None));
    assert!(matches!(step, HandshakeStep::Proceed));
    assert!(matches!(s.io_dispatch(), IoDispatch::UseStream));
    assert!(s.peer_certificates().unwrap().get().is_none());
}

// Scenario B: CA configured, mTLS mandatory, client presented nothing; the
// handshake fails, the operation surfaces an error and no payload flows.
#[test]
fn mandatory_mtls_without_client_cert_fails() {
    let policy = ClientAuthPolicy::MandatoryMtls(chain_b());
    assert!(!check_client_auth(&policy, false, false));

    let mut s = TlsStream::accept(addr(4));
    let step = s.on_handshake_event(HandshakeEvent::Failed);
    assert!(matches!(step, HandshakeStep::Fail));
    assert!(matches!(s.io_dispatch(), IoDispatch::DriveHandshake));
    assert!(s.peer_certificates().unwrap().get().is_none());
}

#[test]
fn client_auth_semantics() {
    let optional = ClientAuthPolicy::OptionalMtls(chain_b());
    let mandatory = ClientAuthPolicy::MandatoryMtls(chain_b());
    assert!(check_client_auth(&ClientAuthPolicy::NoClientAuth, false, false));
    assert!(check_client_auth(&optional, true, true));
    assert!(!check_client_auth(&optional, true, false));
    assert!(check_client_auth(&mandatory, true, true));
    assert!(!check_client_auth(&mandatory, true, false));
}

// Certificate availability monotonicity: empty while handshaking, filled on
// completion, and every later observation returns the same chain.
#[test]
fn certificate_observations_are_monotonic() {
    let mut s = TlsStream::accept(addr(5));
    assert!(s.peer_certificates().unwrap().get().is_none());
    s.on_handshake_event(HandshakeEvent::Complete(Some(chain_a())));
    let first = s.peer_certificates().unwrap();
    let second = s.peer_certificates().unwrap();
    assert_eq!(first.get().unwrap(), &chain_a());
    assert_eq!(second.get().unwrap(), &chain_a());
}

// State-machine single transition: repeated pending polls leave the
// connection handshaking; completion moves it to streaming, after which all
// reads and writes are directed at the encrypted stream.
#[test]
fn single_transition_over_event_sequence() {
    let mut s = TlsStream::accept(addr(8));
    assert!(matches!(s.on_handshake_event(HandshakeEvent::Pending), HandshakeStep::Suspend));
    assert!(matches!(s.on_handshake_event(HandshakeEvent::Pending), HandshakeStep::Suspend));
    assert!(matches!(s.io_dispatch(), IoDispatch::DriveHandshake));
    assert!(matches!(
        s.on_handshake_event(HandshakeEvent::Complete(Some(chain_a()))),
        HandshakeStep::Proceed
    ));
    assert!(matches!(s.io_dispatch(), IoDispatch::UseStream));
    assert_eq!(s.peer_certificates().unwrap().get().unwrap(), &chain_a());
}

// The cell is shared: a handle taken at accept time, while the handshake
// is still in flight, observes the fill made after it was handed out.
#[test]
fn early_handle_observes_later_fill() {
    let mut s = TlsStream::accept(addr(9));
    let early = s.peer_certificates().unwrap();
    assert!(early.get().is_none());
    s.on_handshake_event(HandshakeEvent::Complete(Some(chain_a())));
    assert_eq!(early.get().unwrap(), &chain_a());
    let late = s.peer_certificates().unwrap();
    assert_eq!(late.get().unwrap(), &chain_a());
    let fresh = Certificates::default();
    assert!(fresh.get().is_none());
}

#[test]
fn resolver_construction_errors() {
    let r = Resolver::new(Err(load_err("garbled pem")), Ok(ed25519_key()));
    match r {
        Err(e @ TlsError::BadCertChain(_)) => {
            assert_eq!(e.label(), "bad TLS cert chain");
            match e {
                TlsError::BadCertChain(le) => assert_eq!(le.message, "garbled pem"),
                _ => unreachable!(),
            }
        }
        _ => panic!("expected a cert-chain error"),
    }

    let r = Resolver::new(Ok(chain_a()), Err(load_err("truncated key")));
    match r {
        Err(e @ TlsError::BadPrivateKey(_)) => {
            assert_eq!(e.label(), "bad TLS private key");
        }
        _ => panic!("expected a private-key error"),
    }
}

// Exercises the rustls-backed resolution: a parseable signing key resolves
// to a certified key, unparsable bytes do not.
#[test]
fn resolve_depends_on_key_support() {
    let good = Resolver::new(Ok(chain_a()), Ok(ed25519_key())).ok().unwrap();
    assert!(good.resolve().is_some());

    let bad = Resolver::new(Ok(chain_a()), Ok(vec![0, 1, 2, 3])).ok().unwrap();
    assert!(bad.resolve().is_none());
}

// Scenario D: a successful reload swaps the active material wholesale; a
// snapshot taken by an earlier handshake keeps the old chain.
#[test]
fn reload_success_swaps_material() {
    let mut r = Resolver::new(Ok(chain_a()), Ok(ed25519_key())).ok().unwrap();
    let before = r.current_material();

    let mut new_key = ed25519_key();
    let last = new_key.len() - 1;
    new_key[last] ^= 1;
    let replaced = r.apply_reload(Ok(chain_b()), Ok(new_key.clone()));
    assert!(replaced);

    let after = r.current_material();
    assert_eq!(after.cert_chain, chain_b());
    assert_eq!(after.private_key, new_key);
    assert_eq!(before.cert_chain, chain_a());
    assert_eq!(before.private_key, ed25519_key());
}

// Scenario E: a reload with an unparsable key leaves the active state
// unchanged and a later resolution still succeeds with the previous chain.
#[test]
fn reload_failure_retains_previous_material() {
    let mut r = Resolver::new(Ok(chain_a()), Ok(ed25519_key())).ok().unwrap();
    let replaced = r.apply_reload(Ok(chain_b()), Err(load_err("mid-rewrite")));
    assert!(!replaced);

    let material = r.current_material();
    assert_eq!(material.cert_chain, chain_a());
    assert_eq!(material.private_key, ed25519_key());
    assert!(r.resolve().is_some());

    let replaced = r.apply_reload(Err(load_err("mid-rewrite")), Ok(ed25519_key()));
    assert!(!replaced);
    assert_eq!(r.current_material().cert_chain, chain_a());
}

#[test]
fn alpn_advertises_h2_first_when_enabled() {
    let with_h2 = alpn_protocols(true);
    assert_eq!(with_h2, vec![b"h2".to_vec(), b"http/1.1".to_vec()]);
    let without = alpn_protocols(false);
    assert_eq!(without, vec![b"http/1.1".to_vec()]);
}

#[test]
fn client_auth_policy_from_config() {
    match client_auth_policy(None, true) {
        Ok(ClientAuthPolicy::NoClientAuth) => {}
        _ => panic!("no CA source must mean no client auth"),
    }
    match client_auth_policy(Some(Ok(chain_b())), true) {
        Ok(ClientAuthPolicy::MandatoryMtls(ca)) => assert_eq!(ca, chain_b()),
        _ => panic!("CA with the mandatory flag must require a client cert"),
    }
    match client_auth_policy(Some(Ok(chain_b())), false) {
        Ok(ClientAuthPolicy::OptionalMtls(ca)) => assert_eq!(ca, chain_b()),
        _ => panic!("CA without the mandatory flag must accept anonymous clients"),
    }
    match client_auth_policy(Some(Err(load_err("not pem"))), false) {
        Err(TlsError::BadCaCerts(le)) => assert_eq!(le.message, "not pem"),
        _ => panic!("a malformed CA set must be construction-fatal"),
    }
}

#[test]
fn plan_covers_the_whole_engine_configuration() {
    let config = Config {
        ciphersuites: vec![0x1301, 0x1302],
        prefer_server_order: true,
        mandatory_mtls: false,
        http2: true,
    };
    let plan = plan_server_config(config, Some(Ok(chain_b()))).ok().unwrap();
    assert!(matches!(plan.client_auth, ClientAuthPolicy::OptionalMtls(_)));
    assert_eq!(plan.ciphersuites, vec![0x1301, 0x1302]);
    assert!(plan.ignore_client_order);
    assert_eq!(plan.alpn_protocols, vec![b"h2".to_vec(), b"http/1.1".to_vec()]);
    assert_eq!(plan.session_cache_capacity, 1024);
    assert_eq!(plan.session_cache_capacity, SESSION_CACHE_CAPACITY);

    let config = Config {
        ciphersuites: vec![],
        prefer_server_order: false,
        mandatory_mtls: true,
        http2: false,
    };
    match plan_server_config(config, Some(Err(load_err("not pem")))) {
        Err(TlsError::BadCaCerts(_)) => {}
        _ => panic!("a malformed CA set must fail the plan"),
    }
}

fn plain_config() -> Config {
    Config {
        ciphersuites: vec![0x1303],
        prefer_server_order: false,
        mandatory_mtls: false,
        http2: false,
    }
}

// Bind-time failure precedence: a malformed CA set is reported first, then
// a malformed chain, then a malformed key; with every source well-formed
// the plan and the resolver's initial material come out together.
#[test]
fn listener_plan_error_precedence() {
    match plan_listener(
        plain_config(),
        Err(load_err("bad chain")),
        Err(load_err("bad key")),
        Some(Err(load_err("bad ca"))),
    ) {
        Err(TlsError::BadCaCerts(le)) => assert_eq!(le.message, "bad ca"),
        _ => panic!("the CA error must take precedence"),
    }
    match plan_listener(plain_config(), Err(load_err("bad chain")), Err(load_err("bad key")), None)
    {
        Err(TlsError::BadCertChain(le)) => assert_eq!(le.message, "bad chain"),
        _ => panic!("the chain error must come before the key error"),
    }
    match plan_listener(
        plain_config(),
        Ok(chain_a()),
        Err(load_err("bad key")),
        Some(Ok(chain_b())),
    ) {
        Err(TlsError::BadPrivateKey(le)) => assert_eq!(le.message, "bad key"),
        _ => panic!("the key error must be reported last"),
    }
    let (plan, resolver) =
        plan_listener(plain_config(), Ok(chain_a()), Ok(ed25519_key()), None).ok().unwrap();
    assert!(matches!(plan.client_auth, ClientAuthPolicy::NoClientAuth));
    assert_eq!(plan.alpn_protocols, vec![b"http/1.1".to_vec()]);
    assert_eq!(resolver.current_material().cert_chain, chain_a());
    assert_eq!(resolver.current_material().private_key, ed25519_key());
}

#[test]
fn control_operations_never_advance_the_handshake() {
    let mut s = TlsStream::accept(addr(6));
    assert!(matches!(s.control_dispatch(true), ControlAction::RawSocket));
    assert!(matches!(s.control_dispatch(false), ControlAction::TrivialSuccess));
    s.on_handshake_event(HandshakeEvent::Complete(None));
    assert!(matches!(s.control_dispatch(true), ControlAction::EncryptedStream));
    assert!(matches!(s.control_dispatch(false), ControlAction::EncryptedStream));
}
