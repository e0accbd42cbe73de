//! The deferred-handshake connection: accepted immediately in the
//! `Handshaking` state, it drives the TLS handshake lazily from its first
//! read or write, transitions exactly once to `Streaming`, and fills its
//! certificate cell right after a successful handshake in which the peer
//! presented certificates.
//!
//! The I/O layer owns the actual handshake operation and the sockets; it
//! reports what polling them produced as a [`HandshakeEvent`] and performs
//! the [`HandshakeStep`] / [`ControlAction`] decided here.

use crate::cert::{CertificateDer, Certificates};
use vstd::prelude::*;

verus! {

/// Peer address, fixed when the connection is accepted and never
/// recomputed.
#[derive(Clone, Copy)]
pub enum PeerAddr {
    V4 { octets: [u8; 4], port: u16 },
    V6 { octets: [u8; 16], port: u16 },
}

/// Phase of a [`TlsStream`]. The transition `Handshaking` to `Streaming`
/// happens at most once and never backward.
pub enum TlsState {
    /// The TLS handshake is still in flight; there is no encrypted stream
    /// yet.
    Handshaking,
    /// The handshake completed successfully; payload bytes flow through
    /// the encrypted stream.
    Streaming,
}

/// What one poll of the in-flight handshake operation produced.
pub enum HandshakeEvent {
    /// The handshake made no progress this turn; the underlying I/O would
    /// block.
    Pending,
    /// The handshake completed, with the peer's certificate chain if the
    /// peer presented one.
    Complete(Option<Vec<CertificateDer>>),
    /// The handshake failed; this is local to the connection.
    Failed,
}

/// What the read/write path does after feeding one handshake event in.
pub enum HandshakeStep {
    /// Suspend the operation until the scheduler wakes it; the handshake
    /// is still in flight.
    Suspend,
    /// Surface an I/O error from this operation; the failure does not
    /// affect the listener or other connections.
    Fail,
    /// Now streaming: retry the originally requested read/write against
    /// the encrypted stream within the same operation.
    Proceed,
}

/// Outcome of one turn of a read or write operation (see
/// [`TlsStream::drive_read_write`]).
pub enum RwOutcome {
    /// The handshake would block: suspend until the scheduler wakes the
    /// operation.
    Suspend,
    /// The handshake failed: surface a connection-local I/O error.
    Error,
    /// Delegate the originally requested read or write to the encrypted
    /// stream.
    DelegateToStream,
}

/// Where a read or write is directed.
pub enum IoDispatch {
    /// Still handshaking: poll the handshake operation first.
    DriveHandshake,
    /// Streaming: delegate directly to the encrypted stream.
    UseStream,
}

/// Where a flush, shutdown or no-delay toggle is directed. None of these
/// advances the handshake.
pub enum ControlAction {
    /// Still handshaking and the raw socket is presently reachable: apply
    /// to the raw socket.
    RawSocket,
    /// Still handshaking and the handshake operation momentarily holds
    /// the raw socket: succeed trivially (no plaintext bytes are buffered
    /// before the handshake).
    TrivialSuccess,
    /// Streaming: delegate through the encrypted stream.
    EncryptedStream,
}

/// Abstract state of a connection: its phase and the contents of its
/// certificate cell.
pub struct ConnModel {
    pub streaming: bool,
    pub certs: Option<Seq<Seq<u8>>>,
}

/// A connection is well-formed when its certificate cell is still empty
/// while the handshake is in flight: emptiness before completion means
/// "not yet known", and only the handshake's own completion fills the
/// cell.
pub open spec fn conn_wf(m: ConnModel) -> bool {
    !m.streaming ==> m.certs is None
}

/// One step of the connection state machine. A streaming connection is
/// unaffected by handshake events; a handshaking one transitions to
/// streaming exactly on completion, capturing the peer's chain, and stays
/// handshaking on a pending poll or a failure.
pub open spec fn conn_step(m: ConnModel, ev: HandshakeEvent) -> ConnModel {
    if m.streaming {
        m
    } else {
        match ev {
            HandshakeEvent::Pending => m,
            HandshakeEvent::Failed => m,
            HandshakeEvent::Complete(chain) => ConnModel {
                streaming: true,
                certs: match chain {
                    Option::Some(c) => Option::Some(c.deep_view()),
                    Option::None => m.certs,
                },
            },
        }
    }
}

/// The state after a whole sequence of handshake events.
pub open spec fn conn_run(m: ConnModel, evs: Seq<HandshakeEvent>) -> ConnModel
    decreases evs.len(),
{
    if evs.len() == 0 {
        m
    } else {
        conn_run(conn_step(m, evs[0]), evs.subrange(1, evs.len() as int))
    }
}

/// How many `Handshaking` to `Streaming` transitions a sequence of events
/// causes.
pub open spec fn transition_count(m: ConnModel, evs: Seq<HandshakeEvent>) -> nat
    decreases evs.len(),
{
    if evs.len() == 0 {
        0
    } else {
        let m2 = conn_step(m, evs[0]);
        (if !m.streaming && m2.streaming {
            1nat
        } else {
            0nat
        }) + transition_count(m2, evs.subrange(1, evs.len() as int))
    }
}

/// A streaming connection is absorbed: no sequence of handshake events
/// changes its phase or its certificate cell, and none causes a further
/// transition. In particular the state machine never moves backward.
pub proof fn lemma_streaming_absorbing(m: ConnModel, evs: Seq<HandshakeEvent>)
    requires
        m.streaming,
    ensures
        conn_run(m, evs) == m,
        transition_count(m, evs) == 0,
    decreases evs.len(),
{
    if evs.len() > 0 {
        lemma_streaming_absorbing(m, evs.subrange(1, evs.len() as int));
    }
}

/// State-machine single transition: whatever events the reads and writes
/// that drive the one shared handshake operation produce, a connection
/// transitions from `Handshaking` to `Streaming` at most once.
pub proof fn lemma_single_transition(m: ConnModel, evs: Seq<HandshakeEvent>)
    ensures
        transition_count(m, evs) <= 1,
    decreases evs.len(),
{
    if evs.len() > 0 {
        let m2 = conn_step(m, evs[0]);
        let rest = evs.subrange(1, evs.len() as int);
        if m2.streaming {
            lemma_streaming_absorbing(m2, rest);
        } else {
            lemma_single_transition(m2, rest);
        }
    }
}

/// Certificate availability is monotonic: steps preserve well-formedness,
/// before handshake completion the cell is empty (that is what
/// well-formedness of a handshaking connection says), and once the cell
/// holds a chain, every later observation returns the same chain — it is
/// never non-empty and then empty or different.
pub proof fn lemma_certificates_monotonic(m: ConnModel, evs: Seq<HandshakeEvent>)
    requires
        conn_wf(m),
    ensures
        conn_wf(conn_run(m, evs)),
        m.certs is Some ==> conn_run(m, evs) == m,
    decreases evs.len(),
{
    if evs.len() > 0 {
        let m2 = conn_step(m, evs[0]);
        lemma_certificates_monotonic(m2, evs.subrange(1, evs.len() as int));
    }
}

/// A connection over a raw byte stream: accepted without waiting on the
/// handshake, it exposes the same read/write surface before and after the
/// handshake completes.
pub struct TlsStream {
    remote: PeerAddr,
    state: TlsState,
    certs: Certificates,
}

impl TlsStream {
    /// The fixed peer address.
    pub closed spec fn remote_spec(&self) -> PeerAddr {
        self.remote
    }

    /// Whether the handshake has completed.
    pub closed spec fn is_streaming(&self) -> bool {
        self.state is Streaming
    }

    /// Contents of the certificate cell.
    pub closed spec fn cert_contents(&self) -> Option<Seq<Seq<u8>>> {
        self.certs.contents()
    }

    /// Whether the connection's own cell handle is the cell's creator or
    /// has seen the fill — always true of a connection, which creates its
    /// cell at accept time and is the only one to fill it.
    pub closed spec fn certs_owned(&self) -> bool {
        self.certs.owned()
    }

    /// The connection's abstract state.
    pub open spec fn model(&self) -> ConnModel {
        ConnModel { streaming: self.is_streaming(), certs: self.cert_contents() }
    }

    /// Well-formedness of the connection (see [`conn_wf`]), together with
    /// the connection's creator hold on its certificate cell.
    pub open spec fn wf(&self) -> bool {
        conn_wf(self.model()) && self.certs_owned()
    }

    /// Wrap a freshly accepted raw connection: immediately in the
    /// `Handshaking` phase with an empty certificate cell, whatever the
    /// handshake will later do. Accepting never waits on a handshake.
    pub fn accept(remote: PeerAddr) -> (c: TlsStream)
        ensures
            c.model() == (ConnModel { streaming: false, certs: Option::None }),
            c.remote_spec() == remote,
            c.wf(),
    {
        TlsStream { remote, state: TlsState::Handshaking, certs: Certificates::new() }
    }

    /// The peer address: always available, fixed at accept time.
    pub fn peer_address(&self) -> (r: Option<PeerAddr>)
        ensures
            r == Option::Some(self.remote_spec()),
    {
        Option::Some(self.remote)
    }

    /// A handle to the certificate cell: always returned, even before the
    /// handshake has completed. The handle aliases the connection's own
    /// cell, so a fill that happens after the handle was taken is visible
    /// through it at run time. While the connection is still handshaking
    /// the cell reads empty, which means "not yet known", not "no client
    /// certificate"; contents are authoritative once payload data has
    /// flowed, and that ordering is the caller's to keep.
    pub fn peer_certificates(&self) -> (r: Option<Certificates>)
        ensures
            r matches Option::Some(h) && h.contents() == self.cert_contents(),
    {
        Option::Some(self.certs.handle())
    }

    /// Where a read or write goes first: drive the handshake while it is
    /// in flight, otherwise straight to the encrypted stream.
    pub fn io_dispatch(&self) -> (d: IoDispatch)
        ensures
            d is UseStream <==> self.is_streaming(),
    {
        match self.state {
            TlsState::Handshaking => IoDispatch::DriveHandshake,
            TlsState::Streaming => IoDispatch::UseStream,
        }
    }

    /// Feed in what one poll of the handshake operation produced, and
    /// decide what the pending read/write does next. On completion the
    /// connection captures the peer's chain (if one was presented) in its
    /// cell and transitions — exactly once — to `Streaming`; on failure
    /// it surfaces a connection-local error; on a pending poll it
    /// suspends.
    pub fn on_handshake_event(&mut self, ev: HandshakeEvent) -> (step: HandshakeStep)
        requires
            !old(self).is_streaming(),
            old(self).wf(),
        ensures
            final(self).model() == conn_step(old(self).model(), ev),
            final(self).remote_spec() == old(self).remote_spec(),
            final(self).wf(),
            match ev {
                HandshakeEvent::Pending => step is Suspend && !final(self).is_streaming(),
                HandshakeEvent::Failed => step is Fail && !final(self).is_streaming(),
                HandshakeEvent::Complete(_) => step is Proceed && final(self).is_streaming(),
            },
    {
        match ev {
            HandshakeEvent::Pending => HandshakeStep::Suspend,
            HandshakeEvent::Failed => HandshakeStep::Fail,
            HandshakeEvent::Complete(chain) => {
                match chain {
                    Option::Some(c) => self.certs.set(c),
                    Option::None => (),
                }
                self.state = TlsState::Streaming;
                HandshakeStep::Proceed
            },
        }
    }

    /// One turn of a read or write operation. While the handshake is in
    /// flight the caller polls it and hands the event in (`Some`); once
    /// streaming there is nothing to poll (`None`) and the operation goes
    /// straight to the encrypted stream. A completing handshake
    /// transitions the connection and delegates within the same turn, so
    /// the caller never needs a second call to reach the stream; a
    /// pending poll suspends the operation rather than returning to the
    /// caller; a failure surfaces a connection-local error.
    pub fn drive_read_write(&mut self, polled: Option<HandshakeEvent>) -> (r: RwOutcome)
        requires
            old(self).wf(),
            polled is Some <==> !old(self).is_streaming(),
        ensures
            final(self).wf(),
            final(self).remote_spec() == old(self).remote_spec(),
            match polled {
                Option::None => r is DelegateToStream && final(self).model() == old(self).model(),
                Option::Some(ev) => {
                    &&& final(self).model() == conn_step(old(self).model(), ev)
                    &&& match ev {
                        HandshakeEvent::Pending => r is Suspend && !final(self).is_streaming(),
                        HandshakeEvent::Failed => r is Error && !final(self).is_streaming(),
                        HandshakeEvent::Complete(_) => r is DelegateToStream
                            && final(self).is_streaming(),
                    }
                },
            },
    {
        match polled {
            Option::None => RwOutcome::DelegateToStream,
            Option::Some(ev) => match self.on_handshake_event(ev) {
                HandshakeStep::Suspend => RwOutcome::Suspend,
                HandshakeStep::Fail => RwOutcome::Error,
                HandshakeStep::Proceed => RwOutcome::DelegateToStream,
            },
        }
    }

    /// Where a flush, shutdown or no-delay toggle goes. These never
    /// advance the handshake: while handshaking they act on the raw
    /// socket when it is reachable and otherwise succeed trivially (the
    /// handshake operation may transiently hold exclusive access, and no
    /// plaintext is buffered before completion); once streaming they go
    /// through the encrypted stream.
    pub fn control_dispatch(&self, raw_reachable: bool) -> (a: ControlAction)
        ensures
            self.is_streaming() ==> a is EncryptedStream,
            (!self.is_streaming() && raw_reachable) ==> a is RawSocket,
            (!self.is_streaming() && !raw_reachable) ==> a is TrivialSuccess,
    {
        match self.state {
            TlsState::Streaming => ControlAction::EncryptedStream,
            TlsState::Handshaking => {
                if raw_reachable {
                    ControlAction::RawSocket
                } else {
                    ControlAction::TrivialSuccess
                }
            },
        }
    }
}

} // verus!
