//! The life of one connection attempt.
//!
//! A plain attempt goes `Connecting -> Connected | Failed`; a TLS attempt
//! goes `Connecting -> TlsHandshaking -> Connected | Failed`. Both ends are
//! terminal. The caller performs the network work that each action asks for
//! and feeds back what happened as an event.
use vstd::prelude::*;

verus! {

/// Why one attempt did not join the live set.
#[derive(Clone, Copy, Debug, PartialEq, Eq, Structural)]
pub enum AttemptFailure {
    /// The TCP connection could not be opened.
    Connect,
    /// The TLS handshake failed, for instance on a peer-name mismatch.
    Handshake,
}

#[derive(Clone, Copy, Debug, PartialEq, Eq, Structural)]
pub enum AttemptState {
    Connecting,
    TlsHandshaking,
    Connected,
    Failed(AttemptFailure),
}

#[derive(Clone, Copy, Debug, PartialEq, Eq, Structural)]
pub enum AttemptEvent {
    TcpConnected,
    TcpFailed,
    HandshakeSucceeded,
    HandshakeFailed,
}

/// What the caller is to do next with the attempt's stream.
#[derive(Clone, Copy, Debug, PartialEq, Eq, Structural)]
pub enum AttemptAction {
    /// Run a TLS client handshake on the new TCP stream.
    StartHandshake,
    /// Hand the stream to the pool.
    Admit,
    /// Drop the attempt; the failure is recorded, never retried.
    Discard(AttemptFailure),
    /// The event does not apply in this state; nothing changes.
    Ignore,
}

impl AttemptState {
    pub open spec fn is_terminal(self) -> bool {
        self is Connected || self is Failed
    }
}

/// The transition of one attempt on one event, for a TLS attempt when `tls`
/// holds and a plain one otherwise.
pub open spec fn transition(tls: bool, state: AttemptState, event: AttemptEvent) -> (
    AttemptState,
    AttemptAction,
) {
    match (state, event) {
        (AttemptState::Connecting, AttemptEvent::TcpConnected) => if tls {
            (AttemptState::TlsHandshaking, AttemptAction::StartHandshake)
        } else {
            (AttemptState::Connected, AttemptAction::Admit)
        },
        (AttemptState::Connecting, AttemptEvent::TcpFailed) => (
            AttemptState::Failed(AttemptFailure::Connect),
            AttemptAction::Discard(AttemptFailure::Connect),
        ),
        (AttemptState::TlsHandshaking, AttemptEvent::HandshakeSucceeded) => (
            AttemptState::Connected,
            AttemptAction::Admit,
        ),
        (AttemptState::TlsHandshaking, AttemptEvent::HandshakeFailed) => (
            AttemptState::Failed(AttemptFailure::Handshake),
            AttemptAction::Discard(AttemptFailure::Handshake),
        ),
        _ => (state, AttemptAction::Ignore),
    }
}

impl AttemptState {
    /// Advances an attempt by one event.
    pub fn step(self, tls: bool, event: AttemptEvent) -> (r: (AttemptState, AttemptAction))
        ensures
            r == transition(tls, self, event),
            self.is_terminal() ==> r == (self, AttemptAction::Ignore),
            r.1 is Admit <==> r.0 is Connected && !self.is_terminal(),
            r.1 is StartHandshake ==> tls,
    {
        match (self, event) {
            (AttemptState::Connecting, AttemptEvent::TcpConnected) => {
                if tls {
                    (AttemptState::TlsHandshaking, AttemptAction::StartHandshake)
                } else {
                    (AttemptState::Connected, AttemptAction::Admit)
                }
            },
            (AttemptState::Connecting, AttemptEvent::TcpFailed) => (
                AttemptState::Failed(AttemptFailure::Connect),
                AttemptAction::Discard(AttemptFailure::Connect),
            ),
            (AttemptState::TlsHandshaking, AttemptEvent::HandshakeSucceeded) => (
                AttemptState::Connected,
                AttemptAction::Admit,
            ),
            (AttemptState::TlsHandshaking, AttemptEvent::HandshakeFailed) => (
                AttemptState::Failed(AttemptFailure::Handshake),
                AttemptAction::Discard(AttemptFailure::Handshake),
            ),
            _ => (self, AttemptAction::Ignore),
        }
    }
}

} // verus!
