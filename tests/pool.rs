use arceus_net::address::{checked_port, first_address, IpAddress, ResolutionError, SocketAddress};
use arceus_net::attempt::{AttemptAction, AttemptEvent, AttemptFailure, AttemptState};
use arceus_net::dispatch::{round_robin_plan, summarize_writes, SendError};
use arceus_net::pool::{ConnectionPool, Endpoint};

fn localhost(port: u16) -> SocketAddress {
    SocketAddress { ip: IpAddress::V4(0x7f00_0001), port }
}

/// A stand-in connection: it records the bytes written to it.
type Recorder = Vec<u8>;

fn ok_round(ids: &[u8]) -> Vec<Result<Recorder, AttemptFailure>> {
    ids.iter().map(|id| Ok(vec![*id])).collect()
}

/// Plans a send and writes each planned payload into its recorder.
fn send_all(pool: &mut ConnectionPool<Recorder>, payloads: &[&[u8]]) -> Result<(), SendError> {
    let plan = pool.plan_send(payloads.len())?;
    for (conn, k) in pool.connections_mut().iter_mut().zip(plan) {
        conn.extend_from_slice(payloads[k]);
    }
    Ok(())
}

/// Runs one attempt through the state machine, given what the network did.
fn run_attempt(tls: bool, tcp_ok: bool, handshake_ok: bool) -> Result<Recorder, AttemptFailure> {
    let tcp = if tcp_ok { AttemptEvent::TcpConnected } else { AttemptEvent::TcpFailed };
    let (mut state, mut action) = AttemptState::Connecting.step(tls, tcp);
    if action == AttemptAction::StartHandshake {
        let hs = if handshake_ok {
            AttemptEvent::HandshakeSucceeded
        } else {
            AttemptEvent::HandshakeFailed
        };
        let next = state.step(tls, hs);
        state = next.0;
        action = next.1;
    }
    match action {
        AttemptAction::Admit => {
            assert_eq!(state, AttemptState::Connected);
            Ok(Vec::new())
        }
        AttemptAction::Discard(e) => {
            assert_eq!(state, AttemptState::Failed(e));
            Err(e)
        }
        other => panic!("attempt ended on {:?}", other),
    }
}

#[test]
fn construction_opens_nothing() {
    let plain: ConnectionPool<Recorder> = ConnectionPool::plain(localhost(9000));
    assert_eq!(plain.live_count(), 0);
    assert!(!plain.is_tls());
    let tls: ConnectionPool<Recorder> = ConnectionPool::tls(localhost(9443), "example.test".to_string());
    assert_eq!(tls.live_count(), 0);
    assert!(tls.is_tls());
    assert_eq!(tls.endpoint().domain.as_deref(), Some("example.test"));
    assert_eq!(tls.endpoint().address, localhost(9443));
}

#[test]
fn unresolvable_host_fails_construction() {
    let none: Vec<SocketAddress> = Vec::new();
    let r: Result<ConnectionPool<Recorder>, ResolutionError> = ConnectionPool::from_candidates(&none, None);
    assert_eq!(r.err(), Some(ResolutionError::NoAddress));
    assert_eq!(first_address(&none), Err(ResolutionError::NoAddress));
}

#[test]
fn first_candidate_is_the_target() {
    let v6 = SocketAddress { ip: IpAddress::V6 { bits: 1, flowinfo: 0, scope_id: 0 }, port: 80 };
    let candidates = vec![localhost(80), v6];
    assert_eq!(first_address(&candidates), Ok(localhost(80)));
    let pool: ConnectionPool<Recorder> = ConnectionPool::from_candidates(&candidates, None).unwrap();
    assert_eq!(pool.endpoint().address, localhost(80));
    assert_eq!(pool.live_count(), 0);
}

#[test]
fn port_must_fit_sixteen_bits() {
    assert_eq!(checked_port(9000), Ok(9000));
    assert_eq!(checked_port(65535), Ok(65535));
    assert_eq!(checked_port(0), Ok(0));
    assert_eq!(checked_port(65536), Err(ResolutionError::InvalidPort));
}

#[test]
fn all_attempts_succeed() {
    let mut pool: ConnectionPool<Recorder> = ConnectionPool::plain(localhost(9000));
    let report = pool.collect_outcomes(ok_round(&[1, 2, 3, 4]));
    assert_eq!(report.succeeded, 4);
    assert!(report.failures.is_empty());
    assert_eq!(pool.live_count(), 4);
}

#[test]
fn connect_is_additive() {
    let mut pool: ConnectionPool<Recorder> = ConnectionPool::plain(localhost(9000));
    let a = pool.collect_outcomes(ok_round(&[1, 2]));
    let b = pool.collect_outcomes(vec![Ok(vec![3]), Err(AttemptFailure::Connect), Ok(vec![4])]);
    assert_eq!(a.succeeded, 2);
    assert_eq!(b.succeeded, 2);
    assert_eq!(pool.live_count(), a.succeeded + b.succeeded);
    // Earlier connections keep their places; new ones follow them.
    let seen: Vec<u8> = pool.connections_mut().iter().map(|c| c[0]).collect();
    assert_eq!(seen, vec![1, 2, 3, 4]);
}

#[test]
fn failures_are_counted_not_raised() {
    let mut pool: ConnectionPool<Recorder> = ConnectionPool::plain(localhost(9000));
    let outcomes = vec![
        Err(AttemptFailure::Connect),
        Ok(vec![1]),
        Err(AttemptFailure::Connect),
        Ok(vec![2]),
        Ok(vec![3]),
    ];
    let report = pool.collect_outcomes(outcomes);
    assert_eq!(pool.live_count(), 5 - 2);
    assert_eq!(report.succeeded, 3);
    assert_eq!(report.failures, vec![AttemptFailure::Connect, AttemptFailure::Connect]);
}

#[test]
fn every_attempt_failing_leaves_the_pool_empty() {
    let mut pool: ConnectionPool<Recorder> = ConnectionPool::plain(localhost(9000));
    let report = pool.collect_outcomes(vec![Err(AttemptFailure::Connect); 3]);
    assert_eq!(report.succeeded, 0);
    assert_eq!(report.failures.len(), 3);
    assert_eq!(pool.live_count(), 0);
}

#[test]
fn plan_cycles_payloads() {
    assert_eq!(round_robin_plan(5, 2), Ok(vec![0, 1, 0, 1, 0]));
    assert_eq!(round_robin_plan(3, 3), Ok(vec![0, 1, 2]));
    assert_eq!(round_robin_plan(2, 5), Ok(vec![0, 1]));
    assert_eq!(round_robin_plan(4, 1), Ok(vec![0, 0, 0, 0]));
    let plan = round_robin_plan(10, 3).unwrap();
    for (i, k) in plan.iter().enumerate() {
        assert_eq!(*k, i % 3);
    }
}

#[test]
fn plan_without_payloads_is_refused() {
    assert_eq!(round_robin_plan(3, 0), Err(SendError::NoPayloads));
    let mut pool: ConnectionPool<Recorder> = ConnectionPool::plain(localhost(9000));
    pool.collect_outcomes(ok_round(&[1]));
    assert_eq!(pool.plan_send(0), Err(SendError::NoPayloads));
}

#[test]
fn send_on_empty_pool_is_a_no_op() {
    assert_eq!(round_robin_plan(0, 0), Ok(vec![]));
    assert_eq!(round_robin_plan(0, 4), Ok(vec![]));
    let mut pool: ConnectionPool<Recorder> = ConnectionPool::plain(localhost(9000));
    assert_eq!(send_all(&mut pool, &[b"x"]), Ok(()));
    assert_eq!(send_all(&mut pool, &[]), Ok(()));
    assert_eq!(pool.live_count(), 0);
}

#[test]
fn four_connections_two_payloads() {
    let mut pool: ConnectionPool<Recorder> = ConnectionPool::plain(localhost(9000));
    let outcomes: Vec<_> = (0..4).map(|_| Ok(Vec::new())).collect();
    pool.collect_outcomes(outcomes);
    assert_eq!(pool.live_count(), 4);
    send_all(&mut pool, &[b"A", b"B"]).unwrap();
    let got: Vec<Vec<u8>> = pool.connections_mut().to_vec();
    assert_eq!(got, vec![b"A".to_vec(), b"B".to_vec(), b"A".to_vec(), b"B".to_vec()]);
    assert_eq!(got.iter().filter(|c| c.as_slice() == b"A").count(), 2);
    assert_eq!(got.iter().filter(|c| c.as_slice() == b"B").count(), 2);
}

#[test]
fn tls_broadcast_and_bijective_send() {
    let mut pool: ConnectionPool<Recorder> = ConnectionPool::tls(localhost(9443), "example.test".to_string());
    let outcomes: Vec<_> = (0..3).map(|_| run_attempt(true, true, true)).collect();
    let report = pool.collect_outcomes(outcomes);
    assert_eq!(report.succeeded, 3);
    send_all(&mut pool, &[b"same"]).unwrap();
    assert!(pool.connections_mut().iter().all(|c| c.as_slice() == b"same"));
    send_all(&mut pool, &[b"0", b"1", b"2"]).unwrap();
    let got: Vec<Vec<u8>> = pool.connections_mut().to_vec();
    assert_eq!(got, vec![b"same0".to_vec(), b"same1".to_vec(), b"same2".to_vec()]);
}

#[test]
fn mismatched_domain_records_handshake_failures() {
    let mut pool: ConnectionPool<Recorder> = ConnectionPool::tls(localhost(9443), "other.test".to_string());
    let outcomes: Vec<_> = (0..2).map(|_| run_attempt(true, true, false)).collect();
    let report = pool.collect_outcomes(outcomes);
    assert_eq!(pool.live_count(), 0);
    assert_eq!(report.succeeded, 0);
    assert_eq!(report.failures, vec![AttemptFailure::Handshake, AttemptFailure::Handshake]);
}

#[test]
fn plain_attempt_skips_the_handshake() {
    assert_eq!(
        AttemptState::Connecting.step(false, AttemptEvent::TcpConnected),
        (AttemptState::Connected, AttemptAction::Admit)
    );
    assert_eq!(run_attempt(false, false, true), Err(AttemptFailure::Connect));
}

#[test]
fn tls_attempt_goes_through_the_handshake() {
    assert_eq!(
        AttemptState::Connecting.step(true, AttemptEvent::TcpConnected),
        (AttemptState::TlsHandshaking, AttemptAction::StartHandshake)
    );
    assert_eq!(
        AttemptState::TlsHandshaking.step(true, AttemptEvent::HandshakeSucceeded),
        (AttemptState::Connected, AttemptAction::Admit)
    );
    assert_eq!(
        AttemptState::Connecting.step(true, AttemptEvent::TcpFailed),
        (AttemptState::Failed(AttemptFailure::Connect), AttemptAction::Discard(AttemptFailure::Connect))
    );
    assert_eq!(run_attempt(true, false, true), Err(AttemptFailure::Connect));
}

#[test]
fn terminal_states_ignore_events() {
    let failed = AttemptState::Failed(AttemptFailure::Handshake);
    assert_eq!(failed.step(true, AttemptEvent::HandshakeSucceeded), (failed, AttemptAction::Ignore));
    assert_eq!(
        AttemptState::Connected.step(false, AttemptEvent::TcpFailed),
        (AttemptState::Connected, AttemptAction::Ignore)
    );
    assert_eq!(
        AttemptState::Connecting.step(true, AttemptEvent::HandshakeFailed),
        (AttemptState::Connecting, AttemptAction::Ignore)
    );
}

#[test]
fn write_failures_are_reported_by_position() {
    let report = summarize_writes(&vec![true, false, true, false, true]);
    assert_eq!(report.delivered, 3);
    assert_eq!(report.failed, vec![1, 3]);
    let empty = summarize_writes(&vec![]);
    assert_eq!(empty.delivered, 0);
    assert!(empty.failed.is_empty());
}
