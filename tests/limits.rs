use forest_network::limits::{ConnectionCounts, ConnectionKind, ConnectionLimits};

const KINDS: [ConnectionKind; 5] = [
    ConnectionKind::PendingIncoming,
    ConnectionKind::PendingOutgoing,
    ConnectionKind::EstablishedIncoming,
    ConnectionKind::EstablishedOutgoing,
    ConnectionKind::EstablishedPerPeer,
];

#[test]
fn policy_limits() {
    let l = ConnectionLimits::for_target_peer_count(75);
    assert_eq!(l.max_pending_incoming, Some(10));
    assert_eq!(l.max_pending_outgoing, Some(30));
    assert_eq!(l.max_established_incoming, Some(75));
    assert_eq!(l.max_established_outgoing, Some(75));
    assert_eq!(l.max_established_per_peer, Some(5));
}

#[test]
fn admission_within_and_beyond_bounds() {
    let n = 7u32;
    let l = ConnectionLimits::for_target_peer_count(n);
    let expected = [10u32, 30, n, n, 5];
    for (k, &bound) in KINDS.iter().zip(expected.iter()) {
        let mut c = ConnectionCounts::empty();
        for _ in 0..bound {
            assert!(l.admits(&c, *k));
            c.record(*k);
        }
        assert_eq!(c.count(*k), bound);
        assert!(!l.admits(&c, *k));
        for other in KINDS.iter().filter(|o| *o != k) {
            assert!(l.admits(&c, *other));
        }
    }
}

#[test]
fn unlimited_admits_everything() {
    let l = ConnectionLimits::unlimited();
    let mut c = ConnectionCounts::empty();
    c.established_incoming = u32::MAX;
    assert!(l.admits(&c, ConnectionKind::EstablishedIncoming));
    assert_eq!(l.limit(ConnectionKind::PendingOutgoing), None);
}

#[test]
fn zero_target_refuses_established() {
    let l = ConnectionLimits::for_target_peer_count(0);
    let c = ConnectionCounts::empty();
    assert!(!l.admits(&c, ConnectionKind::EstablishedIncoming));
    assert!(!l.admits(&c, ConnectionKind::EstablishedOutgoing));
    assert!(l.admits(&c, ConnectionKind::PendingIncoming));
}

#[test]
fn record_saturates() {
    let mut c = ConnectionCounts::empty();
    c.pending_outgoing = u32::MAX;
    c.record(ConnectionKind::PendingOutgoing);
    assert_eq!(c.pending_outgoing, u32::MAX);
    c.record(ConnectionKind::PendingIncoming);
    assert_eq!(c.pending_incoming, 1);
}
