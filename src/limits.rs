//! Connection admission: the ceilings handed to the swarm, and the decision
//! whether one more connection of a kind stays within them.
use vstd::prelude::*;

verus! {

/// Most incoming connections still in their handshake.
pub const MAX_PENDING_INCOMING: u32 = 10;

/// Most outgoing connections still in their handshake.
pub const MAX_PENDING_OUTGOING: u32 = 30;

/// Most established connections to one remote peer.
pub const MAX_ESTABLISHED_PER_PEER: u32 = 5;

/// Five independent ceilings; `None` means unbounded.
#[derive(Clone, Copy, Debug, PartialEq, Eq)]
pub struct ConnectionLimits {
    pub max_pending_incoming: Option<u32>,
    pub max_pending_outgoing: Option<u32>,
    pub max_established_incoming: Option<u32>,
    pub max_established_outgoing: Option<u32>,
    pub max_established_per_peer: Option<u32>,
}

/// The kind of a connection attempt, which decides the ceiling it meets.
#[derive(Clone, Copy, Debug, PartialEq, Eq)]
pub enum ConnectionKind {
    PendingIncoming,
    PendingOutgoing,
    EstablishedIncoming,
    EstablishedOutgoing,
    EstablishedPerPeer,
}

/// How many connections of each kind are open now (the per-peer count is
/// that of the peer the attempt is for).
#[derive(Clone, Copy, Debug, PartialEq, Eq)]
pub struct ConnectionCounts {
    pub pending_incoming: u32,
    pub pending_outgoing: u32,
    pub established_incoming: u32,
    pub established_outgoing: u32,
    pub established_per_peer: u32,
}

/// A limit admits one more connection when it is absent or the current
/// count is below it.
pub open spec fn within(limit: Option<u32>, current: u32) -> bool {
    match limit {
        None => true,
        Some(l) => current < l,
    }
}

impl ConnectionLimits {
    /// No ceiling at all.
    pub fn unlimited() -> (r: Self)
        ensures
            r.max_pending_incoming.is_none(),
            r.max_pending_outgoing.is_none(),
            r.max_established_incoming.is_none(),
            r.max_established_outgoing.is_none(),
            r.max_established_per_peer.is_none(),
    {
        ConnectionLimits {
            max_pending_incoming: None,
            max_pending_outgoing: None,
            max_established_incoming: None,
            max_established_outgoing: None,
            max_established_per_peer: None,
        }
    }

    /// The service's policy: 10 pending incoming, 30 pending outgoing, the
    /// target peer count established each way, 5 per peer.
    pub fn for_target_peer_count(target_peer_count: u32) -> (r: Self)
        ensures
            r.max_pending_incoming == Some(10u32),
            r.max_pending_outgoing == Some(30u32),
            r.max_established_incoming == Some(target_peer_count),
            r.max_established_outgoing == Some(target_peer_count),
            r.max_established_per_peer == Some(5u32),
    {
        ConnectionLimits {
            max_pending_incoming: Some(MAX_PENDING_INCOMING),
            max_pending_outgoing: Some(MAX_PENDING_OUTGOING),
            max_established_incoming: Some(target_peer_count),
            max_established_outgoing: Some(target_peer_count),
            max_established_per_peer: Some(MAX_ESTABLISHED_PER_PEER),
        }
    }

    /// The ceiling that applies to a kind of connection.
    pub open spec fn limit_spec(self, kind: ConnectionKind) -> Option<u32> {
        match kind {
            ConnectionKind::PendingIncoming => self.max_pending_incoming,
            ConnectionKind::PendingOutgoing => self.max_pending_outgoing,
            ConnectionKind::EstablishedIncoming => self.max_established_incoming,
            ConnectionKind::EstablishedOutgoing => self.max_established_outgoing,
            ConnectionKind::EstablishedPerPeer => self.max_established_per_peer,
        }
    }

    /// The ceiling that applies to a kind of connection.
    pub fn limit(&self, kind: ConnectionKind) -> (r: Option<u32>)
        ensures
            r == self.limit_spec(kind),
    {
        match kind {
            ConnectionKind::PendingIncoming => self.max_pending_incoming,
            ConnectionKind::PendingOutgoing => self.max_pending_outgoing,
            ConnectionKind::EstablishedIncoming => self.max_established_incoming,
            ConnectionKind::EstablishedOutgoing => self.max_established_outgoing,
            ConnectionKind::EstablishedPerPeer => self.max_established_per_peer,
        }
    }

    /// Whether a new connection of `kind` is admitted given the current counts.
    pub fn admits(&self, counts: &ConnectionCounts, kind: ConnectionKind) -> (r: bool)
        ensures
            r == within(self.limit_spec(kind), counts.count_spec(kind)),
    {
        let current = counts.count(kind);
        match self.limit(kind) {
            None => true,
            Some(l) => current < l,
        }
    }
}

impl ConnectionCounts {
    /// Nothing open.
    pub fn empty() -> (r: Self)
        ensures
            r.pending_incoming == 0,
            r.pending_outgoing == 0,
            r.established_incoming == 0,
            r.established_outgoing == 0,
            r.established_per_peer == 0,
    {
        ConnectionCounts {
            pending_incoming: 0,
            pending_outgoing: 0,
            established_incoming: 0,
            established_outgoing: 0,
            established_per_peer: 0,
        }
    }

    /// The count of a kind of connection.
    pub open spec fn count_spec(self, kind: ConnectionKind) -> u32 {
        match kind {
            ConnectionKind::PendingIncoming => self.pending_incoming,
            ConnectionKind::PendingOutgoing => self.pending_outgoing,
            ConnectionKind::EstablishedIncoming => self.established_incoming,
            ConnectionKind::EstablishedOutgoing => self.established_outgoing,
            ConnectionKind::EstablishedPerPeer => self.established_per_peer,
        }
    }

    /// The count of a kind of connection.
    pub fn count(&self, kind: ConnectionKind) -> (r: u32)
        ensures
            r == self.count_spec(kind),
    {
        match kind {
            ConnectionKind::PendingIncoming => self.pending_incoming,
            ConnectionKind::PendingOutgoing => self.pending_outgoing,
            ConnectionKind::EstablishedIncoming => self.established_incoming,
            ConnectionKind::EstablishedOutgoing => self.established_outgoing,
            ConnectionKind::EstablishedPerPeer => self.established_per_peer,
        }
    }

    /// Counts one more connection of `kind`, saturating at `u32::MAX`; the
    /// other counts stay.
    pub fn record(&mut self, kind: ConnectionKind)
        ensures
            forall|k: ConnectionKind|
                #[trigger] final(self).count_spec(k) == if k == kind {
                    if old(self).count_spec(k) == u32::MAX {
                        u32::MAX
                    } else {
                        (old(self).count_spec(k) + 1) as u32
                    }
                } else {
                    old(self).count_spec(k)
                },
    {
        match kind {
            ConnectionKind::PendingIncoming => {
                self.pending_incoming = self.pending_incoming.saturating_add(1);
            },
            ConnectionKind::PendingOutgoing => {
                self.pending_outgoing = self.pending_outgoing.saturating_add(1);
            },
            ConnectionKind::EstablishedIncoming => {
                self.established_incoming = self.established_incoming.saturating_add(1);
            },
            ConnectionKind::EstablishedOutgoing => {
                self.established_outgoing = self.established_outgoing.saturating_add(1);
            },
            ConnectionKind::EstablishedPerPeer => {
                self.established_per_peer = self.established_per_peer.saturating_add(1);
            },
        }
    }
}

} // verus!
