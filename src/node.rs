use vstd::prelude::*;

verus! {

/// A transport endpoint: an IPv6 address (IPv4 peers as IPv4-mapped
/// addresses) held as one 128-bit number, and a port.
#[derive(PartialEq, Eq, Structural, Clone, Copy, Debug, Hash)]
pub struct PeerAddr {
    pub ip: u128,
    pub port: u16,
}

/// Liveness of a known peer.
#[derive(PartialEq, Eq, Structural, Clone, Copy, Debug, Hash)]
pub enum NodeState {
    Online,
    Offline,
    Uncontacted,
}

/// One known address with its liveness and scheduling data. Times are whole
/// seconds since the Unix epoch.
#[derive(PartialEq, Eq, Structural, Clone, Copy, Debug)]
pub struct Node {
    pub addr: PeerAddr,
    pub state: NodeState,
    /// When the node was last claimed for a visit.
    pub last_visit: u64,
    /// Consecutive visits that did not complete a handshake.
    pub visits_missed: u32,
}

/// Quadratic backoff: a node that missed `k` visits in a row waits
/// `k * k * base_interval` seconds after its last claim.
#[derive(PartialEq, Eq, Structural, Clone, Copy, Debug)]
pub struct BackoffPolicy {
    pub base_interval: u64,
}

pub open spec fn backoff(p: BackoffPolicy, missed: nat) -> int {
    missed * missed * p.base_interval
}

/// The first moment at which the node may be claimed again.
pub open spec fn next_eligible(p: BackoffPolicy, n: Node) -> int {
    n.last_visit + backoff(p, n.visits_missed as nat)
}

/// A node is due once its backoff window has elapsed. A claim at `now` sets
/// `last_visit` to `now`, and the node is never due at the very moment it was
/// claimed, even with an empty window.
pub open spec fn is_due(p: BackoffPolicy, n: Node, now: u64) -> bool {
    n.last_visit < now && next_eligible(p, n) <= now
}

/// A freshly known address: uncontacted, never visited, hence due at once.
pub open spec fn fresh_node(addr: PeerAddr) -> Node {
    Node { addr, state: NodeState::Uncontacted, last_visit: 0, visits_missed: 0 }
}

/// Backoff never shrinks as misses accumulate: with all else equal, a node
/// that missed one visit more is due no earlier.
pub proof fn lemma_backoff_monotone(p: BackoffPolicy, n: Node, now: u64)
    requires
        n.visits_missed < u32::MAX,
    ensures
        backoff(p, n.visits_missed as nat) <= backoff(p, n.visits_missed as nat + 1),
        is_due(p, Node { visits_missed: (n.visits_missed + 1) as u32, ..n }, now) ==> is_due(p, n, now),
{
    let k = n.visits_missed as nat;
    let b = p.base_interval as int;
    assert(k * k * b <= (k + 1) * (k + 1) * b) by (nonlinear_arith)
        requires k >= 0, b >= 0;
}

impl BackoffPolicy {
    /// The window in seconds after a claim, for a node with `missed` misses.
    pub fn window(&self, missed: u32) -> (r: u128)
        ensures
            r == backoff(*self, missed as nat),
    {
        let m = missed as u128;
        proof {
            assert(m * m <= 0xffff_ffff_ffff_ffffu128 * 0xffff_ffff_ffff_ffffu128) by (nonlinear_arith)
                requires m <= 0xffff_ffffu128;
            assert(m * m * (self.base_interval as u128) <= 0xffff_ffff_ffff_ffff_ffff_ffff_ffff_ffffu128) by (nonlinear_arith)
                requires m <= 0xffff_ffffu128, self.base_interval <= 0xffff_ffff_ffff_ffffu64;
        }
        m * m * (self.base_interval as u128)
    }

    /// Whether `node` may be claimed at `now`.
    pub fn due(&self, node: &Node, now: u64) -> (r: bool)
        ensures
            r == is_due(*self, *node, now),
    {
        if node.last_visit >= now {
            false
        } else {
            let w = self.window(node.visits_missed);
            w <= (now - node.last_visit) as u128
        }
    }
}

impl Node {
    /// The node a newly learned address starts as.
    pub fn fresh(addr: PeerAddr) -> (r: Node)
        ensures
            r == fresh_node(addr),
    {
        Node { addr, state: NodeState::Uncontacted, last_visit: 0, visits_missed: 0 }
    }
}

} // verus!
