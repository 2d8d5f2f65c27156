use vstd::prelude::*;
use crate::node::{BackoffPolicy, Node, NodeState, PeerAddr, backoff, is_due, fresh_node};

verus! {

/// No two nodes share an address.
pub open spec fn addrs_unique(s: Seq<Node>) -> bool {
    forall|i: int, j: int| 0 <= i < s.len() && 0 <= j < s.len() && i != j ==> s[i].addr != s[j].addr
}

pub open spec fn has_addr(s: Seq<Node>, addr: PeerAddr) -> bool {
    exists|i: int| 0 <= i < s.len() && s[i].addr == addr
}

/// The directory after registering `addr`: unchanged when the address is known,
/// else one fresh node more at the end.
pub open spec fn registered(s: Seq<Node>, addr: PeerAddr) -> Seq<Node> {
    if has_addr(s, addr) {
        s
    } else {
        s.push(fresh_node(addr))
    }
}

/// The directory after storing `n`: it replaces the node with its address, or
/// is appended when the address is new.
pub open spec fn upserted(s: Seq<Node>, n: Node) -> Seq<Node> {
    if has_addr(s, n.addr) {
        s.map_values(|m: Node| if m.addr == n.addr { n } else { m })
    } else {
        s.push(n)
    }
}

/// The directory after the node at `i` was claimed at `now`.
pub open spec fn claimed(s: Seq<Node>, i: int, now: u64) -> Seq<Node> {
    s.update(i, Node { last_visit: now, ..s[i] })
}

/// How many nodes are in state `st`.
pub open spec fn count_state(s: Seq<Node>, st: NodeState) -> nat
    decreases s.len(),
{
    if s.len() == 0 {
        0
    } else {
        count_state(s.drop_last(), st) + if s.last().state == st { 1nat } else { 0nat }
    }
}

/// The online nodes, in directory order.
pub open spec fn online_of(s: Seq<Node>) -> Seq<Node>
    decreases s.len(),
{
    if s.len() == 0 {
        Seq::empty()
    } else if s.last().state == NodeState::Online {
        online_of(s.drop_last()).push(s.last())
    } else {
        online_of(s.drop_last())
    }
}

/// A snapshot of how many nodes are in each state.
#[derive(PartialEq, Eq, Structural, Clone, Copy, Debug)]
pub struct StateCounts {
    pub online: u64,
    pub offline: u64,
    pub uncontacted: u64,
}

impl StateCounts {
    pub open spec fn count_of(self, st: NodeState) -> u64 {
        match st {
            NodeState::Online => self.online,
            NodeState::Offline => self.offline,
            NodeState::Uncontacted => self.uncontacted,
        }
    }

    /// The count for one state.
    pub fn get(&self, st: NodeState) -> (r: u64)
        ensures
            r == self.count_of(st),
    {
        match st {
            NodeState::Online => self.online,
            NodeState::Offline => self.offline,
            NodeState::Uncontacted => self.uncontacted,
        }
    }
}

/// Every node is in exactly one of the three states, so the three counts add
/// up to the size of the directory.
pub proof fn lemma_counts_sum(s: Seq<Node>)
    ensures
        count_state(s, NodeState::Online) + count_state(s, NodeState::Offline)
            + count_state(s, NodeState::Uncontacted) == s.len(),
    decreases s.len(),
{
    if s.len() > 0 {
        lemma_counts_sum(s.drop_last());
    }
}

/// What is online among the first `j` nodes is a prefix of what is online
/// among the first `k`, for `j <= k`.
proof fn lemma_online_prefix(s: Seq<Node>, j: int, k: int)
    requires
        0 <= j <= k <= s.len(),
    ensures
        online_of(s.take(j)).len() <= online_of(s.take(k)).len(),
        online_of(s.take(k)).take(online_of(s.take(j)).len() as int) == online_of(s.take(j)),
    decreases k - j,
{
    if j < k {
        lemma_online_prefix(s, j, k - 1);
        assert(s.take(k).drop_last() =~= s.take(k - 1));
        let a = online_of(s.take(j));
        let b = online_of(s.take(k - 1));
        assert(b.push(s[k - 1]).take(a.len() as int) =~= b.take(a.len() as int));
    } else {
        assert(online_of(s.take(k)).take(online_of(s.take(j)).len() as int) =~= online_of(s.take(j)));
    }
}

/// A claim hands a node out once. When the node at `i` is the only one due at
/// `now`, then after it is claimed no node is due at `now`, so every further
/// claim at `now` gets none, and the claimed node is due again exactly when
/// its backoff window after `now` has elapsed.
pub proof fn lemma_claim_exclusive(p: BackoffPolicy, s: Seq<Node>, i: int, now: u64)
    requires
        0 <= i < s.len(),
        is_due(p, s[i], now),
        forall|j: int| 0 <= j < s.len() && j != i ==> !is_due(p, s[j], now),
    ensures
        forall|j: int| 0 <= j < s.len() ==> !is_due(p, #[trigger] claimed(s, i, now)[j], now),
        forall|t: u64|
            is_due(p, #[trigger] claimed(s, i, now)[i], t) <==> (now < t && now + backoff(
                p,
                s[i].visits_missed as nat,
            ) <= t),
{
}

/// Registering is idempotent: a second registration of the same address
/// changes nothing, and registering never alters a node already known (its
/// state and missed visits included).
pub proof fn lemma_register_idempotent(s: Seq<Node>, addr: PeerAddr)
    ensures
        registered(registered(s, addr), addr) == registered(s, addr),
        forall|i: int| 0 <= i < s.len() ==> #[trigger] registered(s, addr)[i] == s[i],
{
    if !has_addr(s, addr) {
        let r = s.push(fresh_node(addr));
        assert(r[s.len() as int].addr == addr);
    }
}

/// The directory of known nodes, keyed by address. Every operation is one
/// step on the whole directory; callers that share it across threads hold it
/// under one lock, which makes each operation atomic.
pub struct NodeDb {
    nodes: Vec<Node>,
}

impl View for NodeDb {
    type V = Seq<Node>;

    closed spec fn view(&self) -> Seq<Node> {
        self.nodes@
    }
}

impl NodeDb {
    pub open spec fn wf(&self) -> bool {
        addrs_unique(self@)
    }

    /// An empty directory.
    pub fn new() -> (r: NodeDb)
        ensures
            r@ == Seq::<Node>::empty(),
            r.wf(),
    {
        NodeDb { nodes: Vec::new() }
    }

    /// The number of known nodes.
    pub fn len(&self) -> (r: usize)
        ensures
            r == self@.len(),
    {
        self.nodes.len()
    }

    /// Where the node with address `addr` stands, if it is known.
    fn position(&self, addr: PeerAddr) -> (r: Option<usize>)
        ensures
            match r {
                Some(i) => i < self@.len() && self@[i as int].addr == addr,
                None => !has_addr(self@, addr),
            },
    {
        let mut i: usize = 0;
        while i < self.nodes.len()
            invariant
                i <= self@.len(),
                self@ == self.nodes@,
                forall|j: int| 0 <= j < i ==> self@[j].addr != addr,
            decreases self@.len() - i,
        {
            if self.nodes[i].addr == addr {
                return Some(i);
            }
            i = i + 1;
        }
        None
    }

    /// The node stored under `addr`, if any.
    pub fn node(&self, addr: PeerAddr) -> (r: Option<Node>)
        requires
            self.wf(),
        ensures
            match r {
                Some(n) => exists|i: int| 0 <= i < self@.len() && self@[i] == n && n.addr == addr,
                None => !has_addr(self@, addr),
            },
    {
        match self.position(addr) {
            Some(i) => Some(self.nodes[i]),
            None => None,
        }
    }

    /// Registers `addr` if it is unseen, as an uncontacted node that is due at
    /// once; a known address is left as it is.
    pub fn init(&mut self, addr: PeerAddr)
        requires
            old(self).wf(),
        ensures
            final(self).wf(),
            final(self)@ == registered(old(self)@, addr),
    {
        match self.position(addr) {
            Some(_) => {},
            None => {
                self.nodes.push(Node::fresh(addr));
            },
        }
    }

    /// Stores `node` in place of the node with its address (the last writer
    /// wins), or adds it when the address is new.
    pub fn insert(&mut self, node: Node)
        requires
            old(self).wf(),
        ensures
            final(self).wf(),
            final(self)@ == upserted(old(self)@, node),
    {
        let ghost s = self@;
        match self.position(node.addr) {
            Some(i) => {
                self.nodes.set(i, node);
                assert(self@ =~= upserted(s, node));
            },
            None => {
                self.nodes.push(node);
            },
        }
    }
    /// Claims the first node that is due at `now`: its `last_visit` becomes
    /// `now` before a copy of it is returned, so the node is not handed out
    /// again until its backoff window has elapsed. `None` when no node is due;
    /// the directory is then unchanged.
    pub fn next(&mut self, now: u64, policy: BackoffPolicy) -> (r: Option<Node>)
        requires
            old(self).wf(),
        ensures
            final(self).wf(),
            match r {
                Some(n) => exists|i: int|
                    0 <= i < old(self)@.len() && is_due(policy, old(self)@[i], now)
                        && (forall|j: int| 0 <= j < i ==> !is_due(policy, old(self)@[j], now))
                        && final(self)@ == claimed(old(self)@, i, now) && n == final(self)@[i],
                None => final(self)@ == old(self)@ && forall|j: int|
                    0 <= j < old(self)@.len() ==> !is_due(policy, old(self)@[j], now),
            },
    {
        let ghost s = self@;
        let mut i: usize = 0;
        while i < self.nodes.len()
            invariant
                i <= s.len(),
                self@ == s,
                self.nodes@ == s,
                old(self)@ == s,
                addrs_unique(s),
                forall|j: int| 0 <= j < i ==> !is_due(policy, s[j], now),
            decreases s.len() - i,
        {
            if policy.due(&self.nodes[i], now) {
                let mut n = self.nodes[i];
                n.last_visit = now;
                self.nodes.set(i, n);
                assert(self@ == claimed(s, i as int, now));
                let ghost k = i as int;
                assert(0 <= k < s.len() && is_due(policy, s[k], now) && (forall|j: int|
                    0 <= j < k ==> !is_due(policy, s[j], now)) && self@ == claimed(s, k, now)
                    && n == self@[k]);
                assert forall|a: int, b: int|
                    0 <= a < self@.len() && 0 <= b < self@.len() && a != b implies self@[a].addr
                        != self@[b].addr by {
                    assert(self@[a].addr == s[a].addr && self@[b].addr == s[b].addr);
                }
                return Some(n);
            }
            i = i + 1;
        }
        None
    }

    /// How many nodes are in each state, all three states always present.
    pub fn report(&self) -> (r: StateCounts)
        ensures
            r.online == count_state(self@, NodeState::Online),
            r.offline == count_state(self@, NodeState::Offline),
            r.uncontacted == count_state(self@, NodeState::Uncontacted),
            r.online + r.offline + r.uncontacted == self@.len(),
    {
        let mut counts = StateCounts { online: 0, offline: 0, uncontacted: 0 };
        let mut i: usize = 0;
        while i < self.nodes.len()
            invariant
                i <= self@.len(),
                self.nodes@ == self@,
                counts.online == count_state(self@.take(i as int), NodeState::Online),
                counts.offline == count_state(self@.take(i as int), NodeState::Offline),
                counts.uncontacted == count_state(self@.take(i as int), NodeState::Uncontacted),
            decreases self@.len() - i,
        {
            let ghost t = self@.take(i as int + 1);
            proof {
                assert(t.drop_last() =~= self@.take(i as int));
                lemma_counts_sum(t);
            }
            match self.nodes[i].state {
                NodeState::Online => counts.online = counts.online + 1,
                NodeState::Offline => counts.offline = counts.offline + 1,
                NodeState::Uncontacted => counts.uncontacted = counts.uncontacted + 1,
            }
            i = i + 1;
        }
        proof {
            assert(self@.take(self@.len() as int) =~= self@);
            lemma_counts_sum(self@);
        }
        counts
    }

    /// Up to `n` online nodes, the first ones in directory order.
    pub fn fetch_online_nodes(&self, n: usize) -> (r: Vec<Node>)
        ensures
            r@.len() == if n < online_of(self@).len() { n as nat } else { online_of(self@).len() },
            r@ == online_of(self@).take(r@.len() as int),
    {
        let mut r: Vec<Node> = Vec::new();
        let mut i: usize = 0;
        while i < self.nodes.len() && r.len() < n
            invariant
                i <= self@.len(),
                self.nodes@ == self@,
                r.len() <= n,
                r@ == online_of(self@.take(i as int)),
            decreases self@.len() - i,
        {
            proof {
                assert(self@.take(i as int + 1).drop_last() =~= self@.take(i as int));
            }
            if self.nodes[i].state == NodeState::Online {
                r.push(self.nodes[i]);
            }
            i = i + 1;
        }
        proof {
            lemma_online_prefix(self@, i as int, self@.len() as int);
            assert(self@.take(self@.len() as int) =~= self@);
        }
        r
    }
}

} // verus!
