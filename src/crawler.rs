use vstd::prelude::*;
use crate::db::{NodeDb, registered, upserted};
use crate::node::{Node, NodeState, PeerAddr};
use crate::session::WorkerOutput;

verus! {

/// The node as stored after a visit: online with its misses cleared when the
/// handshake succeeded, else offline with one miss more (the count stops at
/// its largest value).
pub open spec fn visited(out: WorkerOutput) -> Node {
    if out.version_msg is Some {
        Node { state: NodeState::Online, visits_missed: 0, ..out.node }
    } else {
        Node {
            state: NodeState::Offline,
            visits_missed: if out.node.visits_missed < u32::MAX {
                (out.node.visits_missed + 1) as u32
            } else {
                out.node.visits_missed
            },
            ..out.node
        }
    }
}

/// The gossiped entries a visit brought, none when no list came.
pub open spec fn discovered(out: WorkerOutput) -> Seq<Option<PeerAddr>> {
    match out.addr_msg {
        Some(list) => list@,
        None => Seq::empty(),
    }
}

/// The directory after registering every address among `entries`, in order.
pub open spec fn registered_all(s: Seq<Node>, entries: Seq<Option<PeerAddr>>) -> Seq<Node>
    decreases entries.len(),
{
    if entries.len() == 0 {
        s
    } else {
        let rest = registered_all(s, entries.drop_last());
        match entries.last() {
            Some(a) => registered(rest, a),
            None => rest,
        }
    }
}

/// The directory a crawl starts from: every seed, once, in order.
pub open spec fn seeded(seeds: Seq<PeerAddr>) -> Seq<Node>
    decreases seeds.len(),
{
    if seeds.len() == 0 {
        Seq::empty()
    } else {
        registered(seeded(seeds.drop_last()), seeds.last())
    }
}

impl NodeDb {
    /// Writes a visit's outcome back: the node's new state and misses, then
    /// each gossiped address, registered if unseen.
    pub fn record_visit(&mut self, out: &WorkerOutput)
        requires
            old(self).wf(),
        ensures
            final(self).wf(),
            final(self)@ == registered_all(upserted(old(self)@, visited(*out)), discovered(*out)),
    {
        let mut node = out.node;
        match out.version_msg {
            Some(_) => {
                node.state = NodeState::Online;
                node.visits_missed = 0;
            },
            None => {
                node.state = NodeState::Offline;
                if node.visits_missed < u32::MAX {
                    node.visits_missed = node.visits_missed + 1;
                }
            },
        }
        self.insert(node);
        match &out.addr_msg {
            Some(list) => {
                let ghost base = self@;
                let mut i: usize = 0;
                while i < list.len()
                    invariant
                        i <= list@.len(),
                        self.wf(),
                        self@ == registered_all(base, list@.take(i as int)),
                    decreases list@.len() - i,
                {
                    proof {
                        assert(list@.take(i as int + 1).drop_last() =~= list@.take(i as int));
                    }
                    match list[i] {
                        Some(a) => self.init(a),
                        None => {},
                    }
                    i = i + 1;
                }
                proof {
                    assert(list@.take(list@.len() as int) =~= list@);
                }
            },
            None => {},
        }
    }
}

/// Starts a crawl: a directory that holds each seed address once, all of them
/// uncontacted and due at once. Seeds that could not be resolved are simply
/// not among `seeds`.
pub fn crawl(seeds: &Vec<PeerAddr>) -> (r: NodeDb)
    ensures
        r.wf(),
        r@ == seeded(seeds@),
{
    let mut db = NodeDb::new();
    let mut i: usize = 0;
    while i < seeds.len()
        invariant
            i <= seeds@.len(),
            db.wf(),
            db@ == seeded(seeds@.take(i as int)),
        decreases seeds@.len() - i,
    {
        proof {
            assert(seeds@.take(i as int + 1).drop_last() =~= seeds@.take(i as int));
        }
        db.init(seeds[i]);
        i = i + 1;
    }
    proof {
        assert(seeds@.take(seeds@.len() as int) =~= seeds@);
    }
    db
}

} // verus!
