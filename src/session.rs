use vstd::prelude::*;
use crate::node::{Node, PeerAddr};

verus! {

/// The protocol version announced to peers.
pub const PROTOCOL_VERSION: u32 = 70015;

/// The port of the placeholder endpoints in the local version announcement.
pub const PLACEHOLDER_PORT: u16 = 8333;

/// 127.0.0.1 as an IPv4-mapped IPv6 address.
pub const LOOPBACK_MAPPED: u128 = 0xffff_7f00_0001;

/// The endpoint named as sender and receiver in the local announcement.
pub open spec fn placeholder_endpoint() -> PeerAddr {
    PeerAddr { ip: LOOPBACK_MAPPED, port: PLACEHOLDER_PORT }
}

/// The fields of a version announcement that the crawler sends or keeps.
#[derive(Debug)]
pub struct VersionInfo {
    pub version: u32,
    pub services: u64,
    pub timestamp: i64,
    pub receiver: PeerAddr,
    pub sender: PeerAddr,
    pub nonce: u64,
    pub user_agent: String,
    pub start_height: i32,
    pub relay: bool,
}

/// The local announcement at time `timestamp`: fixed, minimal and
/// non-identifying, with only the time varying.
pub open spec fn is_local_version(v: VersionInfo, timestamp: i64) -> bool {
    &&& v.version == PROTOCOL_VERSION
    &&& v.services == 0
    &&& v.timestamp == timestamp
    &&& v.receiver == placeholder_endpoint()
    &&& v.sender == placeholder_endpoint()
    &&& v.nonce == 0
    &&& v.user_agent@ == "/Satoshi:0.17.1/"@
    &&& v.start_height == 1
    &&& !v.relay
}

/// Builds the version announcement sent at the start of every visit.
pub fn compile_version(timestamp: i64) -> (r: VersionInfo)
    ensures
        is_local_version(r, timestamp),
{
    let endpoint = PeerAddr { ip: LOOPBACK_MAPPED, port: PLACEHOLDER_PORT };
    VersionInfo {
        version: PROTOCOL_VERSION,
        services: 0,
        timestamp,
        receiver: endpoint,
        sender: endpoint,
        nonce: 0,
        user_agent: "/Satoshi:0.17.1/".to_owned(),
        start_height: 1,
        relay: false,
    }
}

/// A decoded message from the peer, reduced to what the session looks at.
#[derive(Debug)]
pub enum InboundMessage {
    Version(VersionInfo),
    Verack,
    Ping(u64),
    /// One entry per gossiped address; `None` for an entry that names no IP
    /// endpoint (such as an onion address).
    Addr(Vec<Option<PeerAddr>>),
    /// Any other message type.
    Other,
}

/// A message the session asks to send.
#[derive(Debug)]
pub enum OutboundMessage {
    Version(VersionInfo),
    Verack,
    GetAddr,
    Pong(u64),
}

/// What went wrong while reading the next message.
#[derive(PartialEq, Eq, Structural, Clone, Copy, Debug)]
pub enum StreamErrorKind {
    /// The read timeout elapsed.
    TimedOut,
    /// The stream ended in the middle of a message.
    Eof,
    /// A frame whose checksum does not match: truncated or corrupted.
    Checksum,
    /// Anything else.
    Other,
}

/// Fatal errors end the session; any other error is noise, and the session
/// waits for the next message, so that no live peer is marked offline by it.
pub open spec fn is_fatal(k: StreamErrorKind) -> bool {
    k != StreamErrorKind::Other
}

/// Whether an error of kind `k` ends the session.
pub fn fatal(k: StreamErrorKind) -> (r: bool)
    ensures
        r == is_fatal(k),
{
    match k {
        StreamErrorKind::Other => false,
        _ => true,
    }
}

/// What happened on the connection since the last step.
#[derive(Debug)]
pub enum SessionEvent {
    Connected,
    ConnectFailed,
    Received(InboundMessage),
    Failed(StreamErrorKind),
}

/// What the caller does next: send a message and then read the next one,
/// read the next one, or close the connection.
#[derive(Debug)]
pub enum SessionAction {
    Send(OutboundMessage),
    Await,
    Finish,
}

#[derive(PartialEq, Eq, Structural, Clone, Copy, Debug)]
pub enum Phase {
    Connecting,
    Exchanging,
    Terminated,
}

/// The result of one visit: the node visited, the peer's version message if
/// the handshake succeeded, and the gossiped addresses if a list of more than
/// one entry came.
#[derive(Debug)]
pub struct WorkerOutput {
    pub node: Node,
    pub version_msg: Option<VersionInfo>,
    pub addr_msg: Option<Vec<Option<PeerAddr>>>,
}

impl WorkerOutput {
    /// An outcome with nothing received yet.
    pub fn new(node: Node) -> (r: WorkerOutput)
        ensures
            r.node == node,
            r.version_msg is None,
            r.addr_msg is None,
    {
        WorkerOutput { node, version_msg: None, addr_msg: None }
    }
}

/// One visit to one node: connect, exchange version and acknowledgement,
/// answer pings, ask for addresses, and stop once a list of several arrives
/// or the stream fails for good.
pub struct Session {
    pub phase: Phase,
    pub output: WorkerOutput,
    /// The time put into the local version announcement.
    pub timestamp: i64,
}

impl Session {
    pub fn new(node: Node, timestamp: i64) -> (r: Session)
        ensures
            r.phase == Phase::Connecting,
            r.output.node == node,
            r.output.version_msg is None,
            r.output.addr_msg is None,
            r.timestamp == timestamp,
    {
        Session { phase: Phase::Connecting, output: WorkerOutput::new(node), timestamp }
    }

    /// Takes one event and says what to do next. While connecting, success
    /// sends the local version announcement and anything else ends the visit.
    /// Once connected: a version is kept and acknowledged, an acknowledgement
    /// is answered by asking for addresses, a ping by a pong with its nonce, a
    /// list of more than one address is kept and ends the visit, a fatal error
    /// ends it, and everything else is ignored. An ended session stays ended.
    pub fn step(&mut self, ev: SessionEvent) -> (a: SessionAction)
        ensures
            final(self).timestamp == old(self).timestamp,
            final(self).output.node == old(self).output.node,
            old(self).phase == Phase::Terminated ==> a is Finish && *final(self) == *old(self),
            old(self).phase == Phase::Connecting ==> match ev {
                SessionEvent::Connected => {
                    &&& final(self).phase == Phase::Exchanging
                    &&& final(self).output == old(self).output
                    &&& a matches SessionAction::Send(OutboundMessage::Version(v))
                    &&& is_local_version(v, old(self).timestamp)
                },
                _ => {
                    &&& final(self).phase == Phase::Terminated
                    &&& final(self).output == old(self).output
                    &&& a is Finish
                },
            },
            old(self).phase == Phase::Exchanging ==> match ev {
                SessionEvent::Received(InboundMessage::Version(v)) => {
                    &&& final(self).phase == Phase::Exchanging
                    &&& final(self).output.version_msg == Some(v)
                    &&& final(self).output.addr_msg == old(self).output.addr_msg
                    &&& a matches SessionAction::Send(OutboundMessage::Verack)
                },
                SessionEvent::Received(InboundMessage::Verack) => {
                    &&& *final(self) == *old(self)
                    &&& a matches SessionAction::Send(OutboundMessage::GetAddr)
                },
                SessionEvent::Received(InboundMessage::Ping(nonce)) => {
                    &&& *final(self) == *old(self)
                    &&& a matches SessionAction::Send(OutboundMessage::Pong(m)) && m == nonce
                },
                SessionEvent::Received(InboundMessage::Addr(list)) => if list@.len() > 1 {
                    &&& final(self).phase == Phase::Terminated
                    &&& final(self).output.version_msg == old(self).output.version_msg
                    &&& final(self).output.addr_msg == Some(list)
                    &&& a is Finish
                } else {
                    &&& *final(self) == *old(self)
                    &&& a is Await
                },
                SessionEvent::Failed(k) => if is_fatal(k) {
                    &&& final(self).phase == Phase::Terminated
                    &&& final(self).output == old(self).output
                    &&& a is Finish
                } else {
                    &&& *final(self) == *old(self)
                    &&& a is Await
                },
                _ => *final(self) == *old(self) && a is Await,
            },
    {
        match self.phase {
            Phase::Terminated => SessionAction::Finish,
            Phase::Connecting => match ev {
                SessionEvent::Connected => {
                    self.phase = Phase::Exchanging;
                    SessionAction::Send(OutboundMessage::Version(compile_version(self.timestamp)))
                },
                _ => {
                    self.phase = Phase::Terminated;
                    SessionAction::Finish
                },
            },
            Phase::Exchanging => match ev {
                SessionEvent::Received(msg) => match msg {
                    InboundMessage::Version(v) => {
                        self.output.version_msg = Some(v);
                        SessionAction::Send(OutboundMessage::Verack)
                    },
                    InboundMessage::Verack => SessionAction::Send(OutboundMessage::GetAddr),
                    InboundMessage::Ping(nonce) => SessionAction::Send(OutboundMessage::Pong(nonce)),
                    InboundMessage::Addr(list) => {
                        if list.len() > 1 {
                            self.output.addr_msg = Some(list);
                            self.phase = Phase::Terminated;
                            SessionAction::Finish
                        } else {
                            SessionAction::Await
                        }
                    },
                    InboundMessage::Other => SessionAction::Await,
                },
                SessionEvent::Failed(k) => {
                    if fatal(k) {
                        self.phase = Phase::Terminated;
                        SessionAction::Finish
                    } else {
                        SessionAction::Await
                    }
                },
                _ => SessionAction::Await,
            },
        }
    }

    /// The outcome of the visit, whatever was captured before it ended.
    pub fn finish(self) -> (r: WorkerOutput)
        ensures
            r == self.output,
    {
        self.output
    }
}

} // verus!
