use peer_crawler::session::fatal;
use peer_crawler::{
    compile_version, CrawlerError, InboundMessage, NodeDb, NodeState, OutboundMessage, PeerAddr, Phase,
    Session, SessionAction, SessionEvent, StreamErrorKind, VersionInfo, Node,
};

fn target() -> Node {
    Node { addr: PeerAddr { ip: 0xffff_0a00_0001, port: 8333 }, state: NodeState::Uncontacted, last_visit: 100, visits_missed: 2 }
}

fn peer_version() -> VersionInfo {
    VersionInfo {
        version: 70016,
        services: 1033,
        timestamp: 1_600_000_000,
        receiver: PeerAddr { ip: 1, port: 2 },
        sender: PeerAddr { ip: 3, port: 4 },
        nonce: 99,
        user_agent: String::from("/Satoshi:25.0.0/"),
        start_height: 800_000,
        relay: true,
    }
}

fn addrs(n: u128) -> InboundMessage {
    InboundMessage::Addr((0..n).map(|i| Some(PeerAddr { ip: 0xffff_0000_0000 + i, port: 8333 })).collect())
}

fn connected() -> Session {
    let mut s = Session::new(target(), 1_700_000_000);
    match s.step(SessionEvent::Connected) {
        SessionAction::Send(OutboundMessage::Version(v)) => assert_eq!(v.timestamp, 1_700_000_000),
        other => panic!("expected a version announcement, got {:?}", other),
    }
    assert_eq!(s.phase, Phase::Exchanging);
    s
}

#[test]
fn local_version_fields() {
    let v = compile_version(1234);
    assert_eq!(v.version, 70015);
    assert_eq!(v.services, 0);
    assert_eq!(v.timestamp, 1234);
    let loopback = PeerAddr { ip: 0x0000_0000_0000_0000_0000_ffff_7f00_0001, port: 8333 };
    assert_eq!(v.receiver, loopback);
    assert_eq!(v.sender, loopback);
    assert_eq!(v.nonce, 0);
    assert_eq!(v.user_agent, "/Satoshi:0.17.1/");
    assert_eq!(v.start_height, 1);
    assert!(!v.relay);
}

#[test]
fn single_entry_addr_is_not_harvested() {
    let mut s = connected();
    assert!(matches!(s.step(SessionEvent::Received(InboundMessage::Version(peer_version()))), SessionAction::Send(OutboundMessage::Verack)));
    assert!(matches!(s.step(SessionEvent::Received(addrs(1))), SessionAction::Await));
    assert_eq!(s.phase, Phase::Exchanging);
    assert!(matches!(s.step(SessionEvent::Failed(StreamErrorKind::TimedOut)), SessionAction::Finish));
    let out = s.finish();
    assert_eq!(out.version_msg.unwrap().user_agent, "/Satoshi:25.0.0/");
    assert!(out.addr_msg.is_none());
}

#[test]
fn two_entry_addr_ends_session() {
    let mut s = connected();
    assert!(matches!(s.step(SessionEvent::Received(InboundMessage::Version(peer_version()))), SessionAction::Send(OutboundMessage::Verack)));
    assert!(matches!(s.step(SessionEvent::Received(InboundMessage::Verack)), SessionAction::Send(OutboundMessage::GetAddr)));
    assert!(matches!(s.step(SessionEvent::Received(addrs(2))), SessionAction::Finish));
    assert_eq!(s.phase, Phase::Terminated);
    // nothing after the list is taken in
    assert!(matches!(s.step(SessionEvent::Received(addrs(5))), SessionAction::Finish));
    let out = s.finish();
    assert_eq!(out.version_msg.unwrap().nonce, 99);
    assert_eq!(out.addr_msg.unwrap().len(), 2);
}

#[test]
fn unreachable_peer_marked_offline() {
    let mut s = Session::new(target(), 5);
    assert!(matches!(s.step(SessionEvent::ConnectFailed), SessionAction::Finish));
    let out = s.finish();
    assert!(out.version_msg.is_none());
    assert!(out.addr_msg.is_none());

    let mut db = NodeDb::new();
    db.insert(target());
    db.record_visit(&out);
    let n = db.node(target().addr).unwrap();
    assert_eq!(n.state, NodeState::Offline);
    assert_eq!(n.visits_missed, 3);
    assert_eq!(n.last_visit, 100);
}

#[test]
fn timeout_keeps_captured_version() {
    let mut s = connected();
    s.step(SessionEvent::Received(InboundMessage::Version(peer_version())));
    assert!(matches!(s.step(SessionEvent::Failed(StreamErrorKind::Other)), SessionAction::Await));
    assert!(matches!(s.step(SessionEvent::Failed(StreamErrorKind::TimedOut)), SessionAction::Finish));
    let out = s.finish();
    assert!(out.version_msg.is_some());
    assert!(out.addr_msg.is_none());

    let mut silent = connected();
    assert!(matches!(silent.step(SessionEvent::Failed(StreamErrorKind::TimedOut)), SessionAction::Finish));
    let out = silent.finish();
    assert!(out.version_msg.is_none());
    assert!(out.addr_msg.is_none());
}

#[test]
fn error_kinds_classified() {
    assert!(fatal(StreamErrorKind::TimedOut));
    assert!(fatal(StreamErrorKind::Eof));
    assert!(fatal(StreamErrorKind::Checksum));
    assert!(!fatal(StreamErrorKind::Other));
    let mut s = connected();
    assert!(matches!(s.step(SessionEvent::Failed(StreamErrorKind::Checksum)), SessionAction::Finish));
    let mut s = connected();
    assert!(matches!(s.step(SessionEvent::Failed(StreamErrorKind::Eof)), SessionAction::Finish));
}

#[test]
fn ping_answered_with_same_nonce() {
    let mut s = connected();
    match s.step(SessionEvent::Received(InboundMessage::Ping(0xdead_beef))) {
        SessionAction::Send(OutboundMessage::Pong(n)) => assert_eq!(n, 0xdead_beef),
        other => panic!("expected a pong, got {:?}", other),
    }
    assert!(matches!(s.step(SessionEvent::Received(InboundMessage::Other)), SessionAction::Await));
    assert_eq!(s.phase, Phase::Exchanging);
}

#[test]
fn visit_outcome_updates_directory() {
    let mut s = connected();
    s.step(SessionEvent::Received(InboundMessage::Version(peer_version())));
    let known = PeerAddr { ip: 0xffff_0a00_0001, port: 8333 };
    let new_a = PeerAddr { ip: 0xffff_0b00_0001, port: 8333 };
    let list = vec![Some(known), None, Some(new_a), Some(new_a)];
    assert!(matches!(s.step(SessionEvent::Received(InboundMessage::Addr(list))), SessionAction::Finish));
    let out = s.finish();

    let mut db = NodeDb::new();
    db.insert(target());
    db.record_visit(&out);
    assert_eq!(db.len(), 2);
    let n = db.node(known).unwrap();
    assert_eq!(n.state, NodeState::Online);
    assert_eq!(n.visits_missed, 0);
    assert_eq!(db.node(new_a).unwrap().state, NodeState::Uncontacted);
}

#[test]
fn misses_stop_at_largest_count() {
    let mut t = target();
    t.visits_missed = u32::MAX;
    let mut s = Session::new(t, 0);
    s.step(SessionEvent::ConnectFailed);
    let mut db = NodeDb::new();
    db.record_visit(&s.finish());
    assert_eq!(db.node(t.addr).unwrap().visits_missed, u32::MAX);
}

#[test]
fn crawler_error_keeps_message() {
    let e = CrawlerError::new(String::from("connection refused"));
    assert_eq!(e.message(), "connection refused");
}
