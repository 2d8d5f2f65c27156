//! A peer-discovery crawler's core: the peer directory with its due-for-visit
//! scheduling, the decisions a worker takes after a visit, and the handshake
//! state machine that drives one visit.

pub mod crawler;
pub mod db;
pub mod error;
pub mod node;
pub mod session;

pub use crawler::crawl;
pub use db::{NodeDb, StateCounts};
pub use error::CrawlerError;
pub use node::{BackoffPolicy, Node, NodeState, PeerAddr};
pub use session::{
    InboundMessage, OutboundMessage, Phase, Session, SessionAction, SessionEvent, StreamErrorKind,
    VersionInfo, WorkerOutput, compile_version,
};
