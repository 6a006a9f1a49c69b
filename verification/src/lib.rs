//! Decision core of a single node in a term-based leader-election and
//! log-replication protocol: the wire message protocol, the follower and
//! leader role state machines, and a reduced driver node.

pub mod follower;
pub mod leader;
pub mod message;
pub mod node;
