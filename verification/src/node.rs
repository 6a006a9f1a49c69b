use crate::message::{NodeId, TermId};
use vstd::prelude::*;

verus! {

/// The reduced message set the driver node understands: log replication and
/// its responses only.
#[derive(PartialEq, Eq, Debug)]
pub enum Message {
    AppendLog { sender_id: NodeId, term_id: TermId },
    Acknowledge { sender_id: NodeId },
    Reject,
    RequestLog { sender_id: NodeId },
}

/// A driver node holding the follower beliefs: a trusted leader for the
/// currently observed term.
pub struct Node {
    pub id: NodeId,
    pub leader_id: NodeId,
    pub term_id: TermId,
}

/// The node transition: from a state and one inbound message to the successor
/// state and the single response.
pub open spec fn node_step(n: Node, m: Message) -> (Node, Message) {
    match m {
        Message::AppendLog { sender_id, term_id } => {
            if sender_id == n.leader_id && term_id == n.term_id {
                (n, Message::Acknowledge { sender_id: n.id })
            } else if term_id > n.term_id {
                (
                    Node { id: n.id, leader_id: sender_id, term_id: term_id },
                    Message::RequestLog { sender_id: n.id },
                )
            } else {
                (n, Message::Reject)
            }
        },
        _ => (n, Message::Reject),
    }
}

impl Node {
    /// Process one inbound message, mutate the node state, and return the
    /// single response, exactly as `node_step` describes.
    pub fn receive(&mut self, m: Message) -> (r: Message)
        ensures
            (*final(self), r) == node_step(*old(self), m),
    {
        match m {
            Message::AppendLog { sender_id, term_id } => {
                if sender_id == self.leader_id && term_id == self.term_id {
                    Message::Acknowledge { sender_id: self.id }
                } else if term_id > self.term_id {
                    self.leader_id = sender_id;
                    self.term_id = term_id;
                    Message::RequestLog { sender_id: self.id }
                } else {
                    Message::Reject
                }
            },
            _ => Message::Reject,
        }
    }
}

/// Create a driver node that starts out trusting its bootstrap leader.
pub fn new_follower(id: NodeId, leader_id: NodeId, term_id: TermId) -> (n: Node)
    ensures
        n == (Node { id, leader_id, term_id }),
{
    Node { id, leader_id, term_id }
}

/// One step never decreases the node's observed term.
pub proof fn lemma_node_term_monotonic_step(n: Node, m: Message)
    ensures
        n.term_id <= node_step(n, m).0.term_id,
{
}

} // verus!
