use vstd::prelude::*;

verus! {

/// Identifier of a cluster member; assigned globally, outside this core.
pub type NodeId = u32;

/// Logical epoch counter. A node's locally observed term never decreases.
pub type TermId = u64;

/// An opaque replicated command entry.
pub type Command = Vec<u8>;

/// The closed set of wire messages exchanged between nodes. Messages are
/// immutable values compared by structural equality.
#[derive(PartialEq, Eq, Debug)]
pub enum Message {
    /// A leader instructs a follower to replicate a batch of commands for a term.
    AppendLog { sender_id: NodeId, term_id: TermId, receiver_id: NodeId, commands: Vec<Command> },
    /// A follower confirms receipt of an `AppendLog`.
    Acknowledge { sender_id: NodeId },
    /// Generic negative response.
    Reject,
    /// A follower that discovered it is behind asks the leader to resend.
    RequestLog { sender_id: NodeId },
    /// A candidate solicits a vote for a term it wishes to start.
    RequestVote { sender_id: NodeId, proposed_term_id: TermId },
    /// Negative vote response.
    VoteNo { sender_id: NodeId },
    /// Affirmative vote response.
    VoteYes { sender_id: NodeId },
    /// Leader liveness signal carrying no identifying fields.
    Heartbeat,
}

} // verus!
