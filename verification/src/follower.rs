use crate::message::{Message, NodeId, TermId};
use vstd::prelude::*;

verus! {

/// A node in the follower role: it trusts `leader_id` for `term_id`, and
/// `vote_for_future_term`, when present, records the highest term for which
/// this follower has cast a vote, and to whom.
pub struct Follower {
    pub id: NodeId,
    pub leader_id: NodeId,
    pub term_id: TermId,
    pub vote_for_future_term: Option<(TermId, NodeId)>,
}

/// The follower transition: from a state and one inbound message to the
/// successor state and the single response.
///
/// The `receiver_id` of an `AppendLog` is deliberately not checked against the
/// follower's own id: appends are accepted broadcast-style for any receiver,
/// and the carried command entries are not buffered here.
///
/// A vote is granted exactly when the proposed term is not behind the
/// follower's own and either no vote is recorded yet, the proposed term is
/// strictly higher than the recorded vote's term, or it equals the recorded
/// vote's term and the sender is the recorded candidate; a term whose vote has
/// been superseded by a higher one stays decided and is never granted again.
pub open spec fn follower_step(f: Follower, m: Message) -> (Follower, Message) {
    match m {
        Message::AppendLog { sender_id, term_id, .. } => {
            if sender_id == f.leader_id && term_id == f.term_id {
                (f, Message::Acknowledge { sender_id: f.id })
            } else if term_id > f.term_id {
                (
                    Follower {
                        id: f.id,
                        leader_id: sender_id,
                        term_id: term_id,
                        vote_for_future_term: f.vote_for_future_term,
                    },
                    Message::RequestLog { sender_id: f.id },
                )
            } else {
                (f, Message::Reject)
            }
        },
        Message::RequestVote { sender_id, proposed_term_id } => {
            if proposed_term_id < f.term_id {
                (f, Message::VoteNo { sender_id: f.id })
            } else {
                match f.vote_for_future_term {
                    Some((voted_term, voted_node)) => {
                        if proposed_term_id > voted_term {
                            (vote_recorded(f, proposed_term_id, sender_id), Message::VoteYes { sender_id: f.id })
                        } else if proposed_term_id == voted_term && voted_node == sender_id {
                            (f, Message::VoteYes { sender_id: f.id })
                        } else {
                            (f, Message::VoteNo { sender_id: f.id })
                        }
                    },
                    None => (vote_recorded(f, proposed_term_id, sender_id), Message::VoteYes { sender_id: f.id }),
                }
            }
        },
        _ => (f, Message::Reject),
    }
}

/// The follower state after a vote for `proposed_term_id` is granted to `node_id`.
pub open spec fn vote_recorded(f: Follower, proposed_term_id: TermId, node_id: NodeId) -> Follower {
    Follower {
        id: f.id,
        leader_id: f.leader_id,
        term_id: f.term_id,
        vote_for_future_term: Some((proposed_term_id, node_id)),
    }
}

impl Follower {
    /// Process one inbound message, mutate the role state, and return the
    /// single response, exactly as `follower_step` describes.
    pub fn receive(&mut self, m: Message) -> (r: Message)
        ensures
            (*final(self), r) == follower_step(*old(self), m),
    {
        match m {
            Message::AppendLog { sender_id, term_id, .. } => {
                if sender_id == self.leader_id && term_id == self.term_id {
                    Message::Acknowledge { sender_id: self.id }
                } else if term_id > self.term_id {
                    self.leader_id = sender_id;
                    self.term_id = term_id;
                    Message::RequestLog { sender_id: self.id }
                } else {
                    Message::Reject
                }
            },
            Message::RequestVote { sender_id, proposed_term_id } => {
                if proposed_term_id < self.term_id {
                    return Message::VoteNo { sender_id: self.id };
                }
                match self.vote_for_future_term {
                    Some((voted_term, voted_node)) => {
                        if proposed_term_id > voted_term {
                            return self.save_vote(proposed_term_id, sender_id);
                        }
                        if proposed_term_id == voted_term && voted_node == sender_id {
                            Message::VoteYes { sender_id: self.id }
                        } else {
                            Message::VoteNo { sender_id: self.id }
                        }
                    },
                    None => self.save_vote(proposed_term_id, sender_id),
                }
            },
            _ => Message::Reject,
        }
    }

    /// Record a granted vote and answer affirmatively.
    pub fn save_vote(&mut self, proposed_term_id: TermId, node_id: NodeId) -> (r: Message)
        ensures
            *final(self) == vote_recorded(*old(self), proposed_term_id, node_id),
            r == (Message::VoteYes { sender_id: old(self).id }),
    {
        self.vote_for_future_term = Some((proposed_term_id, node_id));
        Message::VoteYes { sender_id: self.id }
    }
}

/// Create a follower that starts out trusting its bootstrap leader, with a
/// vote already recorded for that leader and term.
pub fn new_follower(id: NodeId, leader_id: NodeId, term_id: TermId) -> (f: Follower)
    ensures
        f == (Follower { id, leader_id, term_id, vote_for_future_term: Some((term_id, leader_id)) }),
{
    Follower { id, leader_id, term_id, vote_for_future_term: Some((term_id, leader_id)) }
}

/// The follower state after a whole sequence of messages is processed in order.
pub open spec fn follower_run(f: Follower, ms: Seq<Message>) -> Follower
    decreases ms.len(),
{
    if ms.len() == 0 {
        f
    } else {
        follower_run(follower_step(f, ms[0]).0, ms.drop_first())
    }
}

/// One step never decreases the observed term.
pub proof fn lemma_term_monotonic_step(f: Follower, m: Message)
    ensures
        f.term_id <= follower_step(f, m).0.term_id,
{
}

/// Term monotonicity: a follower's observed term never decreases across any
/// sequence of processed messages.
pub proof fn lemma_term_monotonic(f: Follower, ms: Seq<Message>)
    ensures
        f.term_id <= follower_run(f, ms).term_id,
    decreases ms.len(),
{
    if ms.len() > 0 {
        lemma_term_monotonic_step(f, ms[0]);
        lemma_term_monotonic(follower_step(f, ms[0]).0, ms.drop_first());
    }
}

/// The follower has committed term `t`'s vote against every candidate but
/// `a`: it holds a recorded vote either for `a` in `t` itself, or for a
/// strictly higher term, and a decided term is never granted again.
pub open spec fn vote_committed(f: Follower, t: TermId, a: NodeId) -> bool {
    match f.vote_for_future_term {
        Some((voted_term, voted_node)) => voted_term > t || (voted_term == t && voted_node == a),
        None => false,
    }
}

/// Granting a vote commits it: a `VoteYes` to `a` for `t` leaves exactly the
/// vote `(t, a)` recorded.
pub proof fn lemma_vote_yes_commits(f: Follower, a: NodeId, t: TermId)
    requires
        follower_step(f, Message::RequestVote { sender_id: a, proposed_term_id: t }).1
            == (Message::VoteYes { sender_id: f.id }),
    ensures
        follower_step(
            f,
            Message::RequestVote { sender_id: a, proposed_term_id: t },
        ).0.vote_for_future_term == Some((t, a)),
{
}

/// No single step un-commits a vote: whatever message arrives, a committed
/// vote stays committed.
pub proof fn lemma_vote_commitment_preserved_step(f: Follower, t: TermId, a: NodeId, m: Message)
    requires
        vote_committed(f, t, a),
    ensures
        vote_committed(follower_step(f, m).0, t, a),
{
}

/// No sequence of steps un-commits a vote.
pub proof fn lemma_vote_commitment_preserved(f: Follower, t: TermId, a: NodeId, ms: Seq<Message>)
    requires
        vote_committed(f, t, a),
    ensures
        vote_committed(follower_run(f, ms), t, a),
    decreases ms.len(),
{
    if ms.len() > 0 {
        lemma_vote_commitment_preserved_step(f, t, a, ms[0]);
        lemma_vote_commitment_preserved(follower_step(f, ms[0]).0, t, a, ms.drop_first());
    }
}

/// While term `t`'s vote is committed to `a`, a request for `t` from any
/// other candidate is denied, with no state change.
pub proof fn lemma_committed_vote_excludes_others(f: Follower, t: TermId, a: NodeId, b: NodeId)
    requires
        vote_committed(f, t, a),
        b != a,
    ensures
        follower_step(f, Message::RequestVote { sender_id: b, proposed_term_id: t })
            == (f, Message::VoteNo { sender_id: f.id }),
{
}

/// At most one vote per term: once the follower has answered `VoteYes` to
/// candidate `a` for term `t`, an immediate replay from `a` is granted again
/// and changes nothing, while a request for `t` from a different candidate
/// `b` is denied and changes nothing — not only right away, but again after
/// any further sequence `ms` of processed messages.
pub proof fn lemma_at_most_one_vote_per_term(
    f: Follower,
    a: NodeId,
    b: NodeId,
    t: TermId,
    ms: Seq<Message>,
)
    requires
        follower_step(f, Message::RequestVote { sender_id: a, proposed_term_id: t }).1
            == (Message::VoteYes { sender_id: f.id }),
        b != a,
    ensures
        ({
            let f1 = follower_step(f, Message::RequestVote { sender_id: a, proposed_term_id: t }).0;
            let f2 = follower_run(f1, ms);
            &&& follower_step(f1, Message::RequestVote { sender_id: a, proposed_term_id: t })
                == (f1, Message::VoteYes { sender_id: f1.id })
            &&& follower_step(f1, Message::RequestVote { sender_id: b, proposed_term_id: t })
                == (f1, Message::VoteNo { sender_id: f1.id })
            &&& follower_step(f2, Message::RequestVote { sender_id: b, proposed_term_id: t })
                == (f2, Message::VoteNo { sender_id: f2.id })
        }),
{
    let f1 = follower_step(f, Message::RequestVote { sender_id: a, proposed_term_id: t }).0;
    lemma_vote_yes_commits(f, a, t);
    lemma_committed_vote_excludes_others(f1, t, a, b);
    lemma_vote_commitment_preserved(f1, t, a, ms);
    lemma_committed_vote_excludes_others(follower_run(f1, ms), t, a, b);
}

/// Append acceptance: an `AppendLog` is acknowledged if and only if its sender
/// is the trusted leader and its term the follower's current term; a strictly
/// higher term makes the follower adopt the new leader and term and ask for
/// the log; any other combination is rejected with no state change.
pub proof fn lemma_append_acceptance(
    f: Follower,
    sender: NodeId,
    term: TermId,
    receiver: NodeId,
    commands: Vec<Vec<u8>>,
)
    ensures
        ({
            let step = follower_step(
                f,
                Message::AppendLog { sender_id: sender, term_id: term, receiver_id: receiver, commands },
            );
            &&& (step.1 == (Message::Acknowledge { sender_id: f.id })) <==> (sender == f.leader_id
                && term == f.term_id)
            &&& (sender == f.leader_id && term == f.term_id) ==> step == (
                f,
                Message::Acknowledge { sender_id: f.id },
            )
            &&& (!(sender == f.leader_id && term == f.term_id) && term > f.term_id) ==> step == (
                Follower {
                    id: f.id,
                    leader_id: sender,
                    term_id: term,
                    vote_for_future_term: f.vote_for_future_term,
                },
                Message::RequestLog { sender_id: f.id },
            )
            &&& (!(sender == f.leader_id && term == f.term_id) && term <= f.term_id) ==> step == (
                f,
                Message::Reject,
            )
        }),
{
}

} // verus!
