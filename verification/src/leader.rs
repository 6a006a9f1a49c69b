use crate::message::{Message, NodeId, TermId};
use vstd::prelude::*;

verus! {

/// Destination of outgoing messages. The transport behind it hands each
/// delivered message on to its receiver; `sent()` is the history of
/// deliveries, in order.
pub trait Outbox {
    spec fn sent(&self) -> Seq<Message>;

    fn deliver_message(&mut self, m: Message)
        ensures
            final(self).sent() == old(self).sent().push(m),
    ;
}

/// An outbox that simply records every delivered message, for inspection.
pub struct MockOutbox {
    pub buffer: Vec<Message>,
}

impl Outbox for MockOutbox {
    open spec fn sent(&self) -> Seq<Message> {
        self.buffer@
    }

    fn deliver_message(&mut self, m: Message) {
        self.buffer.push(m);
    }
}

/// The append message a leader addresses to follower `dest` for a round: it
/// carries the leader's identity and term and no command entries.
pub open spec fn round_append(m: Message, leader: NodeId, term: TermId, dest: NodeId) -> bool {
    &&& m matches Message::AppendLog { sender_id, term_id, receiver_id, commands }
    &&& sender_id == leader
    &&& term_id == term
    &&& receiver_id == dest
    &&& commands@.len() == 0
}

/// `sent1` extends `sent0` with exactly one round-append per destination in
/// `dests`, in the order of `dests`.
pub open spec fn appends_delivered(
    sent0: Seq<Message>,
    sent1: Seq<Message>,
    leader: NodeId,
    term: TermId,
    dests: Seq<NodeId>,
) -> bool {
    &&& sent1.len() == sent0.len() + dests.len()
    &&& forall|i: int| 0 <= i < sent0.len() ==> sent1[i] == #[trigger] sent0[i]
    &&& forall|k: int|
        0 <= k < dests.len() ==> round_append(sent1[sent0.len() + k], leader, term, #[trigger] dests[k])
}

/// A node in the leader role for one term, tracking which followers still owe
/// an acknowledgment for the current round.
pub struct Leader {
    pub id: NodeId,
    pub term_id: TermId,
    pub followers: Vec<NodeId>,
    pub expected_acks: Vec<NodeId>,
}

impl Leader {
    /// Every follower still owing an acknowledgment is a known follower.
    pub open spec fn wf(self) -> bool {
        forall|i: int|
            0 <= i < self.expected_acks@.len() ==> self.followers@.contains(
                #[trigger] self.expected_acks@[i],
            )
    }

    /// Process one inbound message: an acknowledgment removes its sender's
    /// first outstanding entry, if any; every other message is ignored.
    pub fn receive(&mut self, m: Message)
        requires
            old(self).wf(),
        ensures
            final(self).wf(),
            final(self).id == old(self).id,
            final(self).term_id == old(self).term_id,
            final(self).followers == old(self).followers,
            match m {
                Message::Acknowledge { sender_id } => final(self).expected_acks@ == old(
                    self,
                ).expected_acks@.remove_value(sender_id),
                _ => final(self).expected_acks@ == old(self).expected_acks@,
            },
    {
        match m {
            Message::Acknowledge { sender_id } => {
                let ghost acks0 = self.expected_acks@;
                let n = self.expected_acks.len();
                let mut i: usize = 0;
                let mut found: bool = false;
                while !found && i < n
                    invariant
                        self.expected_acks@ == acks0,
                        n == acks0.len(),
                        i <= n,
                        forall|j: int| 0 <= j < i ==> acks0[j] != sender_id,
                        found ==> i < n && acks0[i as int] == sender_id,
                    decreases n - i + (if found { 0int } else { 1int }),
                {
                    if self.expected_acks[i] == sender_id {
                        found = true;
                    } else {
                        i += 1;
                    }
                }
                proof {
                    acks0.index_of_first_ensures(sender_id);
                    if found {
                        assert(acks0.contains(sender_id)) by {
                            assert(acks0[i as int] == sender_id);
                        }
                        assert(acks0.index_of_first(sender_id) == Some(i as int));
                    } else {
                        assert(!acks0.contains(sender_id));
                    }
                }
                if found {
                    self.expected_acks.remove(i);
                    proof {
                        acks0.remove_ensures(i as int);
                        assert forall|j: int|
                            0 <= j < self.expected_acks@.len() implies self.followers@.contains(
                            #[trigger] self.expected_acks@[j],
                        ) by {
                            if j < i {
                                assert(self.expected_acks@[j] == acks0[j]);
                            } else {
                                assert(self.expected_acks@[j] == acks0[j + 1]);
                            }
                        }
                    }
                }
            },
            _ => {},
        }
    }

    /// Open a new acknowledgment round: the outstanding set is cleared and
    /// repopulated with every follower, and a round-append is delivered to
    /// each follower, in order.
    pub fn trigger_heartbeat<O: Outbox>(&mut self, outbox: &mut O)
        ensures
            final(self).wf(),
            final(self).id == old(self).id,
            final(self).term_id == old(self).term_id,
            final(self).followers == old(self).followers,
            final(self).expected_acks@ == old(self).followers@,
            appends_delivered(
                old(outbox).sent(),
                final(outbox).sent(),
                old(self).id,
                old(self).term_id,
                old(self).followers@,
            ),
    {
        let ghost sent0 = outbox.sent();
        self.expected_acks = Vec::new();
        let n = self.followers.len();
        let mut j: usize = 0;
        while j < n
            invariant
                n == self.followers.len(),
                j <= n,
                self.id == old(self).id,
                self.term_id == old(self).term_id,
                self.followers == old(self).followers,
                self.expected_acks@ == self.followers@.subrange(0, j as int),
                appends_delivered(
                    sent0,
                    outbox.sent(),
                    self.id,
                    self.term_id,
                    self.followers@.subrange(0, j as int),
                ),
            decreases n - j,
        {
            let dest = self.followers[j];
            outbox.deliver_message(
                Message::AppendLog {
                    sender_id: self.id,
                    term_id: self.term_id,
                    receiver_id: dest,
                    commands: Vec::new(),
                },
            );
            self.expected_acks.push(dest);
            j += 1;
            proof {
                assert(self.followers@.subrange(0, j as int) =~= self.followers@.subrange(
                    0,
                    j - 1,
                ).push(dest));
            }
        }
        proof {
            assert(self.followers@.subrange(0, n as int) =~= self.followers@);
            assert forall|k: int|
                0 <= k < self.expected_acks@.len() implies self.followers@.contains(
                #[trigger] self.expected_acks@[k],
            ) by {
                assert(self.expected_acks@[k] == self.followers@[k]);
            }
        }
    }

    /// Re-deliver a round-append to every follower still owing an
    /// acknowledgment, in order, leaving all bookkeeping unchanged.
    pub fn trigger_retries<O: Outbox>(&mut self, outbox: &mut O)
        ensures
            *final(self) == *old(self),
            appends_delivered(
                old(outbox).sent(),
                final(outbox).sent(),
                old(self).id,
                old(self).term_id,
                old(self).expected_acks@,
            ),
    {
        let ghost sent0 = outbox.sent();
        let n = self.expected_acks.len();
        let mut j: usize = 0;
        while j < n
            invariant
                *self == *old(self),
                n == self.expected_acks.len(),
                j <= n,
                appends_delivered(
                    sent0,
                    outbox.sent(),
                    self.id,
                    self.term_id,
                    self.expected_acks@.subrange(0, j as int),
                ),
            decreases n - j,
        {
            let dest = self.expected_acks[j];
            outbox.deliver_message(
                Message::AppendLog {
                    sender_id: self.id,
                    term_id: self.term_id,
                    receiver_id: dest,
                    commands: Vec::new(),
                },
            );
            j += 1;
            proof {
                assert(self.expected_acks@.subrange(0, j as int) =~= self.expected_acks@.subrange(
                    0,
                    j - 1,
                ).push(dest));
            }
        }
        proof {
            assert(self.expected_acks@.subrange(0, n as int) =~= self.expected_acks@);
        }
    }
}

/// Create a leader for a term with a known follower set and no outstanding
/// acknowledgments.
pub fn new_leader(id: NodeId, term_id: TermId, followers: Vec<NodeId>) -> (l: Leader)
    ensures
        l.id == id,
        l.term_id == term_id,
        l.followers == followers,
        l.expected_acks@ == Seq::<NodeId>::empty(),
        l.wf(),
{
    Leader { id, term_id, followers, expected_acks: Vec::new() }
}

/// An acknowledgment from a sender that is not awaited leaves the set of
/// outstanding acknowledgments unchanged.
pub proof fn lemma_unknown_acker_ignored(acks: Seq<NodeId>, sender: NodeId)
    requires
        !acks.contains(sender),
    ensures
        acks.remove_value(sender) == acks,
{
    acks.index_of_first_ensures(sender);
}

} // verus!
