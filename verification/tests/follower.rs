use raft_core::follower::{new_follower, Follower};
use raft_core::message::{Message, NodeId, TermId};

struct MessageBuilder {
    id: NodeId,
    term_id: TermId,
}

impl MessageBuilder {
    fn append_log(&self) -> Message {
        Message::AppendLog {
            sender_id: self.id,
            term_id: self.term_id,
            receiver_id: 981273461,
            commands: vec![],
        }
    }

    fn request_vote(&self) -> Message {
        Message::RequestVote { sender_id: self.id, proposed_term_id: self.term_id }
    }
}

fn default_message_builder() -> MessageBuilder {
    MessageBuilder { id: 827349, term_id: 7812635 }
}

fn message_builder(id: NodeId, term_id: TermId) -> MessageBuilder {
    MessageBuilder { id, term_id }
}

#[test]
fn follower_test_acknowledges_append_log_from_leader_of_same_term() {
    let leader = default_message_builder();
    let mut follower = new_follower(15, leader.id, leader.term_id);

    let result = follower.receive(leader.append_log());

    assert_eq!(result, Message::Acknowledge { sender_id: follower.id });

    let mut other_follower = new_follower(16, leader.id, leader.term_id);
    let result = other_follower.receive(leader.append_log());
    assert_eq!(result, Message::Acknowledge { sender_id: other_follower.id });
}

#[test]
fn follower_test_rejects_append_log_from_non_leader() {
    let leader = default_message_builder();
    let non_leader = message_builder(3, 1);

    let mut follower = new_follower(15, leader.id, leader.term_id);
    let result = follower.receive(non_leader.append_log());
    assert_eq!(result, Message::Reject)
}

#[test]
fn follower_test_rejects_append_log_from_previous_term() {
    let leader = default_message_builder();
    let leader_in_old_term = message_builder(leader.id, leader.term_id - 1);
    let mut follower = new_follower(15, leader.id, leader.term_id);
    let result = follower.receive(leader_in_old_term.append_log());
    assert_eq!(result, Message::Reject)
}

#[test]
fn follower_test_sends_request_log_if_term_is_behind() {
    let leader = default_message_builder();
    let leader_in_new_term = message_builder(leader.id, leader.term_id + 1);
    let mut follower = new_follower(15, leader.id, leader.term_id);
    let result = follower.receive(leader_in_new_term.append_log());
    assert_eq!(result, Message::RequestLog { sender_id: follower.id })
}

#[test]
fn follower_test_updates_state_if_term_is_behind() {
    let leader = default_message_builder();
    let new_leader_in_new_term = message_builder(3142798, leader.term_id + 1);
    let mut follower = new_follower(15, leader.id, leader.term_id);

    let _result = follower.receive(new_leader_in_new_term.append_log());
    assert_eq!(follower.leader_id, new_leader_in_new_term.id);
    assert_eq!(follower.term_id, new_leader_in_new_term.term_id);
}

#[test]
fn test_vote_for_past_term() {
    let leader = default_message_builder();
    let leader_in_old_term = message_builder(leader.id, leader.term_id - 1);
    let mut follower = new_follower(15, leader.id, leader.term_id);

    let result = follower.receive(leader_in_old_term.request_vote());
    assert_eq!(result, Message::VoteNo { sender_id: follower.id });
}

#[test]
fn test_votes_yes_for_future_term_for_first_node_no_for_second_even_if_replayed() {
    let prev_leader = default_message_builder();
    let mut follower = new_follower(15, prev_leader.id, prev_leader.term_id);

    let candidate_a = message_builder(987234, prev_leader.term_id + 1);
    let result = follower.receive(candidate_a.request_vote());
    assert_eq!(result, Message::VoteYes { sender_id: follower.id });
    let result = follower.receive(candidate_a.request_vote());
    assert_eq!(result, Message::VoteYes { sender_id: follower.id });

    let candidate_b = message_builder(109238, prev_leader.term_id + 1);
    let result = follower.receive(candidate_b.request_vote());
    assert_eq!(result, Message::VoteNo { sender_id: follower.id });
    let result = follower.receive(candidate_b.request_vote());
    assert_eq!(result, Message::VoteNo { sender_id: follower.id });
}

#[test]
fn test_always_votes_yes_for_leader_in_same_term() {
    let leader = default_message_builder();
    let mut follower = new_follower(15, leader.id, leader.term_id);

    let result = follower.receive(leader.request_vote());
    assert_eq!(result, Message::VoteYes { sender_id: follower.id });
}

#[test]
fn test_votes_no_for_other_candidate_in_same_term() {
    let leader = default_message_builder();
    let candidate_a = message_builder(264785, leader.term_id);

    let mut follower = new_follower(15, leader.id, leader.term_id);

    let result = follower.receive(candidate_a.request_vote());
    assert_eq!(result, Message::VoteNo { sender_id: follower.id });
}

#[test]
fn test_when_voting_newest_term_always_wins() {
    let leader = default_message_builder();
    let mut follower = new_follower(15, leader.id, leader.term_id);

    let candidate_a = message_builder(987234, leader.term_id + 1);
    let result = follower.receive(candidate_a.request_vote());
    assert_eq!(result, Message::VoteYes { sender_id: follower.id });

    let candidate_b = message_builder(287634, candidate_a.term_id + 1);
    let result = follower.receive(candidate_b.request_vote());
    assert_eq!(result, Message::VoteYes { sender_id: follower.id });

    let result = follower.receive(candidate_a.request_vote());
    assert_eq!(result, Message::VoteNo { sender_id: follower.id });
}

#[test]
fn follower_test_rejects_unexpected_message() {
    let leader_id = 1;
    let current_term = 1;
    let mut follower = new_follower(15, leader_id, current_term);
    let result = follower.receive(Message::Acknowledge { sender_id: leader_id });
    assert_eq!(result, Message::Reject)
}

#[test]
fn test_never_regrants_a_vote_for_an_already_decided_term() {
    let mut follower = new_follower(15, 827349, 5);

    let result = follower.receive(Message::RequestVote { sender_id: 7, proposed_term_id: 10 });
    assert_eq!(result, Message::VoteYes { sender_id: 15 });

    let result = follower.receive(Message::RequestVote { sender_id: 7, proposed_term_id: 5 });
    assert_eq!(result, Message::VoteNo { sender_id: 15 });

    let result = follower.receive(Message::RequestVote { sender_id: 7, proposed_term_id: 10 });
    assert_eq!(result, Message::VoteYes { sender_id: 15 });
}

#[test]
fn test_term_never_decreases_over_a_message_sequence() {
    let mut follower: Follower = new_follower(15, 827349, 100);
    let inbound = vec![
        Message::AppendLog { sender_id: 5, term_id: 103, receiver_id: 15, commands: vec![] },
        Message::AppendLog { sender_id: 827349, term_id: 99, receiver_id: 15, commands: vec![] },
        Message::RequestVote { sender_id: 7, proposed_term_id: 1 },
        Message::RequestVote { sender_id: 7, proposed_term_id: 200 },
        Message::Heartbeat,
        Message::AppendLog { sender_id: 5, term_id: 103, receiver_id: 15, commands: vec![] },
    ];
    let mut last_term = follower.term_id;
    for m in inbound {
        let _ = follower.receive(m);
        assert!(follower.term_id >= last_term);
        last_term = follower.term_id;
    }
}

#[test]
fn test_example_append_then_contested_votes() {
    let mut follower = new_follower(15, 827349, 7812635);

    let result = follower.receive(Message::AppendLog {
        sender_id: 827349,
        term_id: 7812635,
        receiver_id: 15,
        commands: vec![],
    });
    assert_eq!(result, Message::Acknowledge { sender_id: 15 });

    let result = follower.receive(Message::RequestVote { sender_id: 987234, proposed_term_id: 7812636 });
    assert_eq!(result, Message::VoteYes { sender_id: 15 });

    let result = follower.receive(Message::RequestVote { sender_id: 109238, proposed_term_id: 7812636 });
    assert_eq!(result, Message::VoteNo { sender_id: 15 });
}
