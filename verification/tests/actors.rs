use two_phase_commit::client::Client;
use two_phase_commit::message::ActorId;
use two_phase_commit::message::MessageType;
use two_phase_commit::message::ProtocolMessage;
use two_phase_commit::message::TransactionId;
use two_phase_commit::participant::flip;
use two_phase_commit::participant::Participant;
use two_phase_commit::participant::ParticipantRound;
use two_phase_commit::participant::ParticipantState;

fn request(client: u64, op: u64) -> ProtocolMessage {
    ProtocolMessage::generate(
        MessageType::ClientRequest,
        TransactionId::new(client, op),
        ActorId::Client(client),
        op as u32,
    )
}

#[test]
fn flip_is_certain_at_the_endpoints() {
    for _ in 0..64 {
        assert!(flip(1000));
        assert!(!flip(0));
    }
}

#[test]
fn client_requests_carry_fresh_transaction_ids() {
    let mut c = Client::new(5);
    let first = c.send_next_operation();
    let second = c.send_next_operation();
    assert_eq!(first.mtype, MessageType::ClientRequest);
    assert_eq!(first.txid.client, 5);
    assert_eq!(first.txid.op, 1);
    assert_eq!(first.senderid, ActorId::Client(5));
    assert_eq!(first.opid, 1);
    assert_eq!(second.txid.op, 2);
    assert_eq!(second.opid, 2);
    assert_eq!(c.num_requests, 2);
}

#[test]
fn client_classifies_results() {
    let mut c = Client::new(1);
    let commit = ProtocolMessage::generate(
        MessageType::ClientResultCommit,
        TransactionId::new(1, 1),
        ActorId::Client(1),
        1,
    );
    let abort = ProtocolMessage::generate(
        MessageType::ClientResultAbort,
        TransactionId::new(1, 2),
        ActorId::Client(1),
        2,
    );
    let abort_unknown = ProtocolMessage::generate(
        MessageType::ClientResultAbort,
        TransactionId::new(1, 3).mark_unknown(),
        ActorId::Client(1),
        3,
    );
    let stray = ProtocolMessage::generate(
        MessageType::CoordinatorExit,
        TransactionId::sentinel(),
        ActorId::Coordinator,
        0,
    );
    c.recv_result(&commit);
    c.recv_result(&abort);
    c.recv_result(&abort_unknown);
    c.recv_result(&stray);
    assert_eq!(c.success, 1);
    assert_eq!(c.failures, 2);
    assert_eq!(c.unknown, 1);
    // counter conservation: only the commit/abort results are accounted
    assert_eq!(c.success + c.failures, 3);
}

#[test]
fn client_protocol_tallies_a_full_run() {
    let mut c = Client::new(2);
    let results = vec![
        ProtocolMessage::generate(
            MessageType::ClientResultCommit,
            TransactionId::new(2, 1),
            ActorId::Client(2),
            1,
        ),
        ProtocolMessage::generate(
            MessageType::ClientResultAbort,
            TransactionId::new(2, 2).mark_unknown(),
            ActorId::Client(2),
            2,
        ),
        ProtocolMessage::generate(
            MessageType::ClientResultCommit,
            TransactionId::new(2, 3),
            ActorId::Client(2),
            3,
        ),
    ];
    let requests = c.protocol(3, &results);
    assert_eq!(requests.len(), 3);
    for (i, r) in requests.iter().enumerate() {
        assert_eq!(r.mtype, MessageType::ClientRequest);
        assert_eq!(r.txid.client, 2);
        assert_eq!(r.txid.op, i as u64 + 1);
        assert_eq!(r.senderid, ActorId::Client(2));
    }
    assert_eq!(c.num_requests, 3);
    assert_eq!(c.success, 2);
    assert_eq!(c.failures, 1);
    assert_eq!(c.unknown, 1);
    assert_eq!(c.success + c.failures, 3);
}

#[test]
fn client_wait_sees_only_the_exit_signal() {
    let c = Client::new(3);
    let exit = ProtocolMessage::generate(
        MessageType::CoordinatorExit,
        TransactionId::sentinel(),
        ActorId::Client(3),
        0,
    );
    let noise = request(3, 9);
    assert!(!c.wait_for_exit_signal(&vec![]));
    assert!(!c.wait_for_exit_signal(&vec![noise]));
    assert!(c.wait_for_exit_signal(&vec![noise, exit]));
}

#[test]
fn participant_votes_commit_when_operations_always_succeed() {
    let mut p = Participant::new(0, 1000, 1000, 4);
    let req = request(1, 1).relabel(MessageType::CoordinatorPropose);
    let (success, vote) = p.perform_operation(&req);
    assert!(success);
    let vote = vote.expect("send probability 1 must deliver");
    assert_eq!(vote.mtype, MessageType::ParticipantVoteCommit);
    assert_eq!(vote.txid, req.txid);
    assert_eq!(vote.senderid, ActorId::Participant(0));
    assert_eq!(vote.opid, req.opid);
    assert_eq!(p.state, ParticipantState::AwaitingGlobalDecision);
    // the vote is logged before it is sent, against the proposal's sender
    assert_eq!(p.log.len(), 1);
    assert_eq!(p.log.records[0].mtype, MessageType::ParticipantVoteCommit);
    assert_eq!(p.log.records[0].txid, req.txid);
    assert_eq!(p.log.records[0].senderid, req.senderid);
}

#[test]
fn participant_votes_abort_when_operations_always_fail() {
    let mut p = Participant::new(1, 1000, 0, 4);
    let req = request(1, 1).relabel(MessageType::CoordinatorPropose);
    let (success, vote) = p.perform_operation(&req);
    assert!(!success);
    let vote = vote.expect("send probability 1 must deliver");
    assert_eq!(vote.mtype, MessageType::ParticipantVoteAbort);
    assert_eq!(p.log.records[0].mtype, MessageType::ParticipantVoteAbort);
}

#[test]
fn participant_drops_votes_when_sends_always_fail() {
    let mut p = Participant::new(2, 0, 1000, 4);
    let req = request(1, 1).relabel(MessageType::CoordinatorPropose);
    let (success, vote) = p.perform_operation(&req);
    assert!(success);
    assert!(vote.is_none());
    // the drop is silent, but the intended vote is still in the log
    assert_eq!(p.log.len(), 1);
    assert_eq!(p.log.records[0].mtype, MessageType::ParticipantVoteCommit);
}

#[test]
fn participant_tallies_global_decisions() {
    let mut p = Participant::new(3, 1000, 1000, 4);
    let req = request(1, 1).relabel(MessageType::CoordinatorPropose);
    p.perform_operation(&req);
    let decision = req.relabel(MessageType::CoordinatorCommit);
    p.handle_commit_decision(&decision, MessageType::CoordinatorCommit);
    assert_eq!(p.success, 1);
    assert_eq!(p.failures, 0);
    assert_eq!(p.state, ParticipantState::Quiescent);
    assert_eq!(p.log.len(), 2);
    assert_eq!(p.log.records[1].mtype, MessageType::CoordinatorCommit);
    // a decision outside a round changes nothing
    p.handle_commit_decision(&decision, MessageType::CoordinatorCommit);
    assert_eq!(p.success, 1);
    assert_eq!(p.log.len(), 2);
}

#[test]
fn participant_counter_conservation_over_a_run() {
    let mut p = Participant::new(4, 1000, 1000, 8);
    let mk = |op: u64, decision: Option<MessageType>| -> ParticipantRound {
        let proposal = request(1, op).relabel(MessageType::CoordinatorPropose);
        ParticipantRound {
            proposal,
            decision: decision.map(|k| proposal.relabel(k)),
        }
    };
    let rounds = vec![
        mk(1, Some(MessageType::CoordinatorCommit)),
        mk(2, Some(MessageType::CoordinatorAbort)),
        // a round whose decision never arrived is completed but not decided
        mk(3, None),
        mk(4, Some(MessageType::CoordinatorCommit)),
    ];
    let votes = p.protocol(&rounds);
    assert_eq!(p.num_requests, 4);
    assert_eq!(p.success, 2);
    assert_eq!(p.failures, 1);
    assert_eq!(p.unknown, 0);
    // success + failure == number of decided rounds
    assert_eq!(p.success + p.failures, 3);
    assert_eq!(votes.len(), 4);
    // one vote record per round plus one record per decided round
    assert_eq!(p.log.len(), 4 + 3);
}

#[test]
fn participant_stops_at_its_round_budget() {
    let mut p = Participant::new(5, 1000, 1000, 1);
    let first = ParticipantRound {
        proposal: request(1, 1).relabel(MessageType::CoordinatorPropose),
        decision: Some(
            request(1, 1).relabel(MessageType::CoordinatorCommit),
        ),
    };
    let late = ParticipantRound {
        proposal: request(1, 2).relabel(MessageType::CoordinatorPropose),
        decision: Some(
            request(1, 2).relabel(MessageType::CoordinatorCommit),
        ),
    };
    let votes = p.protocol(&vec![first]);
    assert_eq!(votes.len(), 1);
    assert_eq!(p.num_requests, 1);
    let log_len = p.log.len();
    // the budget is exhausted: a late proposal is never taken up
    let votes = p.protocol(&vec![late]);
    assert!(votes.is_empty());
    assert_eq!(p.num_requests, 1);
    assert_eq!(p.log.len(), log_len);
    assert_eq!(p.success, 1);
    // and while waiting to exit, only the shutdown signal is acted on
    let exit = ProtocolMessage::generate(
        MessageType::CoordinatorExit,
        TransactionId::sentinel(),
        ActorId::Coordinator,
        0,
    );
    assert!(!p.wait_for_exit_signal(&vec![late.proposal]));
    assert!(p.wait_for_exit_signal(&vec![late.proposal, exit]));
}

#[test]
fn send_is_certain_at_the_endpoints() {
    let reliable = Participant::new(6, 1000, 1000, 1);
    let silent = Participant::new(7, 0, 1000, 1);
    let vote = ProtocolMessage::generate(
        MessageType::ParticipantVoteCommit,
        TransactionId::new(1, 1),
        ActorId::Participant(6),
        1,
    );
    assert_eq!(reliable.send(vote), Some(vote));
    assert_eq!(silent.send(vote), None);
}
