use two_phase_commit::message::ActorId;
use two_phase_commit::message::MessageType;
use two_phase_commit::message::ProtocolMessage;
use two_phase_commit::message::TransactionId;
use two_phase_commit::oplog::OpLog;

#[test]
fn generate_builds_the_given_fields() {
    let txid = TransactionId::new(4, 9);
    let pm = ProtocolMessage::generate(MessageType::ClientRequest, txid, ActorId::Client(4), 9);
    assert_eq!(pm.mtype, MessageType::ClientRequest);
    assert_eq!(pm.txid.client, 4);
    assert_eq!(pm.txid.op, 9);
    assert!(!pm.txid.unknown);
    assert_eq!(pm.senderid, ActorId::Client(4));
    assert_eq!(pm.opid, 9);
}

#[test]
fn relabel_changes_only_the_kind() {
    let txid = TransactionId::new(1, 2);
    let pm = ProtocolMessage::generate(MessageType::ClientRequest, txid, ActorId::Client(1), 2);
    let proposal = pm.relabel(MessageType::CoordinatorPropose);
    assert_eq!(proposal.mtype, MessageType::CoordinatorPropose);
    assert_eq!(proposal.txid, pm.txid);
    assert_eq!(proposal.senderid, pm.senderid);
    assert_eq!(proposal.opid, pm.opid);
}

#[test]
fn mark_unknown_sets_only_the_marker() {
    let txid = TransactionId::new(6, 3);
    let marked = txid.mark_unknown();
    assert!(marked.unknown);
    assert_eq!(marked.client, 6);
    assert_eq!(marked.op, 3);
    assert!(!txid.unknown);
}

#[test]
fn sentinel_is_the_empty_identifier() {
    let t = TransactionId::sentinel();
    assert_eq!(t.client, 0);
    assert_eq!(t.op, 0);
    assert!(!t.unknown);
}

#[test]
fn oplog_appends_in_order() {
    let mut log = OpLog::new();
    assert_eq!(log.len(), 0);
    let txid = TransactionId::new(2, 1);
    let pm = ProtocolMessage::generate(
        MessageType::CoordinatorPropose,
        txid,
        ActorId::Client(2),
        1,
    );
    log.append_msg(&pm);
    log.append_msg_from_pm(&pm, MessageType::CoordinatorCommit);
    log.append(MessageType::CoordinatorAbort, txid, ActorId::Coordinator, 7);
    assert_eq!(log.len(), 3);
    assert_eq!(log.records[0].mtype, MessageType::CoordinatorPropose);
    assert_eq!(log.records[0].txid, txid);
    assert_eq!(log.records[1].mtype, MessageType::CoordinatorCommit);
    assert_eq!(log.records[1].txid, txid);
    assert_eq!(log.records[1].senderid, ActorId::Client(2));
    assert_eq!(log.records[2].mtype, MessageType::CoordinatorAbort);
    assert_eq!(log.records[2].senderid, ActorId::Coordinator);
    assert_eq!(log.records[2].opid, 7);
}
