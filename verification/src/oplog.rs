use vstd::prelude::*;

use crate::message::ActorId;
use crate::message::MessageType;
use crate::message::ProtocolMessage;
use crate::message::TransactionId;

verus! {

/// One record of an actor's operation log: the state-transition message the
/// actor processed, as the (kind, transaction, sender, operation) tuple that
/// the post-run auditor reads back.
#[derive(Clone, Copy, Debug, PartialEq, Eq, Structural)]
pub struct LogRecord {
    pub mtype: MessageType,
    pub txid: TransactionId,
    pub senderid: ActorId,
    pub opid: u32,
}

/// The record a message leaves in the log.
pub open spec fn record_of(pm: ProtocolMessage) -> LogRecord {
    LogRecord { mtype: pm.mtype, txid: pm.txid, senderid: pm.senderid, opid: pm.opid }
}

/// The record a message leaves in the log when the writer overrides its kind.
pub open spec fn record_of_kind(pm: ProtocolMessage, mtype: MessageType) -> LogRecord {
    LogRecord { mtype, txid: pm.txid, senderid: pm.senderid, opid: pm.opid }
}

/// An actor's append-only operation log. Records are only ever appended,
/// never rewritten or dropped; the log is owned by exactly one actor.
/// Persisting the records durably is the embedding program's concern.
#[derive(Debug)]
pub struct OpLog {
    pub records: Vec<LogRecord>,
}

impl View for OpLog {
    type V = Seq<LogRecord>;

    open spec fn view(&self) -> Seq<LogRecord> {
        self.records@
    }
}

impl OpLog {
    /// A fresh, empty log.
    pub fn new() -> (log: OpLog)
        ensures
            log@ == Seq::<LogRecord>::empty(),
    {
        OpLog { records: Vec::new() }
    }

    /// Append one record, given field by field.
    pub fn append(
        &mut self,
        mtype: MessageType,
        txid: TransactionId,
        senderid: ActorId,
        opid: u32,
    )
        ensures
            final(self)@ == old(self)@.push(LogRecord { mtype, txid, senderid, opid }),
    {
        self.records.push(LogRecord { mtype, txid, senderid, opid });
    }

    /// Append the record of a message as it stands.
    pub fn append_msg(&mut self, pm: &ProtocolMessage)
        ensures
            final(self)@ == old(self)@.push(record_of(*pm)),
    {
        self.records.push(
            LogRecord { mtype: pm.mtype, txid: pm.txid, senderid: pm.senderid, opid: pm.opid },
        );
    }

    /// Append the record of a message under an overriding kind.
    pub fn append_msg_from_pm(&mut self, pm: &ProtocolMessage, mtype: MessageType)
        ensures
            final(self)@ == old(self)@.push(record_of_kind(*pm, mtype)),
    {
        self.records.push(
            LogRecord { mtype, txid: pm.txid, senderid: pm.senderid, opid: pm.opid },
        );
    }

    /// How many records stand in the log.
    pub fn len(&self) -> (n: usize)
        ensures
            n == self@.len(),
    {
        self.records.len()
    }
}

} // verus!
