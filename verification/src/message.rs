use vstd::prelude::*;

verus! {

/// The message vocabulary of the two-phase-commit protocol: client requests,
/// the coordinator's proposal, participant votes, the coordinator's global
/// decision, the result handed back to the client, and the shutdown signal.
#[derive(Clone, Copy, Debug, PartialEq, Eq, Structural)]
pub enum MessageType {
    ClientRequest,
    CoordinatorPropose,
    ParticipantVoteCommit,
    ParticipantVoteAbort,
    CoordinatorCommit,
    CoordinatorAbort,
    ClientResultCommit,
    ClientResultAbort,
    CoordinatorExit,
}

/// A message kind of the commit family: a commit vote, the global commit
/// decision, or a committed result.
pub open spec fn is_commit_kind(m: MessageType) -> bool {
    ||| m == MessageType::ParticipantVoteCommit
    ||| m == MessageType::CoordinatorCommit
    ||| m == MessageType::ClientResultCommit
}

/// A message kind of the abort family: an abort vote, the global abort
/// decision, or an aborted result.
pub open spec fn is_abort_kind(m: MessageType) -> bool {
    ||| m == MessageType::ParticipantVoteAbort
    ||| m == MessageType::CoordinatorAbort
    ||| m == MessageType::ClientResultAbort
}

/// A transaction identifier: globally unique because it pairs the issuing
/// client with that client's own monotonically increasing request counter.
/// `unknown` is the content-encoded ambiguity marker that the coordinator
/// sets when some participant's vote never arrived within its deadline.
#[derive(Clone, Copy, Debug, PartialEq, Eq, Structural)]
pub struct TransactionId {
    pub client: u64,
    pub op: u64,
    pub unknown: bool,
}

impl TransactionId {
    /// The identifier of a fresh client request: no ambiguity marker yet.
    pub fn new(client: u64, op: u64) -> (t: TransactionId)
        ensures
            t == (TransactionId { client, op, unknown: false }),
    {
        TransactionId { client, op, unknown: false }
    }

    /// The sentinel identifier carried by the coordinator's synthetic
    /// shutdown message.
    pub fn sentinel() -> (t: TransactionId)
        ensures
            t == (TransactionId { client: 0, op: 0, unknown: false }),
    {
        TransactionId { client: 0, op: 0, unknown: false }
    }

    /// The same transaction tagged with the ambiguity marker.
    pub fn mark_unknown(self) -> (t: TransactionId)
        ensures
            t == (TransactionId { unknown: true, ..self }),
    {
        TransactionId { unknown: true, ..self }
    }
}

/// The logical originator or addressee of a message.
#[derive(Clone, Copy, Debug, PartialEq, Eq, Structural)]
pub enum ActorId {
    Coordinator,
    Client(u64),
    Participant(u64),
}

/// The only payload exchanged between actors. Immutable once constructed:
/// each hop that relabels a message builds a fresh value.
#[derive(Clone, Copy, Debug, PartialEq, Eq, Structural)]
pub struct ProtocolMessage {
    pub mtype: MessageType,
    pub txid: TransactionId,
    pub senderid: ActorId,
    pub opid: u32,
}

impl ProtocolMessage {
    /// Pure constructor of a protocol message; the caller is responsible for
    /// the uniqueness of `txid`.
    pub fn generate(mtype: MessageType, txid: TransactionId, senderid: ActorId, opid: u32) -> (m:
        ProtocolMessage)
        ensures
            m == (ProtocolMessage { mtype, txid, senderid, opid }),
    {
        ProtocolMessage { mtype, txid, senderid, opid }
    }

    /// The same message relabelled with a new kind: the "relabel and resend"
    /// step each hop applies before forwarding.
    pub fn relabel(self, mtype: MessageType) -> (m: ProtocolMessage)
        ensures
            m == (ProtocolMessage { mtype, ..self }),
    {
        ProtocolMessage { mtype, ..self }
    }
}

} // verus!
