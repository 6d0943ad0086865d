use vstd::prelude::*;

use crate::message::ActorId;
use crate::message::MessageType;
use crate::message::ProtocolMessage;
use crate::oplog::record_of_kind;
use crate::oplog::LogRecord;
use crate::oplog::OpLog;

verus! {

/// Relies on rand::random::<u64>: one value drawn from the thread-local
/// generator. Nothing is promised of which value comes back.
#[verifier::external_body]
fn draw_u64() -> u64 {
    rand::random::<u64>()
}

/// Simulated coin with success chance `per_mille` / 1000: certainly true at
/// or above 1000, certainly false at 0, and otherwise either outcome may
/// come back.
pub fn flip(per_mille: u32) -> (b: bool)
    ensures
        per_mille >= 1000 ==> b,
        per_mille == 0 ==> !b,
{
    let d = draw_u64();
    (d % 1000) < per_mille as u64
}

/// The participant's side of the two-phase-commit state machine.
#[derive(Clone, Copy, Debug, PartialEq, Eq, Structural)]
pub enum ParticipantState {
    Quiescent,
    ReceivedP1,
    VotedAbort,
    VotedCommit,
    AwaitingGlobalDecision,
}

/// The vote a participant casts when its local operation succeeds or fails.
pub open spec fn vote_kind(op_success: bool) -> MessageType {
    if op_success {
        MessageType::ParticipantVoteCommit
    } else {
        MessageType::ParticipantVoteAbort
    }
}

/// The record a participant writes for its own vote on a proposal: the vote
/// kind against the proposal's transaction, sender and operation id, written
/// before the vote is put on the wire so the log shows intent even when the
/// send is dropped.
pub open spec fn vote_record(proposal: ProtocolMessage, op_success: bool) -> LogRecord {
    record_of_kind(proposal, vote_kind(op_success))
}

/// The vote message a participant sends for a proposal, under its own
/// sender identity.
pub open spec fn vote_message(id: u64, proposal: ProtocolMessage, op_success: bool)
    -> ProtocolMessage {
    ProtocolMessage {
        mtype: vote_kind(op_success),
        txid: proposal.txid,
        senderid: ActorId::Participant(id),
        opid: proposal.opid,
    }
}

/// One round of the participant protocol as the embedding program observes
/// it: the coordinator's proposal, and the global decision that arrived
/// afterwards — if one did.
#[derive(Clone, Copy, Debug)]
pub struct ParticipantRound {
    pub proposal: ProtocolMessage,
    pub decision: Option<ProtocolMessage>,
}

/// Did this round bring a global commit decision?
pub open spec fn is_commit_decision(r: ParticipantRound) -> bool {
    r.decision matches Some(d) && d.mtype == MessageType::CoordinatorCommit
}

/// Did this round bring a global abort decision?
pub open spec fn is_abort_decision(r: ParticipantRound) -> bool {
    r.decision matches Some(d) && d.mtype == MessageType::CoordinatorAbort
}

/// How many rounds in `s` brought a global commit decision.
pub open spec fn count_commit_decisions(s: Seq<ParticipantRound>) -> int
    decreases s.len(),
{
    if s.len() == 0 {
        0
    } else {
        count_commit_decisions(s.drop_last()) + if is_commit_decision(s.last()) {
            1int
        } else {
            0int
        }
    }
}

/// How many rounds in `s` brought a global abort decision.
pub open spec fn count_abort_decisions(s: Seq<ParticipantRound>) -> int
    decreases s.len(),
{
    if s.len() == 0 {
        0
    } else {
        count_abort_decisions(s.drop_last()) + if is_abort_decision(s.last()) {
            1int
        } else {
            0int
        }
    }
}

/// Both decision counts grow by taking one more round.
pub proof fn lemma_count_decisions_take_step(s: Seq<ParticipantRound>, i: int)
    requires
        0 <= i < s.len(),
    ensures
        count_commit_decisions(s.take(i + 1)) == count_commit_decisions(s.take(i))
            + if is_commit_decision(s[i]) {
            1int
        } else {
            0int
        },
        count_abort_decisions(s.take(i + 1)) == count_abort_decisions(s.take(i))
            + if is_abort_decision(s[i]) {
            1int
        } else {
            0int
        },
{
    assert(s.take(i + 1).drop_last() =~= s.take(i));
    assert(s.take(i + 1).last() == s[i]);
}

/// Both decision counts are bounded by the number of rounds.
pub proof fn lemma_decision_counts_bounded(s: Seq<ParticipantRound>)
    ensures
        0 <= count_commit_decisions(s) <= s.len(),
        0 <= count_abort_decisions(s) <= s.len(),
        0 <= count_commit_decisions(s) + count_abort_decisions(s) <= s.len(),
    decreases s.len(),
{
    if s.len() > 0 {
        lemma_decision_counts_bounded(s.drop_last());
    }
}

/// A participant: votes on each proposal the coordinator sends —
/// probabilistically succeeding or failing the underlying local operation —
/// applies a simulated unreliable send to its vote, records every transition
/// in its operation log, and tallies the global decisions it receives. Both
/// probabilities are given per mille: 1000 never fails, 0 never succeeds.
#[derive(Debug)]
pub struct Participant {
    pub id: u64,
    pub state: ParticipantState,
    pub log: OpLog,
    pub send_success_prob: u32,
    pub operation_success_prob: u32,
    pub total_ops: u32,
    pub num_requests: u32,
    pub success: u32,
    pub failures: u32,
    pub unknown: u32,
}

/// The configuration of a participant — everything a protocol round never
/// changes.
pub open spec fn same_participant_config(a: Participant, b: Participant) -> bool {
    &&& a.id == b.id
    &&& a.send_success_prob == b.send_success_prob
    &&& a.operation_success_prob == b.operation_success_prob
    &&& a.total_ops == b.total_ops
}

impl Participant {
    /// A fresh participant: quiescent, with an empty log and zero tallies.
    pub fn new(id: u64, send_success_prob: u32, operation_success_prob: u32, total_ops: u32) -> (p:
        Participant)
        ensures
            p.id == id,
            p.state == ParticipantState::Quiescent,
            p.log@ == Seq::<LogRecord>::empty(),
            p.send_success_prob == send_success_prob,
            p.operation_success_prob == operation_success_prob,
            p.total_ops == total_ops,
            p.num_requests == 0,
            p.success == 0,
            p.failures == 0,
            p.unknown == 0,
    {
        Participant {
            id,
            state: ParticipantState::Quiescent,
            log: OpLog::new(),
            send_success_prob,
            operation_success_prob,
            total_ops,
            num_requests: 0,
            success: 0,
            failures: 0,
            unknown: 0,
        }
    }

    /// The simulated unreliable send: the message reaches the wire only when
    /// a draw against the send-success probability passes; a drop is silent.
    /// Returns the message to transmit, or nothing on a drop.
    pub fn send(&self, pm: ProtocolMessage) -> (sent: Option<ProtocolMessage>)
        ensures
            sent == Some(pm) || sent == None::<ProtocolMessage>,
            self.send_success_prob >= 1000 ==> sent == Some(pm),
            self.send_success_prob == 0 ==> sent == None::<ProtocolMessage>,
    {
        if flip(self.send_success_prob) {
            Some(pm)
        } else {
            None
        }
    }

    /// Build the vote message for a proposal under this participant's own
    /// identity and hand it to the unreliable send.
    pub fn send_message(&self, coord_msg: &ProtocolMessage, new_type: MessageType) -> (sent:
        Option<ProtocolMessage>)
        ensures
            ({
                let pm = ProtocolMessage {
                    mtype: new_type,
                    txid: coord_msg.txid,
                    senderid: ActorId::Participant(self.id),
                    opid: coord_msg.opid,
                };
                &&& (sent == Some(pm) || sent == None::<ProtocolMessage>)
                &&& (self.send_success_prob >= 1000 ==> sent == Some(pm))
                &&& (self.send_success_prob == 0 ==> sent == None::<ProtocolMessage>)
            }),
    {
        let pm = ProtocolMessage::generate(
            new_type,
            coord_msg.txid,
            ActorId::Participant(self.id),
            coord_msg.opid,
        );
        self.send(pm)
    }

    /// Perform the local operation for a proposal: draw against the
    /// operation-success probability, log the resulting vote before it is
    /// sent, cast the vote through the unreliable send, and await the global
    /// decision. Returns whether the operation succeeded and the vote that
    /// actually reached the wire, if any. Whatever the draws, the logged
    /// vote matches the returned outcome and only the vote for this very
    /// proposal can have been sent.
    pub fn perform_operation(&mut self, request: &ProtocolMessage) -> (r: (
        bool,
        Option<ProtocolMessage>,
    ))
        ensures
            same_participant_config(*old(self), *final(self)),
            final(self).state == ParticipantState::AwaitingGlobalDecision,
            final(self).log@ == old(self).log@.push(vote_record(*request, r.0)),
            final(self).num_requests == old(self).num_requests,
            final(self).success == old(self).success,
            final(self).failures == old(self).failures,
            final(self).unknown == old(self).unknown,
            old(self).operation_success_prob >= 1000 ==> r.0,
            old(self).operation_success_prob == 0 ==> !r.0,
            r.1 == Some(vote_message(old(self).id, *request, r.0)) || r.1 == None::<
                ProtocolMessage,
            >,
            old(self).send_success_prob >= 1000 ==> r.1 == Some(
                vote_message(old(self).id, *request, r.0),
            ),
            old(self).send_success_prob == 0 ==> r.1 == None::<ProtocolMessage>,
    {
        let success = flip(self.operation_success_prob);
        let new_type = if success {
            MessageType::ParticipantVoteCommit
        } else {
            MessageType::ParticipantVoteAbort
        };
        self.log.append(new_type, request.txid, request.senderid, request.opid);
        if success {
            self.state = ParticipantState::VotedCommit;
        } else {
            self.state = ParticipantState::VotedAbort;
        }
        let sent = self.send_message(request, new_type);
        self.state = ParticipantState::AwaitingGlobalDecision;
        (success, sent)
    }

    /// Handle the coordinator's global decision: while awaiting one, log it
    /// under the given kind, tally a success for a commit and a failure for
    /// an abort, and return to quiescence. In any other state the message
    /// changes nothing.
    pub fn handle_commit_decision(&mut self, coord_msg: &ProtocolMessage, message_type: MessageType)
        requires
            old(self).success < u32::MAX,
            old(self).failures < u32::MAX,
        ensures
            same_participant_config(*old(self), *final(self)),
            final(self).num_requests == old(self).num_requests,
            final(self).unknown == old(self).unknown,
            old(self).state == ParticipantState::AwaitingGlobalDecision ==> {
                &&& final(self).log@ == old(self).log@.push(record_of_kind(*coord_msg, message_type))
                &&& final(self).state == ParticipantState::Quiescent
                &&& final(self).success == old(self).success + if message_type
                    == MessageType::CoordinatorCommit {
                    1int
                } else {
                    0int
                }
                &&& final(self).failures == old(self).failures + if message_type
                    == MessageType::CoordinatorAbort {
                    1int
                } else {
                    0int
                }
            },
            old(self).state != ParticipantState::AwaitingGlobalDecision ==> {
                &&& final(self).log@ == old(self).log@
                &&& final(self).state == old(self).state
                &&& final(self).success == old(self).success
                &&& final(self).failures == old(self).failures
            },
    {
        if self.state == ParticipantState::AwaitingGlobalDecision {
            self.log.append_msg_from_pm(coord_msg, message_type);
            match message_type {
                MessageType::CoordinatorCommit => {
                    self.success = self.success + 1;
                },
                MessageType::CoordinatorAbort => {
                    self.failures = self.failures + 1;
                },
                _ => {},
            }
            self.state = ParticipantState::Quiescent;
        }
    }

    /// Scan the messages observed while waiting to exit: only the
    /// coordinator's shutdown signal ends the wait; anything else observed
    /// here — a late proposal included — is ignored and changes nothing,
    /// because this participant has stopped taking rounds.
    pub fn wait_for_exit_signal(&self, observed: &Vec<ProtocolMessage>) -> (exit: bool)
        ensures
            exit == exists|j: int|
                0 <= j < observed@.len() && observed@[j].mtype == MessageType::CoordinatorExit,
    {
        let mut i: usize = 0;
        while i < observed.len()
            invariant
                0 <= i <= observed@.len(),
                forall|j: int| 0 <= j < i ==> observed@[j].mtype != MessageType::CoordinatorExit,
            decreases observed@.len() - i,
        {
            if observed[i].mtype == MessageType::CoordinatorExit {
                return true;
            }
            i = i + 1;
        }
        false
    }

    /// The participant side of the protocol over the rounds the embedding
    /// program observed: one proposal and at most one decision per round,
    /// stopping at the configured round budget — a proposal beyond it is
    /// never taken up. Returns the votes that actually reached the wire.
    /// Counter conservation: the success and failure tallies together grow
    /// by exactly the number of rounds that brought a global decision.
    pub fn protocol(&mut self, rounds: &Vec<ParticipantRound>) -> (votes: Vec<ProtocolMessage>)
        requires
            old(self).num_requests <= old(self).total_ops,
            old(self).success + rounds@.len() <= u32::MAX,
            old(self).failures + rounds@.len() <= u32::MAX,
        ensures
            same_participant_config(*old(self), *final(self)),
            final(self).unknown == old(self).unknown,
            ({
                let n = vstd::math::min(
                    rounds@.len() as int,
                    old(self).total_ops - old(self).num_requests,
                );
                &&& final(self).num_requests == old(self).num_requests + n
                &&& final(self).num_requests <= old(self).total_ops
                &&& final(self).success == old(self).success + count_commit_decisions(
                    rounds@.take(n),
                )
                &&& final(self).failures == old(self).failures + count_abort_decisions(
                    rounds@.take(n),
                )
                &&& final(self).success + final(self).failures == old(self).success + old(
                    self,
                ).failures + count_commit_decisions(rounds@.take(n)) + count_abort_decisions(
                    rounds@.take(n),
                )
                &&& final(self).log@.len() == old(self).log@.len() + n + count_commit_decisions(
                    rounds@.take(n),
                ) + count_abort_decisions(rounds@.take(n))
                &&& votes@.len() <= n
                &&& (old(self).send_success_prob >= 1000 ==> votes@.len() == n)
                &&& (old(self).send_success_prob >= 1000 && old(self).operation_success_prob
                    >= 1000 ==> forall|j: int|
                    0 <= j < n ==> votes@[j] == vote_message(
                        old(self).id,
                        rounds@[j].proposal,
                        true,
                    ))
                &&& (old(self).send_success_prob >= 1000 && old(self).operation_success_prob == 0
                    ==> forall|j: int|
                    0 <= j < n ==> votes@[j] == vote_message(
                        old(self).id,
                        rounds@[j].proposal,
                        false,
                    ))
                &&& (old(self).num_requests == old(self).total_ops ==> final(self).log@ == old(
                    self,
                ).log@ && votes@.len() == 0)
            }),
    {
        let ghost n = vstd::math::min(
            rounds@.len() as int,
            old(self).total_ops - old(self).num_requests,
        );
        let mut votes: Vec<ProtocolMessage> = Vec::new();
        let mut i: usize = 0;
        proof {
            lemma_decision_counts_bounded(rounds@);
        }
        while i < rounds.len() && self.num_requests < self.total_ops
            invariant
                0 <= i <= rounds@.len(),
                old(self).success + rounds@.len() <= u32::MAX,
                old(self).failures + rounds@.len() <= u32::MAX,
                same_participant_config(*old(self), *self),
                self.unknown == old(self).unknown,
                self.num_requests == old(self).num_requests + i,
                self.num_requests <= self.total_ops,
                n == vstd::math::min(
                    rounds@.len() as int,
                    old(self).total_ops - old(self).num_requests,
                ),
                i <= n,
                self.success == old(self).success + count_commit_decisions(rounds@.take(i as int)),
                self.failures == old(self).failures + count_abort_decisions(rounds@.take(i as int)),
                self.log@.len() == old(self).log@.len() + i + count_commit_decisions(
                    rounds@.take(i as int),
                ) + count_abort_decisions(rounds@.take(i as int)),
                votes@.len() <= i,
                self.send_success_prob >= 1000 ==> votes@.len() == i,
                self.send_success_prob >= 1000 && self.operation_success_prob >= 1000 ==> forall|
                    j: int,
                |
                    0 <= j < i ==> votes@[j] == vote_message(
                        old(self).id,
                        rounds@[j].proposal,
                        true,
                    ),
                self.send_success_prob >= 1000 && self.operation_success_prob == 0 ==> forall|
                    j: int,
                |
                    0 <= j < i ==> votes@[j] == vote_message(
                        old(self).id,
                        rounds@[j].proposal,
                        false,
                    ),
                old(self).num_requests == old(self).total_ops ==> self.log@ == old(self).log@
                    && votes@.len() == 0,
            decreases rounds@.len() - i,
        {
            proof {
                lemma_decision_counts_bounded(rounds@.take(i as int));
                lemma_count_decisions_take_step(rounds@, i as int);
            }
            let round = &rounds[i];
            self.state = ParticipantState::ReceivedP1;
            let r = self.perform_operation(&round.proposal);
            match r.1 {
                Some(v) => votes.push(v),
                None => {},
            }
            match &round.decision {
                Some(d) => {
                    match d.mtype {
                        MessageType::CoordinatorCommit => {
                            self.handle_commit_decision(d, MessageType::CoordinatorCommit);
                        },
                        MessageType::CoordinatorAbort => {
                            self.handle_commit_decision(d, MessageType::CoordinatorAbort);
                        },
                        _ => {},
                    }
                },
                None => {},
            }
            self.num_requests = self.num_requests + 1;
            i = i + 1;
        }
        proof {
            if i < rounds@.len() {
                assert(self.num_requests == self.total_ops);
            } else {
                assert(rounds@.take(rounds@.len() as int) =~= rounds@);
            }
            assert(i == n);
        }
        votes
    }
}

} // verus!
