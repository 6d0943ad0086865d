use vstd::prelude::*;

use crate::message::ActorId;
use crate::message::MessageType;
use crate::message::ProtocolMessage;
use crate::message::TransactionId;
use crate::oplog::record_of;
use crate::oplog::LogRecord;
use crate::oplog::OpLog;

verus! {

/// The coordinator's side of the two-phase-commit state machine.
#[derive(Clone, Copy, Debug, PartialEq, Eq, Structural)]
pub enum CoordinatorState {
    Quiescent,
    ReceivedRequest,
    ProposalSent,
    ReceivedVotesAbort,
    ReceivedVotesCommit,
    SentGlobalDecision,
}

/// What one deadline-bounded poll of one participant's vote channel came to:
/// a commit vote arrived in time; the deadline elapsed without one — the
/// non-vote that flags the round as unknown; or the channel was found
/// closed, which ends the poll without flagging anything.
#[derive(Clone, Copy, Debug, PartialEq, Eq, Structural)]
pub enum VoteOutcome {
    CommitVoteSeen,
    DeadlineElapsed,
    ChannelClosed,
}

/// A message addressed to one actor, ready for the embedding program to put
/// on the wire.
#[derive(Clone, Copy, Debug, PartialEq, Eq, Structural)]
pub struct Envelope {
    pub to: ActorId,
    pub msg: ProtocolMessage,
}

/// One request round as the embedding program observed it: the client's
/// request, and what polling each registered participant's vote channel came
/// to — in registry order, one outcome per participant.
#[derive(Debug)]
pub struct CoordinatorRound {
    pub request: ProtocolMessage,
    pub outcomes: Vec<VoteOutcome>,
}

/// Everything the coordinator sends for one request round: the proposal
/// broadcast to every participant, the global decision broadcast to every
/// participant, and the result for the originating client.
#[derive(Clone, Copy, Debug, PartialEq, Eq, Structural)]
pub struct RoundOutput {
    pub proposal: ProtocolMessage,
    pub decision: ProtocolMessage,
    pub client_result: ProtocolMessage,
}

/// The shutdown broadcast: one exit envelope per client, then one per
/// participant.
#[derive(Debug)]
pub struct ShutdownOutput {
    pub client_msgs: Vec<Envelope>,
    pub participant_msgs: Vec<Envelope>,
}

/// How many polled participants delivered a commit vote in time.
pub open spec fn count_commit_votes(s: Seq<VoteOutcome>) -> int
    decreases s.len(),
{
    if s.len() == 0 {
        0
    } else {
        count_commit_votes(s.drop_last()) + if s.last() == VoteOutcome::CommitVoteSeen {
            1int
        } else {
            0int
        }
    }
}

/// Did some participant's deadline elapse without a commit vote?
pub open spec fn has_timeout(s: Seq<VoteOutcome>) -> bool {
    exists|i: int| 0 <= i < s.len() && s[i] == VoteOutcome::DeadlineElapsed
}

/// The all-or-nothing decision rule: global commit exactly when every one of
/// the `n_participants` registered participants delivered a commit vote
/// within its own deadline. There is no quorum option.
pub open spec fn round_commits(r: CoordinatorRound, n_participants: int) -> bool {
    count_commit_votes(r.outcomes@) == n_participants
}

/// The commit-vote count never exceeds the number of outcomes.
pub proof fn lemma_commit_votes_bounded(s: Seq<VoteOutcome>)
    ensures
        0 <= count_commit_votes(s) <= s.len(),
    decreases s.len(),
{
    if s.len() > 0 {
        lemma_commit_votes_bounded(s.drop_last());
    }
}

/// The commit-vote count grows by taking one more outcome.
pub proof fn lemma_commit_votes_take_step(s: Seq<VoteOutcome>, i: int)
    requires
        0 <= i < s.len(),
    ensures
        count_commit_votes(s.take(i + 1)) == count_commit_votes(s.take(i)) + if s[i]
            == VoteOutcome::CommitVoteSeen {
            1int
        } else {
            0int
        },
{
    assert(s.take(i + 1).drop_last() =~= s.take(i));
    assert(s.take(i + 1).last() == s[i]);
}

/// If every outcome is a commit vote, the count is the length — the decision
/// rule commits.
pub proof fn lemma_all_commit_counts_full(s: Seq<VoteOutcome>)
    requires
        forall|i: int| 0 <= i < s.len() ==> s[i] == VoteOutcome::CommitVoteSeen,
    ensures
        count_commit_votes(s) == s.len(),
    decreases s.len(),
{
    if s.len() > 0 {
        lemma_all_commit_counts_full(s.drop_last());
    }
}

/// If some outcome is not a commit vote, the count falls short of the
/// length — the decision rule aborts.
pub proof fn lemma_missing_vote_counts_short(s: Seq<VoteOutcome>, i: int)
    requires
        0 <= i < s.len(),
        s[i] != VoteOutcome::CommitVoteSeen,
    ensures
        count_commit_votes(s) < s.len(),
    decreases s.len(),
{
    lemma_commit_votes_bounded(s.drop_last());
    if i < s.len() - 1 {
        lemma_missing_vote_counts_short(s.drop_last(), i);
    }
}

/// The transaction id under which an aborted round is logged and announced:
/// tagged with the ambiguity marker exactly when some participant's vote
/// never arrived in time.
pub open spec fn abort_txid(t: TransactionId, unknown: bool) -> TransactionId {
    if unknown {
        TransactionId { unknown: true, ..t }
    } else {
        t
    }
}

/// The proposal the coordinator fans out for a client request: the request
/// relabelled.
pub open spec fn proposal_message(request: ProtocolMessage) -> ProtocolMessage {
    ProtocolMessage { mtype: MessageType::CoordinatorPropose, ..request }
}

/// The global decision broadcast to participants for a request, given
/// whether the round commits and whether some vote timed out.
pub open spec fn decision_message(request: ProtocolMessage, commits: bool, unknown: bool)
    -> ProtocolMessage {
    if commits {
        ProtocolMessage { mtype: MessageType::CoordinatorCommit, ..request }
    } else {
        ProtocolMessage {
            mtype: MessageType::CoordinatorAbort,
            txid: abort_txid(request.txid, unknown),
            ..request
        }
    }
}

/// The result sent to the originating client for a request: same family and
/// same transaction id as the decision broadcast to participants.
pub open spec fn client_result_message(request: ProtocolMessage, commits: bool, unknown: bool)
    -> ProtocolMessage {
    if commits {
        ProtocolMessage { mtype: MessageType::ClientResultCommit, ..request }
    } else {
        ProtocolMessage {
            mtype: MessageType::ClientResultAbort,
            txid: abort_txid(request.txid, unknown),
            ..request
        }
    }
}

/// The decision broadcast for one observed round.
pub open spec fn round_decision_msg(r: CoordinatorRound, n_participants: int) -> ProtocolMessage {
    decision_message(r.request, round_commits(r, n_participants), has_timeout(r.outcomes@))
}

/// The client result for one observed round.
pub open spec fn round_client_msg(r: CoordinatorRound, n_participants: int) -> ProtocolMessage {
    client_result_message(r.request, round_commits(r, n_participants), has_timeout(r.outcomes@))
}

/// The coordinator's synthetic shutdown message, before it is readdressed
/// per recipient: a sentinel transaction id and the coordinator's own
/// sender identity.
pub open spec fn exit_message() -> ProtocolMessage {
    ProtocolMessage {
        mtype: MessageType::CoordinatorExit,
        txid: TransactionId { client: 0, op: 0, unknown: false },
        senderid: ActorId::Coordinator,
        opid: 0,
    }
}

/// How many of the rounds commit under the decision rule.
pub open spec fn count_commit_rounds(s: Seq<CoordinatorRound>, n_participants: int) -> int
    decreases s.len(),
{
    if s.len() == 0 {
        0
    } else {
        count_commit_rounds(s.drop_last(), n_participants) + if round_commits(
            s.last(),
            n_participants,
        ) {
            1int
        } else {
            0int
        }
    }
}

/// The commit-round count never exceeds the number of rounds.
pub proof fn lemma_commit_rounds_bounded(s: Seq<CoordinatorRound>, n_participants: int)
    ensures
        0 <= count_commit_rounds(s, n_participants) <= s.len(),
    decreases s.len(),
{
    if s.len() > 0 {
        lemma_commit_rounds_bounded(s.drop_last(), n_participants);
    }
}

/// The commit-round count grows by taking one more round.
pub proof fn lemma_commit_rounds_take_step(s: Seq<CoordinatorRound>, n_participants: int, i: int)
    requires
        0 <= i < s.len(),
    ensures
        count_commit_rounds(s.take(i + 1), n_participants) == count_commit_rounds(
            s.take(i),
            n_participants,
        ) + if round_commits(s[i], n_participants) {
            1int
        } else {
            0int
        },
{
    assert(s.take(i + 1).drop_last() =~= s.take(i));
    assert(s.take(i + 1).last() == s[i]);
}

/// The shutdown broadcast a coordinator with these registries owes: the
/// exit message readdressed to each client in registry order, and broadcast
/// to each participant in registry order.
pub open spec fn shutdown_output_matches(
    clients: Seq<u64>,
    participants: Seq<u64>,
    out: ShutdownOutput,
) -> bool {
    &&& out.client_msgs@.len() == clients.len()
    &&& forall|j: int|
        0 <= j < clients.len() ==> out.client_msgs@[j] == (Envelope {
            to: ActorId::Client(clients[j]),
            msg: (ProtocolMessage { senderid: ActorId::Client(clients[j]), ..exit_message() }),
        })
    &&& out.participant_msgs@.len() == participants.len()
    &&& forall|j: int|
        0 <= j < participants.len() ==> out.participant_msgs@[j] == (Envelope {
            to: ActorId::Participant(participants[j]),
            msg: exit_message(),
        })
}

/// The coordinator: owns the registry of client and participant identities,
/// drives the per-request protocol round, derives the global decision under
/// the all-or-nothing rule, logs every transition, and issues the final
/// shutdown once the configured request total has been served. The channels
/// behind the registry, the vote deadline clock and the cancellation flag
/// live in the embedding program.
#[derive(Debug)]
pub struct Coordinator {
    pub state: CoordinatorState,
    pub log: OpLog,
    pub successful_ops: u64,
    pub failed_ops: u64,
    pub unknown_ops: u64,
    pub clients: Vec<u64>,
    pub participants: Vec<u64>,
    pub total_num_requests: u32,
}

/// The registry and the configured total — everything a protocol round
/// never changes.
pub open spec fn same_coordinator_config(a: Coordinator, b: Coordinator) -> bool {
    &&& a.clients@ == b.clients@
    &&& a.participants@ == b.participants@
    &&& a.total_num_requests == b.total_num_requests
}

impl Coordinator {
    /// A fresh coordinator: quiescent, empty registry and log, zero tallies,
    /// configured to serve `total_num_requests` requests in all.
    pub fn new(total_num_requests: u32) -> (c: Coordinator)
        ensures
            c.state == CoordinatorState::Quiescent,
            c.log@ == Seq::<LogRecord>::empty(),
            c.successful_ops == 0,
            c.failed_ops == 0,
            c.unknown_ops == 0,
            c.clients@ == Seq::<u64>::empty(),
            c.participants@ == Seq::<u64>::empty(),
            c.total_num_requests == total_num_requests,
    {
        Coordinator {
            state: CoordinatorState::Quiescent,
            log: OpLog::new(),
            successful_ops: 0,
            failed_ops: 0,
            unknown_ops: 0,
            clients: Vec::new(),
            participants: Vec::new(),
            total_num_requests,
        }
    }

    /// Is this identity a registered client?
    pub fn has_client(&self, id: u64) -> (present: bool)
        ensures
            present == self.clients@.contains(id),
    {
        let mut i: usize = 0;
        while i < self.clients.len()
            invariant
                0 <= i <= self.clients@.len(),
                forall|j: int| 0 <= j < i ==> self.clients@[j] != id,
            decreases self.clients@.len() - i,
        {
            if self.clients[i] == id {
                assert(self.clients@[i as int] == id);
                return true;
            }
            i = i + 1;
        }
        false
    }

    /// Is this identity a registered participant?
    pub fn has_participant(&self, id: u64) -> (present: bool)
        ensures
            present == self.participants@.contains(id),
    {
        let mut i: usize = 0;
        while i < self.participants.len()
            invariant
                0 <= i <= self.participants@.len(),
                forall|j: int| 0 <= j < i ==> self.participants@[j] != id,
            decreases self.participants@.len() - i,
        {
            if self.participants[i] == id {
                assert(self.participants@[i as int] == id);
                return true;
            }
            i = i + 1;
        }
        false
    }

    /// Register one participant. Only legal during the join phase — while
    /// the coordinator is still quiescent and the identity is new; joining
    /// after the protocol has started is a contract violation, not a
    /// recoverable error.
    pub fn participant_join(&mut self, id: u64)
        requires
            old(self).state == CoordinatorState::Quiescent,
            !old(self).participants@.contains(id),
        ensures
            final(self).participants@ == old(self).participants@.push(id),
            final(self).clients@ == old(self).clients@,
            final(self).state == old(self).state,
            final(self).log@ == old(self).log@,
            final(self).successful_ops == old(self).successful_ops,
            final(self).failed_ops == old(self).failed_ops,
            final(self).unknown_ops == old(self).unknown_ops,
            final(self).total_num_requests == old(self).total_num_requests,
    {
        self.participants.push(id);
    }

    /// Register one client, under the same join-phase contract as
    /// `participant_join`.
    pub fn client_join(&mut self, id: u64)
        requires
            old(self).state == CoordinatorState::Quiescent,
            !old(self).clients@.contains(id),
        ensures
            final(self).clients@ == old(self).clients@.push(id),
            final(self).participants@ == old(self).participants@,
            final(self).state == old(self).state,
            final(self).log@ == old(self).log@,
            final(self).successful_ops == old(self).successful_ops,
            final(self).failed_ops == old(self).failed_ops,
            final(self).unknown_ops == old(self).unknown_ops,
            final(self).total_num_requests == old(self).total_num_requests,
    {
        self.clients.push(id);
    }

    /// Open a request round: relabel the client's request as the proposal,
    /// log it, and return it for broadcast to every participant.
    pub fn handle_client_request(&mut self, client_request: &ProtocolMessage) -> (proposal:
        ProtocolMessage)
        requires
            client_request.mtype == MessageType::ClientRequest,
        ensures
            proposal == proposal_message(*client_request),
            final(self).state == CoordinatorState::ProposalSent,
            final(self).log@ == old(self).log@.push(record_of(proposal)),
            same_coordinator_config(*old(self), *final(self)),
            final(self).successful_ops == old(self).successful_ops,
            final(self).failed_ops == old(self).failed_ops,
            final(self).unknown_ops == old(self).unknown_ops,
    {
        self.state = CoordinatorState::ReceivedRequest;
        let proposal = client_request.relabel(MessageType::CoordinatorPropose);
        self.log.append_msg(&proposal);
        self.state = CoordinatorState::ProposalSent;
        proposal
    }

    /// What one participant's deadline-bounded poll came to, from the
    /// messages it delivered before the deadline and whether the channel was
    /// found closed: the first commit vote observed ends the poll as a
    /// yes-vote; any other message is ignored; with no commit vote the poll
    /// ends as a closed channel or as the non-vote that flags the round.
    pub fn classify_poll(&self, observed: &Vec<ProtocolMessage>, closed: bool) -> (outcome:
        VoteOutcome)
        ensures
            outcome == (if (exists|j: int|
                0 <= j < observed@.len() && observed@[j].mtype
                    == MessageType::ParticipantVoteCommit) {
                VoteOutcome::CommitVoteSeen
            } else if closed {
                VoteOutcome::ChannelClosed
            } else {
                VoteOutcome::DeadlineElapsed
            }),
    {
        let mut i: usize = 0;
        while i < observed.len()
            invariant
                0 <= i <= observed@.len(),
                forall|j: int|
                    0 <= j < i ==> observed@[j].mtype != MessageType::ParticipantVoteCommit,
            decreases observed@.len() - i,
        {
            if observed[i].mtype == MessageType::ParticipantVoteCommit {
                return VoteOutcome::CommitVoteSeen;
            }
            i = i + 1;
        }
        if closed {
            VoteOutcome::ChannelClosed
        } else {
            VoteOutcome::DeadlineElapsed
        }
    }

    /// Tally one round's poll outcomes, one per registered participant: how
    /// many commit votes arrived in time, and whether some participant's
    /// deadline elapsed without one — the condition that marks the round's
    /// outcome unknown.
    pub fn collect_votes(&self, outcomes: &Vec<VoteOutcome>) -> (r: (usize, bool))
        requires
            outcomes@.len() == self.participants@.len(),
        ensures
            r.0 == count_commit_votes(outcomes@),
            r.1 == has_timeout(outcomes@),
    {
        let mut vote_count: usize = 0;
        let mut unknown: bool = false;
        let mut i: usize = 0;
        proof {
            lemma_commit_votes_bounded(outcomes@);
        }
        while i < outcomes.len()
            invariant
                0 <= i <= outcomes@.len(),
                vote_count == count_commit_votes(outcomes@.take(i as int)),
                unknown == has_timeout(outcomes@.take(i as int)),
            decreases outcomes@.len() - i,
        {
            proof {
                lemma_commit_votes_bounded(outcomes@.take(i as int));
                lemma_commit_votes_take_step(outcomes@, i as int);
                assert(outcomes@.take(i as int + 1).take(i as int) =~= outcomes@.take(i as int));
            }
            let ghost prefix = outcomes@.take(i as int + 1);
            match outcomes[i] {
                VoteOutcome::CommitVoteSeen => {
                    vote_count = vote_count + 1;
                },
                VoteOutcome::DeadlineElapsed => {
                    unknown = true;
                },
                VoteOutcome::ChannelClosed => {},
            }
            proof {
                assert(prefix[i as int] == outcomes@[i as int]);
                assert forall|j: int|
                    0 <= j < prefix.len() && prefix[j] == VoteOutcome::DeadlineElapsed implies (
                unknown) by {
                    if j < i {
                        assert(prefix[j] == outcomes@.take(i as int)[j]);
                    }
                }
                if unknown && has_timeout(outcomes@.take(i as int)) {
                    let j = choose|j: int|
                        0 <= j < outcomes@.take(i as int).len() && outcomes@.take(i as int)[j]
                            == VoteOutcome::DeadlineElapsed;
                    assert(prefix[j] == outcomes@.take(i as int)[j]);
                }
                assert(unknown == has_timeout(prefix));
            }
            i = i + 1;
        }
        proof {
            assert(outcomes@.take(outcomes@.len() as int) =~= outcomes@);
        }
        (vote_count, unknown)
    }

    /// Commit the transaction: log the global commit under the request's
    /// transaction id, tally the success, and return the decision for
    /// broadcast to every participant together with the committed result for
    /// the originating client.
    pub fn commit_transaction(&mut self, client_request: &ProtocolMessage) -> (out: (
        ProtocolMessage,
        ProtocolMessage,
    ))
        requires
            old(self).successful_ops < u64::MAX,
        ensures
            out.0 == decision_message(*client_request, true, false),
            out.1 == client_result_message(*client_request, true, false),
            final(self).state == CoordinatorState::ReceivedVotesCommit,
            final(self).log@ == old(self).log@.push(record_of(out.0)),
            final(self).successful_ops == old(self).successful_ops + 1,
            final(self).failed_ops == old(self).failed_ops,
            final(self).unknown_ops == old(self).unknown_ops,
            same_coordinator_config(*old(self), *final(self)),
    {
        self.state = CoordinatorState::ReceivedVotesCommit;
        let decision = client_request.relabel(MessageType::CoordinatorCommit);
        self.log.append_msg(&decision);
        let result = decision.relabel(MessageType::ClientResultCommit);
        self.successful_ops = self.successful_ops + 1;
        (decision, result)
    }

    /// Abort the transaction: tag the transaction id with the ambiguity
    /// marker when some vote timed out, log the global abort under that id,
    /// tally the failure, and return the decision broadcast together with
    /// the aborted result for the originating client.
    pub fn abort_transaction(&mut self, client_request: &ProtocolMessage, unknown: bool) -> (out: (
        ProtocolMessage,
        ProtocolMessage,
    ))
        requires
            old(self).failed_ops < u64::MAX,
        ensures
            out.0 == decision_message(*client_request, false, unknown),
            out.1 == client_result_message(*client_request, false, unknown),
            final(self).state == CoordinatorState::ReceivedVotesAbort,
            final(self).log@ == old(self).log@.push(record_of(out.0)),
            final(self).successful_ops == old(self).successful_ops,
            final(self).failed_ops == old(self).failed_ops + 1,
            final(self).unknown_ops == old(self).unknown_ops,
            same_coordinator_config(*old(self), *final(self)),
    {
        self.state = CoordinatorState::ReceivedVotesAbort;
        let txid = if unknown {
            client_request.txid.mark_unknown()
        } else {
            client_request.txid
        };
        let decision = ProtocolMessage::generate(
            MessageType::CoordinatorAbort,
            txid,
            client_request.senderid,
            client_request.opid,
        );
        self.log.append_msg(&decision);
        let result = decision.relabel(MessageType::ClientResultAbort);
        self.failed_ops = self.failed_ops + 1;
        (decision, result)
    }

    /// Apply the all-or-nothing decision rule to a tallied round: commit
    /// exactly when the commit-vote count equals the number of registered
    /// participants, otherwise abort — marked unknown when some vote timed
    /// out.
    pub fn resolve_votes(
        &mut self,
        client_request: &ProtocolMessage,
        vote_count: usize,
        unknown: bool,
    ) -> (out: (ProtocolMessage, ProtocolMessage))
        requires
            old(self).successful_ops < u64::MAX,
            old(self).failed_ops < u64::MAX,
        ensures
            ({
                let commits = vote_count == old(self).participants@.len();
                &&& out.0 == decision_message(*client_request, commits, unknown)
                &&& out.1 == client_result_message(*client_request, commits, unknown)
                &&& final(self).log@ == old(self).log@.push(record_of(out.0))
                &&& final(self).state == (if commits {
                    CoordinatorState::ReceivedVotesCommit
                } else {
                    CoordinatorState::ReceivedVotesAbort
                })
                &&& final(self).successful_ops == old(self).successful_ops + if commits {
                    1int
                } else {
                    0int
                }
                &&& final(self).failed_ops == old(self).failed_ops + if commits {
                    0int
                } else {
                    1int
                }
                &&& final(self).unknown_ops == old(self).unknown_ops
                &&& same_coordinator_config(*old(self), *final(self))
            }),
    {
        if vote_count == self.participants.len() {
            self.commit_transaction(client_request)
        } else {
            self.abort_transaction(client_request, unknown)
        }
    }

    /// Address a message to every registered participant, in registry order.
    pub fn send_message_participant(&self, pm: &ProtocolMessage) -> (envs: Vec<Envelope>)
        ensures
            envs@.len() == self.participants@.len(),
            forall|j: int|
                0 <= j < envs@.len() ==> envs@[j] == (Envelope {
                    to: ActorId::Participant(self.participants@[j]),
                    msg: *pm,
                }),
    {
        let mut envs: Vec<Envelope> = Vec::new();
        let mut i: usize = 0;
        while i < self.participants.len()
            invariant
                0 <= i <= self.participants@.len(),
                envs@.len() == i,
                forall|j: int|
                    0 <= j < i ==> envs@[j] == (Envelope {
                        to: ActorId::Participant(self.participants@[j]),
                        msg: *pm,
                    }),
            decreases self.participants@.len() - i,
        {
            envs.push(Envelope { to: ActorId::Participant(self.participants[i]), msg: *pm });
            i = i + 1;
        }
        envs
    }

    /// Address a message to the client named by its sender identity — the
    /// originating client of a request round. A message whose sender is not
    /// a registered client goes nowhere.
    pub fn send_message_client(&self, pm: &ProtocolMessage) -> (env: Option<Envelope>)
        ensures
            env == (match pm.senderid {
                ActorId::Client(id) => if self.clients@.contains(id) {
                    Some(Envelope { to: ActorId::Client(id), msg: *pm })
                } else {
                    None
                },
                _ => None,
            }),
    {
        match pm.senderid {
            ActorId::Client(id) => {
                if self.has_client(id) {
                    Some(Envelope { to: ActorId::Client(id), msg: *pm })
                } else {
                    None
                }
            },
            _ => None,
        }
    }

    /// Address the shutdown message to every registered client, each copy
    /// readdressed with that client's identity so that it routes to them.
    pub fn send_message_client_exit(&self, pm: &ProtocolMessage) -> (envs: Vec<Envelope>)
        ensures
            envs@.len() == self.clients@.len(),
            forall|j: int|
                0 <= j < envs@.len() ==> envs@[j] == (Envelope {
                    to: ActorId::Client(self.clients@[j]),
                    msg: (ProtocolMessage { senderid: ActorId::Client(self.clients@[j]), ..*pm }),
                }),
    {
        let mut envs: Vec<Envelope> = Vec::new();
        let mut i: usize = 0;
        while i < self.clients.len()
            invariant
                0 <= i <= self.clients@.len(),
                envs@.len() == i,
                forall|j: int|
                    0 <= j < i ==> envs@[j] == (Envelope {
                        to: ActorId::Client(self.clients@[j]),
                        msg: (ProtocolMessage {
                            senderid: ActorId::Client(self.clients@[j]),
                            ..*pm
                        }),
                    }),
            decreases self.clients@.len() - i,
        {
            let id = self.clients[i];
            envs.push(
                Envelope {
                    to: ActorId::Client(id),
                    msg: ProtocolMessage {
                        mtype: pm.mtype,
                        txid: pm.txid,
                        senderid: ActorId::Client(id),
                        opid: pm.opid,
                    },
                },
            );
            i = i + 1;
        }
        envs
    }

    /// Build the shutdown broadcast: the synthetic exit message, addressed
    /// to every client individually and to every participant.
    pub fn shutdown_protocol(&self) -> (out: ShutdownOutput)
        ensures
            shutdown_output_matches(self.clients@, self.participants@, out),
    {
        let shutdown_msg = ProtocolMessage::generate(
            MessageType::CoordinatorExit,
            TransactionId::sentinel(),
            ActorId::Coordinator,
            0,
        );
        let client_msgs = self.send_message_client_exit(&shutdown_msg);
        let participant_msgs = self.send_message_participant(&shutdown_msg);
        ShutdownOutput { client_msgs, participant_msgs }
    }

    /// The coordinator side of the protocol over the request rounds the
    /// embedding program observed, each a client request paired with the
    /// poll outcome of every registered participant. Rounds are served in
    /// order until the configured total is reached; then the shutdown
    /// broadcast is issued and any further round is ignored. Every served
    /// round yields its proposal, its global decision and its client result,
    /// and appends exactly its proposal and decision records to the log —
    /// which is append-only. Counter conservation: each served round tallies
    /// exactly one of success or failure, so the two tallies together grow
    /// by the number of rounds served.
    pub fn protocol(&mut self, rounds: &Vec<CoordinatorRound>) -> (out: (
        Vec<RoundOutput>,
        Option<ShutdownOutput>,
    ))
        requires
            old(self).state == CoordinatorState::Quiescent,
            old(self).successful_ops + old(self).failed_ops <= old(self).total_num_requests,
            forall|i: int|
                0 <= i < rounds@.len() ==> rounds@[i].request.mtype == MessageType::ClientRequest,
            forall|i: int|
                0 <= i < rounds@.len() ==> rounds@[i].outcomes@.len() == old(
                    self,
                ).participants@.len(),
        ensures
            ({
                let handled0 = old(self).successful_ops + old(self).failed_ops;
                let n = vstd::math::min(
                    rounds@.len() as int,
                    old(self).total_num_requests - handled0,
                );
                let np = old(self).participants@.len() as int;
                &&& same_coordinator_config(*old(self), *final(self))
                &&& final(self).state == CoordinatorState::Quiescent
                &&& final(self).unknown_ops == old(self).unknown_ops
                &&& out.0@.len() == n
                &&& forall|i: int|
                    0 <= i < n ==> out.0@[i].proposal == proposal_message(rounds@[i].request)
                &&& forall|i: int|
                    0 <= i < n ==> out.0@[i].decision == round_decision_msg(rounds@[i], np)
                &&& forall|i: int|
                    0 <= i < n ==> out.0@[i].client_result == round_client_msg(rounds@[i], np)
                &&& final(self).successful_ops == old(self).successful_ops + count_commit_rounds(
                    rounds@.take(n),
                    np,
                )
                &&& final(self).failed_ops == old(self).failed_ops + n - count_commit_rounds(
                    rounds@.take(n),
                    np,
                )
                &&& final(self).successful_ops + final(self).failed_ops == handled0 + n
                &&& final(self).log@.len() == old(self).log@.len() + 2 * n
                &&& forall|i: int|
                    0 <= i < old(self).log@.len() ==> final(self).log@[i] == old(self).log@[i]
                &&& forall|i: int|
                    0 <= i < n ==> final(self).log@[old(self).log@.len() + 2 * i] == record_of(
                        proposal_message(rounds@[i].request),
                    )
                &&& forall|i: int|
                    0 <= i < n ==> final(self).log@[old(self).log@.len() + 2 * i + 1] == record_of(
                        round_decision_msg(rounds@[i], np),
                    )
                &&& (out.1 is Some <==> handled0 + n == old(self).total_num_requests)
                &&& (match out.1 {
                    Some(sh) => shutdown_output_matches(
                        old(self).clients@,
                        old(self).participants@,
                        sh,
                    ),
                    None => true,
                })
            }),
    {
        let ghost handled0 = old(self).successful_ops + old(self).failed_ops;
        let ghost n = vstd::math::min(
            rounds@.len() as int,
            old(self).total_num_requests - handled0,
        );
        let ghost np = old(self).participants@.len() as int;
        let mut outputs: Vec<RoundOutput> = Vec::new();
        let mut i: usize = 0;
        while i < rounds.len() && self.successful_ops + self.failed_ops < (
        self.total_num_requests as u64)
            invariant
                0 <= i <= rounds@.len(),
                handled0 == old(self).successful_ops + old(self).failed_ops,
                handled0 <= old(self).total_num_requests,
                n == vstd::math::min(
                    rounds@.len() as int,
                    old(self).total_num_requests - handled0,
                ),
                np == old(self).participants@.len() as int,
                i <= n,
                forall|k: int|
                    0 <= k < rounds@.len() ==> rounds@[k].request.mtype
                        == MessageType::ClientRequest,
                forall|k: int|
                    0 <= k < rounds@.len() ==> rounds@[k].outcomes@.len() == old(
                        self,
                    ).participants@.len(),
                same_coordinator_config(*old(self), *self),
                self.unknown_ops == old(self).unknown_ops,
                self.successful_ops == old(self).successful_ops + count_commit_rounds(
                    rounds@.take(i as int),
                    np,
                ),
                self.failed_ops == old(self).failed_ops + i - count_commit_rounds(
                    rounds@.take(i as int),
                    np,
                ),
                outputs@.len() == i,
                forall|k: int|
                    0 <= k < i ==> outputs@[k].proposal == proposal_message(rounds@[k].request),
                forall|k: int|
                    0 <= k < i ==> outputs@[k].decision == round_decision_msg(rounds@[k], np),
                forall|k: int|
                    0 <= k < i ==> outputs@[k].client_result == round_client_msg(rounds@[k], np),
                self.log@.len() == old(self).log@.len() + 2 * i,
                forall|k: int|
                    0 <= k < old(self).log@.len() ==> self.log@[k] == old(self).log@[k],
                forall|k: int|
                    0 <= k < i ==> self.log@[old(self).log@.len() + 2 * k] == record_of(
                        proposal_message(rounds@[k].request),
                    ),
                forall|k: int|
                    0 <= k < i ==> self.log@[old(self).log@.len() + 2 * k + 1] == record_of(
                        round_decision_msg(rounds@[k], np),
                    ),
            decreases rounds@.len() - i,
        {
            proof {
                lemma_commit_rounds_bounded(rounds@.take(i as int), np);
                lemma_commit_rounds_take_step(rounds@, np, i as int);
            }
            let round = &rounds[i];
            let proposal = self.handle_client_request(&round.request);
            let votes = self.collect_votes(&round.outcomes);
            let decision = self.resolve_votes(&round.request, votes.0, votes.1);
            outputs.push(
                RoundOutput { proposal, decision: decision.0, client_result: decision.1 },
            );
            i = i + 1;
        }
        proof {
            lemma_commit_rounds_bounded(rounds@.take(i as int), np);
            if i < rounds@.len() {
                assert(self.successful_ops + self.failed_ops == old(self).total_num_requests);
            } else {
                assert(rounds@.take(rounds@.len() as int) =~= rounds@);
            }
            assert(i == n);
        }
        self.state = CoordinatorState::Quiescent;
        let shutdown = if self.successful_ops + self.failed_ops == (self.total_num_requests
            as u64) {
            Some(self.shutdown_protocol())
        } else {
            None
        };
        (outputs, shutdown)
    }

    /// How many requests this coordinator has served so far: every round
    /// tallies exactly one of success or failure, so the two together count
    /// the rounds.
    pub fn handled(&self) -> (n: u64)
        requires
            self.successful_ops + self.failed_ops <= u64::MAX,
        ensures
            n == self.successful_ops + self.failed_ops,
    {
        self.successful_ops + self.failed_ops
    }
}

} // verus!
