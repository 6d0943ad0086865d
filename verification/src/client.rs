use vstd::prelude::*;

use crate::message::ActorId;
use crate::message::MessageType;
use crate::message::ProtocolMessage;
use crate::message::TransactionId;

verus! {

/// The request a client issues as its `n`-th operation: a `ClientRequest`
/// whose transaction id pairs the client with its own request counter.
pub open spec fn request_message(id: u64, n: u32) -> ProtocolMessage {
    ProtocolMessage {
        mtype: MessageType::ClientRequest,
        txid: TransactionId { client: id, op: n as u64, unknown: false },
        senderid: ActorId::Client(id),
        opid: n,
    }
}

/// Is this result message a committed outcome for the client?
pub open spec fn is_commit_result(pm: ProtocolMessage) -> bool {
    pm.mtype == MessageType::ClientResultCommit
}

/// Is this result message an aborted outcome for the client?
pub open spec fn is_abort_result(pm: ProtocolMessage) -> bool {
    pm.mtype == MessageType::ClientResultAbort
}

/// Is this result message an aborted outcome carrying the ambiguity marker?
pub open spec fn is_unknown_result(pm: ProtocolMessage) -> bool {
    pm.mtype == MessageType::ClientResultAbort && pm.txid.unknown
}

/// How many results in `s` are committed outcomes.
pub open spec fn count_commit_results(s: Seq<ProtocolMessage>) -> int
    decreases s.len(),
{
    if s.len() == 0 {
        0
    } else {
        count_commit_results(s.drop_last()) + if is_commit_result(s.last()) {
            1int
        } else {
            0int
        }
    }
}

/// How many results in `s` are aborted outcomes.
pub open spec fn count_abort_results(s: Seq<ProtocolMessage>) -> int
    decreases s.len(),
{
    if s.len() == 0 {
        0
    } else {
        count_abort_results(s.drop_last()) + if is_abort_result(s.last()) {
            1int
        } else {
            0int
        }
    }
}

/// How many results in `s` are aborted outcomes with the ambiguity marker.
pub open spec fn count_unknown_results(s: Seq<ProtocolMessage>) -> int
    decreases s.len(),
{
    if s.len() == 0 {
        0
    } else {
        count_unknown_results(s.drop_last()) + if is_unknown_result(s.last()) {
            1int
        } else {
            0int
        }
    }
}

/// The three result counts all grow by taking one more element.
pub proof fn lemma_count_results_take_step(s: Seq<ProtocolMessage>, i: int)
    requires
        0 <= i < s.len(),
    ensures
        count_commit_results(s.take(i + 1)) == count_commit_results(s.take(i)) + if is_commit_result(
            s[i],
        ) {
            1int
        } else {
            0int
        },
        count_abort_results(s.take(i + 1)) == count_abort_results(s.take(i)) + if is_abort_result(
            s[i],
        ) {
            1int
        } else {
            0int
        },
        count_unknown_results(s.take(i + 1)) == count_unknown_results(s.take(i))
            + if is_unknown_result(s[i]) {
            1int
        } else {
            0int
        },
{
    assert(s.take(i + 1).drop_last() =~= s.take(i));
    assert(s.take(i + 1).last() == s[i]);
}

/// Every count is bounded by the length of the sequence.
pub proof fn lemma_counts_bounded(s: Seq<ProtocolMessage>)
    ensures
        0 <= count_commit_results(s) <= s.len(),
        0 <= count_abort_results(s) <= s.len(),
        0 <= count_unknown_results(s) <= s.len(),
    decreases s.len(),
{
    if s.len() > 0 {
        lemma_counts_bounded(s.drop_last());
    }
}

/// A client: issues a bounded number of uniquely-identified requests, one at
/// a time, and tallies the outcome of each. The channels that carry its
/// messages, the cancellation flag and the final report live in the
/// embedding program; this state machine decides what is sent and how each
/// received result is classified.
#[derive(Clone, Copy, Debug, PartialEq, Eq, Structural)]
pub struct Client {
    pub id: u64,
    pub num_requests: u32,
    pub success: u32,
    pub failures: u32,
    pub unknown: u32,
}

/// How one received result transforms a client's tallies.
pub open spec fn recv_result_spec(c: Client, result: ProtocolMessage) -> Client {
    if result.mtype == MessageType::ClientResultCommit {
        Client { success: (c.success + 1) as u32, ..c }
    } else if result.mtype == MessageType::ClientResultAbort {
        if result.txid.unknown {
            Client { failures: (c.failures + 1) as u32, unknown: (c.unknown + 1) as u32, ..c }
        } else {
            Client { failures: (c.failures + 1) as u32, ..c }
        }
    } else {
        c
    }
}

impl Client {
    /// A fresh client with the given identity: no requests issued, all
    /// tallies zero.
    pub fn new(id: u64) -> (c: Client)
        ensures
            c == (Client { id, num_requests: 0, success: 0, failures: 0, unknown: 0 }),
    {
        Client { id, num_requests: 0, success: 0, failures: 0, unknown: 0 }
    }

    /// Build the next request: bump the per-client counter and derive from it
    /// a transaction id no other request of any client carries. The returned
    /// message is what the embedding program puts on the wire.
    pub fn send_next_operation(&mut self) -> (pm: ProtocolMessage)
        requires
            old(self).num_requests < u32::MAX,
        ensures
            *final(self) == (Client {
                num_requests: (old(self).num_requests + 1) as u32,
                ..*old(self)
            }),
            pm == request_message(old(self).id, (old(self).num_requests + 1) as u32),
    {
        self.num_requests = self.num_requests + 1;
        ProtocolMessage::generate(
            MessageType::ClientRequest,
            TransactionId::new(self.id, self.num_requests as u64),
            ActorId::Client(self.id),
            self.num_requests,
        )
    }

    /// Classify one result received from the coordinator: a committed result
    /// counts as a success, an aborted one as a failure — additionally as
    /// unknown when its transaction id carries the ambiguity marker; any
    /// other kind leaves the tallies unchanged.
    pub fn recv_result(&mut self, result: &ProtocolMessage)
        requires
            old(self).success < u32::MAX,
            old(self).failures < u32::MAX,
            old(self).unknown < u32::MAX,
        ensures
            *final(self) == recv_result_spec(*old(self), *result),
    {
        match result.mtype {
            MessageType::ClientResultCommit => {
                self.success = self.success + 1;
            },
            MessageType::ClientResultAbort => {
                self.failures = self.failures + 1;
                if result.txid.unknown {
                    self.unknown = self.unknown + 1;
                }
            },
            _ => {},
        }
    }

    /// The client side of the protocol over a full run: issue `n_requests`
    /// requests, pairing the `i`-th with the `i`-th result the coordinator
    /// returned, and tally every outcome. Returns the requests issued, in
    /// order. Counter conservation: exactly the results that are committed or
    /// aborted outcomes are accounted, so the success and failure tallies
    /// together grow by precisely that number — no completed round is
    /// dropped from the accounting.
    pub fn protocol(&mut self, n_requests: u32, results: &Vec<ProtocolMessage>) -> (requests: Vec<
        ProtocolMessage,
    >)
        requires
            results@.len() == n_requests,
            old(self).num_requests + n_requests <= u32::MAX,
            old(self).success + n_requests <= u32::MAX,
            old(self).failures + n_requests <= u32::MAX,
            old(self).unknown + n_requests <= u32::MAX,
        ensures
            requests@.len() == n_requests,
            forall|j: int|
                0 <= j < n_requests ==> requests@[j] == request_message(
                    old(self).id,
                    (old(self).num_requests + j + 1) as u32,
                ),
            final(self).id == old(self).id,
            final(self).num_requests == old(self).num_requests + n_requests,
            final(self).success == old(self).success + count_commit_results(results@),
            final(self).failures == old(self).failures + count_abort_results(results@),
            final(self).unknown == old(self).unknown + count_unknown_results(results@),
            final(self).success + final(self).failures == old(self).success + old(self).failures
                + count_commit_results(results@) + count_abort_results(results@),
    {
        let mut requests: Vec<ProtocolMessage> = Vec::new();
        let mut i: usize = 0;
        proof {
            lemma_counts_bounded(results@);
        }
        while i < n_requests as usize
            invariant
                0 <= i <= n_requests,
                results@.len() == n_requests,
                old(self).num_requests + n_requests <= u32::MAX,
                old(self).success + n_requests <= u32::MAX,
                old(self).failures + n_requests <= u32::MAX,
                old(self).unknown + n_requests <= u32::MAX,
                requests@.len() == i,
                forall|j: int|
                    0 <= j < i ==> requests@[j] == request_message(
                        old(self).id,
                        (old(self).num_requests + j + 1) as u32,
                    ),
                self.id == old(self).id,
                self.num_requests == old(self).num_requests + i,
                self.success == old(self).success + count_commit_results(results@.take(i as int)),
                self.failures == old(self).failures + count_abort_results(results@.take(i as int)),
                self.unknown == old(self).unknown + count_unknown_results(results@.take(i as int)),
            decreases n_requests - i,
        {
            proof {
                lemma_counts_bounded(results@.take(i as int));
                lemma_count_results_take_step(results@, i as int);
            }
            let pm = self.send_next_operation();
            requests.push(pm);
            self.recv_result(&results[i]);
            i = i + 1;
        }
        proof {
            assert(results@.take(n_requests as int) =~= results@);
        }
        requests
    }

    /// Scan the messages observed while waiting to exit: the client stops
    /// only when the coordinator's shutdown signal is among them; every other
    /// kind observed here is ignored and changes nothing.
    pub fn wait_for_exit_signal(&self, observed: &Vec<ProtocolMessage>) -> (exit: bool)
        ensures
            exit == exists|j: int|
                0 <= j < observed@.len() && observed@[j].mtype == MessageType::CoordinatorExit,
    {
        let mut i: usize = 0;
        while i < observed.len()
            invariant
                0 <= i <= observed@.len(),
                forall|j: int| 0 <= j < i ==> observed@[j].mtype != MessageType::CoordinatorExit,
            decreases observed@.len() - i,
        {
            if observed[i].mtype == MessageType::CoordinatorExit {
                return true;
            }
            i = i + 1;
        }
        false
    }
}

} // verus!
