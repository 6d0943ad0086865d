use vstd::prelude::*;

use crate::coordinator::count_commit_rounds;
use crate::coordinator::round_client_msg;
use crate::coordinator::round_commits;
use crate::coordinator::round_decision_msg;
use crate::coordinator::lemma_all_commit_counts_full;
use crate::coordinator::lemma_missing_vote_counts_short;
use crate::coordinator::CoordinatorRound;
use crate::coordinator::VoteOutcome;
use crate::message::is_abort_kind;
use crate::message::is_commit_kind;
use crate::message::MessageType;
use crate::oplog::record_of;
use crate::oplog::record_of_kind;

verus! {

/// All-or-nothing: for any request round, the global decision the
/// coordinator logs and broadcasts, the record a participant awaiting that
/// decision writes on receiving it, and the result handed to the
/// originating client all agree — one kind family, commit exactly when
/// every registered participant delivered a commit vote within its
/// deadline, and one transaction id throughout.
pub proof fn lemma_all_or_nothing(r: CoordinatorRound, np: int)
    requires
        r.outcomes@.len() == np,
    ensures
        ({
            let decision = round_decision_msg(r, np);
            let result = round_client_msg(r, np);
            // A participant that receives the decision while awaiting it logs the
            // decision under its own kind: the very record the coordinator logged.
            &&& record_of_kind(decision, decision.mtype) == record_of(decision)
            // The decision commits exactly when every participant voted commit in time.
            &&& (is_commit_kind(decision.mtype) <==> (forall|i: int|
                0 <= i < np ==> r.outcomes@[i] == VoteOutcome::CommitVoteSeen))
            // Decision and client result never disagree in family.
            &&& (is_commit_kind(decision.mtype) <==> is_commit_kind(result.mtype))
            &&& (is_abort_kind(decision.mtype) <==> is_abort_kind(result.mtype))
            // They speak of the same transaction, ambiguity marker included.
            &&& decision.txid == result.txid
            // And the decision is always one of the two families.
            &&& (is_commit_kind(decision.mtype) || is_abort_kind(decision.mtype))
        }),
{
    if forall|i: int| 0 <= i < np ==> r.outcomes@[i] == VoteOutcome::CommitVoteSeen {
        lemma_all_commit_counts_full(r.outcomes@);
    }
    if !round_commits(r, np) {
        assert(!(forall|i: int| 0 <= i < np ==> r.outcomes@[i] == VoteOutcome::CommitVoteSeen));
    }
    if round_commits(r, np) {
        if exists|i: int| 0 <= i < np && r.outcomes@[i] != VoteOutcome::CommitVoteSeen {
            let i = choose|i: int| 0 <= i < np && r.outcomes@[i] != VoteOutcome::CommitVoteSeen;
            lemma_missing_vote_counts_short(r.outcomes@, i);
        }
    }
}

/// Decision determinism under full success: when every registered
/// participant's poll delivered a commit vote in time, the round commits —
/// the client is told `ClientResultCommit` — and the transaction id stays
/// unmarked.
pub proof fn lemma_full_success_commits(r: CoordinatorRound, np: int)
    requires
        r.outcomes@.len() == np,
        forall|i: int| 0 <= i < np ==> r.outcomes@[i] == VoteOutcome::CommitVoteSeen,
    ensures
        round_decision_msg(r, np).mtype == MessageType::CoordinatorCommit,
        round_client_msg(r, np).mtype == MessageType::ClientResultCommit,
        round_client_msg(r, np).txid == r.request.txid,
{
    lemma_all_commit_counts_full(r.outcomes@);
}

/// Decision determinism under full success, over a whole run: when every
/// round's poll delivered a commit vote from every participant, every round
/// commits, so the coordinator's committed tally grows by exactly the
/// number of rounds served.
pub proof fn lemma_full_success_run(rounds: Seq<CoordinatorRound>, np: int)
    requires
        forall|k: int| 0 <= k < rounds.len() ==> rounds[k].outcomes@.len() == np,
        forall|k: int, i: int|
            0 <= k < rounds.len() && 0 <= i < np ==> rounds[k].outcomes@[i]
                == VoteOutcome::CommitVoteSeen,
    ensures
        count_commit_rounds(rounds, np) == rounds.len(),
    decreases rounds.len(),
{
    if rounds.len() > 0 {
        lemma_full_success_run(rounds.drop_last(), np);
        lemma_all_commit_counts_full(rounds.last().outcomes@);
    }
}

/// Decision determinism under forced operation failure: when no
/// participant's poll delivered a commit vote — as when every local
/// operation fails and every vote is an abort, which the coordinator's poll
/// ignores — the round aborts and the client is told `ClientResultAbort`.
pub proof fn lemma_no_commit_vote_aborts(r: CoordinatorRound, np: int)
    requires
        r.outcomes@.len() == np,
        np > 0,
        forall|i: int| 0 <= i < np ==> r.outcomes@[i] != VoteOutcome::CommitVoteSeen,
    ensures
        round_decision_msg(r, np).mtype == MessageType::CoordinatorAbort,
        round_client_msg(r, np).mtype == MessageType::ClientResultAbort,
{
    lemma_missing_vote_counts_short(r.outcomes@, 0);
}

/// Timeout classification: when some participant's deadline elapsed without
/// a commit vote — a permanently silent vote channel included — the round
/// aborts and both the logged decision and the client's result carry the
/// ambiguity marker on their transaction id.
pub proof fn lemma_timeout_marks_unknown(r: CoordinatorRound, np: int)
    requires
        r.outcomes@.len() == np,
        exists|i: int| 0 <= i < np && r.outcomes@[i] == VoteOutcome::DeadlineElapsed,
    ensures
        round_decision_msg(r, np).mtype == MessageType::CoordinatorAbort,
        round_decision_msg(r, np).txid.unknown,
        round_client_msg(r, np).mtype == MessageType::ClientResultAbort,
        round_client_msg(r, np).txid.unknown,
{
    let i = choose|i: int| 0 <= i < np && r.outcomes@[i] == VoteOutcome::DeadlineElapsed;
    lemma_missing_vote_counts_short(r.outcomes@, i);
}

} // verus!
