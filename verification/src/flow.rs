//! The vote-plus-reward transaction.
//!
//! A vote's ledger commit and its two external side effects — the reward mint
//! and the pool deposit — must be all-or-nothing. The host performs the
//! external calls; this module sequences them and keeps the ledger honest: the
//! vote is committed first, and if either external call then fails, the commit
//! is compensated exactly, leaving the record as it was. No run of the
//! transaction leaves a voter registered without both side effects delivered,
//! or a reward delivered without the vote recorded — the driver aborts the
//! whole operation on the `ExternalCallFailed` it is handed.

use vstd::prelude::*;
use crate::ids::AccountId;
use crate::errors::VotingError;
use crate::state::{
    VotingState, VotingView, wf, can_vote, with_vote, vote_error, cast_vote, CandidateView,
    lemma_count_le_tally, lemma_with_vote_preserves_wf, MAX_VOTERS,
};

verus! {

/// Where a vote-plus-reward transaction stands.
#[derive(Clone, Copy, Debug, PartialEq, Eq, Structural)]
pub enum VotePhase {
    /// The vote is committed; the reward mint has not been confirmed.
    AwaitingMint,
    /// The mint succeeded; the pool deposit has not been confirmed.
    AwaitingDeposit,
    /// Both side effects succeeded; the vote stands.
    Committed,
    /// A side effect failed; the vote was rolled back.
    Aborted,
}

/// One vote's transaction: which vote was committed, and how far its side
/// effects have come. `prior` remembers the record as it was before the
/// commit, so that a failure can restore it exactly.
pub struct VoteTransaction {
    pub phase: VotePhase,
    pub voter: AccountId,
    pub candidate_index: u32,
    pub prior: Ghost<VotingView>,
}

/// The record still carries exactly this transaction's vote on top of the
/// remembered prior state.
pub open spec fn carries_vote(t: VoteTransaction, record: VotingState) -> bool {
    &&& wf(t.prior@)
    &&& can_vote(t.prior@, t.voter, t.candidate_index as int)
    &&& record@ == with_vote(t.prior@, t.voter, t.candidate_index as int)
}

/// Undo the one vote sitting on top of `prior`: pop the voter and decrement
/// the chosen candidate's counter, restoring the record exactly.
fn rollback_vote(
    record: &mut VotingState,
    voter: AccountId,
    candidate_index: u32,
    Ghost(prior): Ghost<VotingView>,
)
    requires
        wf(prior),
        can_vote(prior, voter, candidate_index as int),
        old(record)@ == with_vote(prior, voter, candidate_index as int),
    ensures
        final(record)@ == prior,
{
    let idx = candidate_index as usize;
    let ghost committed = with_vote(prior, voter, candidate_index as int);
    proof {
        assert(record.voters@ == prior.voters.push(voter));
        assert(record.candidates@.len() == committed.candidates.len());
        lemma_count_le_tally(prior.candidates, idx as int);
    }
    record.voters.pop();
    let mut cand = record.candidates.remove(idx);
    proof {
        assert(cand@ == old(record).candidates@[idx as int]@);
        assert(old(record)@.candidates[idx as int] == old(record).candidates@[idx as int]@);
        assert(cand@ == committed.candidates[idx as int]);
        assert(cand@.vote_count == (prior.candidates[idx as int].vote_count + 1) as u64);
        assert(prior.candidates[idx as int].vote_count < MAX_VOTERS);
    }
    cand.vote_count = cand.vote_count - 1;
    record.candidates.insert(idx, cand);
    proof {
        assert(record.voters@ =~= prior.voters);
        assert(cand@ == (CandidateView {
            name: prior.candidates[idx as int].name,
            vote_count: prior.candidates[idx as int].vote_count,
        }));
        assert(cand@ == prior.candidates[idx as int]);
        assert forall|j: int| 0 <= j < record.candidates@.len() implies record@.candidates[j]
            == prior.candidates[j] by {
            assert(record@.candidates[j] == record.candidates@[j]@);
            if j != idx as int {
                assert(record.candidates@[j]@ == committed.candidates[j]);
            }
        }
        assert(record@.candidates =~= prior.candidates);
        assert(record@ =~= prior);
    }
}

impl VoteTransaction {
    /// Start the transaction: validate and commit the vote on the ledger. On
    /// success the transaction awaits the mint outcome; on rejection nothing
    /// was mutated and the ledger's error is handed through.
    pub fn begin(
        record: &mut VotingState,
        voter: AccountId,
        candidate_index: u32,
    ) -> (r: Result<VoteTransaction, VotingError>)
        requires
            wf(old(record)@),
        ensures
            wf(final(record)@),
            r is Ok <==> can_vote(old(record)@, voter, candidate_index as int),
            r matches Ok(t) ==> {
                &&& final(record)@ == with_vote(old(record)@, voter, candidate_index as int)
                &&& t.phase == VotePhase::AwaitingMint
                &&& t.voter == voter
                &&& t.candidate_index == candidate_index
                &&& t.prior@ == old(record)@
                &&& carries_vote(t, *final(record))
            },
            r matches Err(e) ==> *final(record) == *old(record)
                && e == vote_error(old(record)@, voter, candidate_index as int),
    {
        let ghost prior = record@;
        match cast_vote(record, voter, candidate_index) {
            Ok(()) => Ok(
                VoteTransaction {
                    phase: VotePhase::AwaitingMint,
                    voter,
                    candidate_index,
                    prior: Ghost(prior),
                },
            ),
            Err(e) => Err(e),
        }
    }

    /// Feed back whether the reward mint succeeded. On success the
    /// transaction moves on to await the deposit, the record untouched. On
    /// failure the committed vote is rolled back — the record is exactly the
    /// state before [`VoteTransaction::begin`] — and `ExternalCallFailed` is
    /// returned so the enclosing operation aborts as a whole.
    pub fn mint_outcome(&mut self, record: &mut VotingState, succeeded: bool) -> (r: Result<
        (),
        VotingError,
    >)
        requires
            old(self).phase == VotePhase::AwaitingMint,
            carries_vote(*old(self), *old(record)),
        ensures
            final(self).voter == old(self).voter,
            final(self).candidate_index == old(self).candidate_index,
            final(self).prior == old(self).prior,
            wf(final(record)@),
            succeeded ==> r is Ok && final(self).phase == VotePhase::AwaitingDeposit
                && *final(record) == *old(record) && carries_vote(*final(self), *final(record)),
            !succeeded ==> r == Err::<(), VotingError>(VotingError::ExternalCallFailed)
                && final(self).phase == VotePhase::Aborted && final(record)@ == old(self).prior@,
    {
        if succeeded {
            proof {
                lemma_with_vote_preserves_wf(
                    self.prior@,
                    self.voter,
                    self.candidate_index as int,
                );
            }
            self.phase = VotePhase::AwaitingDeposit;
            Ok(())
        } else {
            rollback_vote(record, self.voter, self.candidate_index, Ghost(self.prior@));
            self.phase = VotePhase::Aborted;
            Err(VotingError::ExternalCallFailed)
        }
    }

    /// Feed back whether the pool deposit succeeded. On success the whole
    /// transaction is committed and the vote stands. On failure the vote is
    /// rolled back exactly as for a failed mint, and `ExternalCallFailed` is
    /// returned.
    pub fn deposit_outcome(&mut self, record: &mut VotingState, succeeded: bool) -> (r: Result<
        (),
        VotingError,
    >)
        requires
            old(self).phase == VotePhase::AwaitingDeposit,
            carries_vote(*old(self), *old(record)),
        ensures
            final(self).voter == old(self).voter,
            final(self).candidate_index == old(self).candidate_index,
            final(self).prior == old(self).prior,
            wf(final(record)@),
            succeeded ==> r is Ok && final(self).phase == VotePhase::Committed
                && *final(record) == *old(record) && final(record)@ == with_vote(
                old(self).prior@,
                old(self).voter,
                old(self).candidate_index as int,
            ),
            !succeeded ==> r == Err::<(), VotingError>(VotingError::ExternalCallFailed)
                && final(self).phase == VotePhase::Aborted && final(record)@ == old(self).prior@,
    {
        if succeeded {
            proof {
                lemma_with_vote_preserves_wf(
                    self.prior@,
                    self.voter,
                    self.candidate_index as int,
                );
            }
            self.phase = VotePhase::Committed;
            Ok(())
        } else {
            rollback_vote(record, self.voter, self.candidate_index, Ghost(self.prior@));
            self.phase = VotePhase::Aborted;
            Err(VotingError::ExternalCallFailed)
        }
    }
}

} // verus!
