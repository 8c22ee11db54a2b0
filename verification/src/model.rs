//! Laws of the voting ledger, stated over arbitrary sequences of requests.
//!
//! An [`Action`] is one request against a record — a vote or a close — and
//! [`apply_action`] is its effect: the accepted transition, or the unchanged
//! state when the request is rejected. These are exactly the transitions that
//! [`crate::state::cast_vote`] and [`crate::state::end_voting`] promise in
//! their contracts, so what is proved here about request sequences holds of
//! any run of those functions.

use vstd::prelude::*;
use crate::ids::AccountId;
use crate::state::{
    VotingView, wf, can_vote, with_vote, can_close, with_closed, tally_total, vote_error,
    close_error,
};
use crate::errors::VotingError;

verus! {

/// One request against a voting record.
pub enum Action {
    Vote { voter: AccountId, candidate_index: u32 },
    Close { requester: AccountId },
}

/// The effect of one request: the transition when it is accepted, the
/// unchanged state when it is rejected.
pub open spec fn apply_action(s: VotingView, a: Action) -> VotingView {
    match a {
        Action::Vote { voter, candidate_index } => if can_vote(
            s,
            voter,
            candidate_index as int,
        ) {
            with_vote(s, voter, candidate_index as int)
        } else {
            s
        },
        Action::Close { requester } => if can_close(s, requester) {
            with_closed(s)
        } else {
            s
        },
    }
}

/// The state after a whole sequence of requests, applied in order.
pub open spec fn apply_actions(s: VotingView, acts: Seq<Action>) -> VotingView
    decreases acts.len(),
{
    if acts.len() == 0 {
        s
    } else {
        apply_actions(apply_action(s, acts[0]), acts.drop_first())
    }
}

/// One accepted or rejected request preserves well-formedness, never changes
/// the administrator or the reward token, never reopens a closed record, and
/// never removes a voter from the registry.
pub proof fn lemma_action_preserves_invariants(s: VotingView, a: Action)
    requires
        wf(s),
    ensures
        wf(apply_action(s, a)),
        apply_action(s, a).authority == s.authority,
        apply_action(s, a).vote_mint == s.vote_mint,
        !s.is_active ==> !apply_action(s, a).is_active,
        forall|v: AccountId|
            s.voters.contains(v) ==> #[trigger] apply_action(s, a).voters.contains(v),
{
    let t = apply_action(s, a);
    match a {
        Action::Vote { voter, candidate_index } => {
            let idx = candidate_index as int;
            if can_vote(s, voter, idx) {
                crate::state::lemma_with_vote_preserves_wf(s, voter, idx);
                assert forall|v: AccountId| s.voters.contains(v) implies #[trigger] t.voters
                    .contains(v) by {
                    let w = choose|k: int| 0 <= k < s.voters.len() && s.voters[k] == v;
                    assert(t.voters[w] == v);
                }
            }
        },
        Action::Close { requester } => {},
    }
}

/// The same invariants, over a whole request sequence.
pub proof fn lemma_actions_preserve_invariants(s: VotingView, acts: Seq<Action>)
    requires
        wf(s),
    ensures
        wf(apply_actions(s, acts)),
        apply_actions(s, acts).authority == s.authority,
        apply_actions(s, acts).vote_mint == s.vote_mint,
        !s.is_active ==> !apply_actions(s, acts).is_active,
        forall|v: AccountId|
            s.voters.contains(v) ==> #[trigger] apply_actions(s, acts).voters.contains(v),
    decreases acts.len(),
{
    if acts.len() > 0 {
        lemma_action_preserves_invariants(s, acts[0]);
        lemma_actions_preserve_invariants(apply_action(s, acts[0]), acts.drop_first());
    }
}

/// After any sequence of requests on a well-formed record, the candidate
/// counters sum to the size of the voter registry — and the registry holds no
/// duplicates, so that size is the number of distinct accepted voters.
pub proof fn lemma_tally_matches_registry(s: VotingView, acts: Seq<Action>)
    requires
        wf(s),
    ensures
        tally_total(apply_actions(s, acts).candidates) == apply_actions(s, acts).voters.len(),
        apply_actions(s, acts).voters.no_duplicates(),
{
    lemma_actions_preserve_invariants(s, acts);
}

/// A voter who is in the registry stays in it through any further requests,
/// and every further vote by that voter is rejected — as `AlreadyVoted` while
/// the record is open, as `VotingClosed` after it closes — whatever candidate
/// index the voter picks.
pub proof fn lemma_repeat_voter_always_rejected(
    s: VotingView,
    voter: AccountId,
    acts: Seq<Action>,
    candidate_index: u32,
)
    requires
        wf(s),
        s.voters.contains(voter),
    ensures
        !can_vote(apply_actions(s, acts), voter, candidate_index as int),
        apply_action(
            apply_actions(s, acts),
            Action::Vote { voter, candidate_index },
        ) == apply_actions(s, acts),
        apply_actions(s, acts).is_active ==> vote_error(
            apply_actions(s, acts),
            voter,
            candidate_index as int,
        ) == VotingError::AlreadyVoted,
        !apply_actions(s, acts).is_active ==> vote_error(
            apply_actions(s, acts),
            voter,
            candidate_index as int,
        ) == VotingError::VotingClosed,
{
    lemma_actions_preserve_invariants(s, acts);
}

/// Once a record is closed it stays closed through any further requests:
/// every vote is rejected with `VotingClosed`, and a further close by the
/// administrator is rejected with `AlreadyClosed`. (A close by anyone else is
/// rejected with `Unauthorized`, as its own contract states.)
pub proof fn lemma_closed_is_permanent(
    s: VotingView,
    acts: Seq<Action>,
    voter: AccountId,
    candidate_index: u32,
)
    requires
        wf(s),
        !s.is_active,
    ensures
        !apply_actions(s, acts).is_active,
        vote_error(apply_actions(s, acts), voter, candidate_index as int)
            == VotingError::VotingClosed,
        apply_action(
            apply_actions(s, acts),
            Action::Vote { voter, candidate_index },
        ) == apply_actions(s, acts),
        close_error(apply_actions(s, acts), s.authority) == VotingError::AlreadyClosed,
        apply_action(
            apply_actions(s, acts),
            Action::Close { requester: s.authority },
        ) == apply_actions(s, acts),
{
    lemma_actions_preserve_invariants(s, acts);
}

} // verus!
