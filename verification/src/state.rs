//! The voting ledger: the durable record, its invariant, and the four
//! operations on it (creation, voting, closing, tally retrieval).

use vstd::prelude::*;
use crate::ids::AccountId;
use crate::errors::VotingError;

verus! {

/// Capacity of the candidate roster.
pub const MAX_CANDIDATES: usize = 100;

/// Capacity of the voter registry.
pub const MAX_VOTERS: usize = 200;

/// Capacity of a candidate name, in characters.
pub const MAX_NAME_LEN: usize = 32;

/// One entry of the candidate roster: a bounded name and a tally counter.
#[derive(Debug)]
pub struct Candidate {
    pub name: String,
    pub vote_count: u64,
}

/// The mathematical value of a [`Candidate`].
#[verifier::ext_equal]
pub ghost struct CandidateView {
    pub name: Seq<char>,
    pub vote_count: u64,
}

impl View for Candidate {
    type V = CandidateView;

    open spec fn view(&self) -> CandidateView {
        CandidateView { name: self.name@, vote_count: self.vote_count }
    }
}

/// The durable voting record of one election: the administrator allowed to
/// close it, the open flag, the reward token it mints, the candidate roster
/// and the registry of accounts that have voted.
#[derive(Debug)]
pub struct VotingState {
    pub authority: AccountId,
    pub is_active: bool,
    pub vote_mint: AccountId,
    pub candidates: Vec<Candidate>,
    pub voters: Vec<AccountId>,
}

/// The mathematical value of a [`VotingState`].
#[verifier::ext_equal]
pub ghost struct VotingView {
    pub authority: AccountId,
    pub is_active: bool,
    pub vote_mint: AccountId,
    pub candidates: Seq<CandidateView>,
    pub voters: Seq<AccountId>,
}

impl View for VotingState {
    type V = VotingView;

    open spec fn view(&self) -> VotingView {
        VotingView {
            authority: self.authority,
            is_active: self.is_active,
            vote_mint: self.vote_mint,
            candidates: self.candidates@.map(|i: int, c: Candidate| c@),
            voters: self.voters@,
        }
    }
}

/// The sum of all tally counters of a roster.
pub open spec fn tally_total(s: Seq<CandidateView>) -> int
    decreases s.len(),
{
    if s.len() == 0 {
        0
    } else {
        tally_total(s.drop_last()) + s.last().vote_count
    }
}

/// Well-formedness of a voting record: the roster and the registry respect
/// their capacities, names respect theirs, no voter appears twice, and the
/// tally counters sum to the number of registered voters.
pub open spec fn wf(v: VotingView) -> bool {
    &&& v.candidates.len() <= MAX_CANDIDATES
    &&& v.voters.len() <= MAX_VOTERS
    &&& v.voters.no_duplicates()
    &&& forall|i: int|
        0 <= i < v.candidates.len() ==> #[trigger] v.candidates[i].name.len() <= MAX_NAME_LEN
    &&& tally_total(v.candidates) == v.voters.len()
}

/// The candidate list a new record is seeded with is acceptable: within the
/// roster capacity, every name within the name capacity.
pub open spec fn acceptable_roster(names: Seq<Seq<char>>) -> bool {
    &&& names.len() <= MAX_CANDIDATES
    &&& forall|i: int| 0 <= i < names.len() ==> #[trigger] names[i].len() <= MAX_NAME_LEN
}

/// The record a successful creation returns: open, tallies at zero, empty
/// registry.
pub open spec fn fresh_record(
    authority: AccountId,
    vote_mint: AccountId,
    names: Seq<Seq<char>>,
) -> VotingView {
    VotingView {
        authority,
        is_active: true,
        vote_mint,
        candidates: names.map(|i: int, n: Seq<char>| CandidateView { name: n, vote_count: 0 }),
        voters: Seq::empty(),
    }
}

/// A vote by `voter` for candidate `idx` is accepted: the record is open, the
/// voter has not voted, the index is in range and the registry has room.
pub open spec fn can_vote(v: VotingView, voter: AccountId, idx: int) -> bool {
    &&& v.is_active
    &&& !v.voters.contains(voter)
    &&& 0 <= idx < v.candidates.len()
    &&& v.voters.len() < MAX_VOTERS
}

/// The error a rejected vote reports; the checks happen in this order and the
/// first failure wins.
pub open spec fn vote_error(v: VotingView, voter: AccountId, idx: int) -> VotingError {
    if !v.is_active {
        VotingError::VotingClosed
    } else if v.voters.contains(voter) {
        VotingError::AlreadyVoted
    } else if !(0 <= idx < v.candidates.len()) {
        VotingError::InvalidCandidateIndex
    } else {
        VotingError::CapacityExceeded
    }
}

/// The record after an accepted vote: the chosen candidate's counter is one
/// higher and the voter is appended to the registry.
pub open spec fn with_vote(v: VotingView, voter: AccountId, idx: int) -> VotingView {
    VotingView {
        candidates: v.candidates.update(
            idx,
            CandidateView {
                name: v.candidates[idx].name,
                vote_count: (v.candidates[idx].vote_count + 1) as u64,
            },
        ),
        voters: v.voters.push(voter),
        ..v
    }
}

/// A close request by `requester` is accepted: the requester is the
/// administrator and the record is still open.
pub open spec fn can_close(v: VotingView, requester: AccountId) -> bool {
    &&& requester == v.authority
    &&& v.is_active
}

/// The error a rejected close reports; authority is checked first.
pub open spec fn close_error(v: VotingView, requester: AccountId) -> VotingError {
    if requester != v.authority {
        VotingError::Unauthorized
    } else {
        VotingError::AlreadyClosed
    }
}

/// The record after a successful close.
pub open spec fn with_closed(v: VotingView) -> VotingView {
    VotingView { is_active: false, ..v }
}

proof fn lemma_tally_push(s: Seq<CandidateView>, c: CandidateView)
    ensures
        tally_total(s.push(c)) == tally_total(s) + c.vote_count,
{
    assert(s.push(c).drop_last() =~= s);
    assert(s.push(c).last() == c);
}

/// Replacing one roster entry changes the tally sum by the difference of the
/// two counters.
pub proof fn lemma_tally_update(s: Seq<CandidateView>, i: int, c: CandidateView)
    requires
        0 <= i < s.len(),
    ensures
        tally_total(s.update(i, c)) == tally_total(s) - s[i].vote_count + c.vote_count,
    decreases s.len(),
{
    let t = s.update(i, c);
    if i == s.len() - 1 {
        assert(t.drop_last() =~= s.drop_last());
        assert(t.last() == c);
    } else {
        assert(t.drop_last() =~= s.drop_last().update(i, c));
        assert(t.last() == s.last());
        lemma_tally_update(s.drop_last(), i, c);
        assert(s.drop_last()[i] == s[i]);
    }
}

/// No single counter exceeds the tally sum.
pub proof fn lemma_count_le_tally(s: Seq<CandidateView>, i: int)
    requires
        0 <= i < s.len(),
    ensures
        s[i].vote_count <= tally_total(s),
    decreases s.len(),
{
    if i == s.len() - 1 {
        lemma_tally_nonneg(s.drop_last());
    } else {
        lemma_count_le_tally(s.drop_last(), i);
        assert(s.drop_last()[i] == s[i]);
    }
}

pub proof fn lemma_tally_nonneg(s: Seq<CandidateView>)
    ensures
        tally_total(s) >= 0,
    decreases s.len(),
{
    if s.len() > 0 {
        lemma_tally_nonneg(s.drop_last());
    }
}

/// An accepted vote preserves well-formedness.
pub proof fn lemma_with_vote_preserves_wf(s: VotingView, voter: AccountId, idx: int)
    requires
        wf(s),
        can_vote(s, voter, idx),
    ensures
        wf(with_vote(s, voter, idx)),
{
    let t = with_vote(s, voter, idx);
    lemma_count_le_tally(s.candidates, idx);
    lemma_tally_update(s.candidates, idx, t.candidates[idx]);
    assert forall|x: int, y: int|
        0 <= x < t.voters.len() && 0 <= y < t.voters.len() && x != y implies t.voters[x]
        != t.voters[y] by {
        if x < s.voters.len() && y < s.voters.len() {
            assert(s.voters.no_duplicates());
        } else {
            assert(!s.voters.contains(voter));
        }
    }
    assert(t.voters.no_duplicates());
}

/// Whether `voter` already appears in the registry.
fn registry_contains(voters: &Vec<AccountId>, voter: AccountId) -> (b: bool)
    ensures
        b == voters@.contains(voter),
{
    let mut i: usize = 0;
    while i < voters.len()
        invariant
            i <= voters@.len(),
            forall|j: int| 0 <= j < i ==> voters@[j] != voter,
        decreases voters@.len() - i,
    {
        if voters[i] == voter {
            return true;
        }
        i = i + 1;
    }
    false
}

/// Record a vote by `voter` for the candidate at `candidate_index`.
///
/// The checks run in order — record open, voter not yet registered, index in
/// range, registry below capacity — and the first failure rejects the vote
/// with the matching error, mutating nothing. On success the candidate's
/// counter and the voter registry are both updated; no path updates only one
/// of the two.
pub fn cast_vote(
    record: &mut VotingState,
    voter: AccountId,
    candidate_index: u32,
) -> (r: Result<(), VotingError>)
    requires
        wf(old(record)@),
    ensures
        wf(final(record)@),
        r is Ok <==> can_vote(old(record)@, voter, candidate_index as int),
        r is Ok ==> final(record)@ == with_vote(old(record)@, voter, candidate_index as int),
        r matches Err(e) ==> *final(record) == *old(record)
            && e == vote_error(old(record)@, voter, candidate_index as int),
{
    if !record.is_active {
        return Err(VotingError::VotingClosed);
    }
    if registry_contains(&record.voters, voter) {
        return Err(VotingError::AlreadyVoted);
    }
    if !((candidate_index as usize) < record.candidates.len()) {
        return Err(VotingError::InvalidCandidateIndex);
    }
    if !(record.voters.len() < MAX_VOTERS) {
        return Err(VotingError::CapacityExceeded);
    }
    let idx = candidate_index as usize;
    let ghost prior = record@;
    proof {
        lemma_count_le_tally(prior.candidates, idx as int);
        assert(prior.candidates[idx as int] == record.candidates@[idx as int]@);
    }
    let mut cand = record.candidates.remove(idx);
    cand.vote_count = cand.vote_count + 1;
    record.candidates.insert(idx, cand);
    record.voters.push(voter);
    proof {
        let next = with_vote(prior, voter, idx as int);
        assert(record.candidates@ =~= old(record).candidates@.update(idx as int, cand));
        assert forall|j: int| 0 <= j < record.candidates@.len() implies record@.candidates[j]
            == next.candidates[j] by {
            assert(record@.candidates[j] == record.candidates@[j]@);
            assert(prior.candidates[j] == old(record).candidates@[j]@);
        }
        assert(record@.candidates =~= next.candidates);
        assert(record@ =~= next);
        lemma_tally_update(
            prior.candidates,
            idx as int,
            next.candidates[idx as int],
        );
        assert forall|a: int, b: int|
            0 <= a < next.voters.len() && 0 <= b < next.voters.len() && a != b
            implies next.voters[a] != next.voters[b] by {
            if a < prior.voters.len() && b < prior.voters.len() {
                assert(prior.voters.no_duplicates());
            } else if a < prior.voters.len() {
                assert(!prior.voters.contains(voter));
            } else {
                assert(!prior.voters.contains(voter));
            }
        }
        assert(next.voters.no_duplicates());
    }
    Ok(())
}

/// Close voting. Only the administrator may close, and only while the record
/// is still open; a rejected request mutates nothing. A successful close
/// clears the open flag and nothing else; no operation ever sets it again.
pub fn end_voting(record: &mut VotingState, requester: AccountId) -> (r: Result<
    (),
    VotingError,
>)
    requires
        wf(old(record)@),
    ensures
        wf(final(record)@),
        r is Ok <==> can_close(old(record)@, requester),
        r is Ok ==> final(record)@ == with_closed(old(record)@),
        r matches Err(e) ==> *final(record) == *old(record)
            && e == close_error(old(record)@, requester),
{
    if requester != record.authority {
        return Err(VotingError::Unauthorized);
    }
    if !record.is_active {
        return Err(VotingError::AlreadyClosed);
    }
    record.is_active = false;
    proof {
        assert(record@ =~= with_closed(old(record)@));
    }
    Ok(())
}

/// A read-only snapshot of the candidate roster with its current tallies.
/// Open to any reader; the record is not mutated.
pub fn get_results(record: &VotingState) -> (r: Vec<Candidate>)
    ensures
        r@ == record.candidates@,
{
    let mut out: Vec<Candidate> = Vec::new();
    let mut i: usize = 0;
    while i < record.candidates.len()
        invariant
            i <= record.candidates@.len(),
            out@.len() == i,
            forall|j: int| 0 <= j < i ==> out@[j] == record.candidates@[j],
        decreases record.candidates@.len() - i,
    {
        let c = &record.candidates[i];
        out.push(Candidate { name: c.name.clone(), vote_count: c.vote_count });
        i = i + 1;
    }
    proof {
        assert(out@ =~= record.candidates@);
    }
    out
}

/// Set up a new election: a record owned by `authority`, rewarding with
/// `vote_mint`, seeded with `candidates` at zero votes each, open, with an
/// empty voter registry. An over-long roster or an over-long name is rejected
/// whole with `CapacityExceeded`; nothing is truncated.
pub fn initialize(
    authority: AccountId,
    vote_mint: AccountId,
    candidates: Vec<String>,
) -> (r: Result<VotingState, VotingError>)
    ensures
        r is Ok <==> acceptable_roster(candidates.deep_view()),
        r matches Ok(s) ==> s@ == fresh_record(authority, vote_mint, candidates.deep_view())
            && wf(s@),
        r matches Err(e) ==> e == VotingError::CapacityExceeded,
{
    proof {
        assert(candidates.deep_view().len() == candidates@.len());
    }
    if candidates.len() > MAX_CANDIDATES {
        return Err(VotingError::CapacityExceeded);
    }
    let mut roster: Vec<Candidate> = Vec::new();
    let mut i: usize = 0;
    while i < candidates.len()
        invariant
            i <= candidates.len(),
            roster@.len() == i,
            forall|j: int| 0 <= j < i ==> #[trigger] roster@[j]@.name == candidates.deep_view()[j],
            forall|j: int| 0 <= j < i ==> #[trigger] roster@[j]@.vote_count == 0,
            forall|j: int| 0 <= j < i ==> #[trigger] roster@[j]@.name.len() <= MAX_NAME_LEN,
            tally_total(roster@.map(|k: int, c: Candidate| c@)) == 0,
        decreases candidates.len() - i,
    {
        let name = &candidates[i];
        if name.as_str().unicode_len() > MAX_NAME_LEN {
            proof {
                assert(candidates.deep_view()[i as int] == candidates@[i as int]@);
            }
            return Err(VotingError::CapacityExceeded);
        }
        proof {
            assert(candidates.deep_view()[i as int] == candidates@[i as int]@);
        }
        let ghost before = roster@.map(|k: int, c: Candidate| c@);
        let entry = Candidate { name: name.clone(), vote_count: 0 };
        let ghost entry_view = entry@;
        roster.push(entry);
        proof {
            assert(roster@.map(|k: int, c: Candidate| c@) =~= before.push(entry_view));
            lemma_tally_push(before, entry_view);
        }
        i = i + 1;
    }
    let record = VotingState {
        authority,
        is_active: true,
        vote_mint,
        candidates: roster,
        voters: Vec::new(),
    };
    proof {
        let ghost names = candidates.deep_view();
        let ghost fresh = fresh_record(authority, vote_mint, names);
        assert forall|j: int| 0 <= j < names.len() implies #[trigger] names[j].len()
            <= MAX_NAME_LEN by {
            assert(roster@[j]@.name == names[j]);
            assert(roster@[j]@.name.len() <= MAX_NAME_LEN);
        }
        assert(acceptable_roster(names));
        assert forall|j: int| 0 <= j < roster@.len() implies record@.candidates[j]
            == fresh.candidates[j] by {
            assert(record@.candidates[j] == roster@[j]@);
            assert(fresh.candidates[j] == (CandidateView { name: names[j], vote_count: 0 }));
        }
        assert(record@.candidates =~= fresh.candidates);
        assert(record@ =~= fresh);
    }
    Ok(record)
}

/// The storage taken by the candidate entries of the persisted layout: each
/// name is length-prefixed and followed by its counter.
pub open spec fn name_space(names: Seq<Seq<char>>) -> int
    decreases names.len(),
{
    if names.len() == 0 {
        0
    } else {
        name_space(names.drop_last()) + 4 + names.last().len() + 8
    }
}

/// The total persisted size of a record seeded with `names`: discriminator,
/// administrator, open flag, reward token, the length-prefixed candidate
/// array, and a length-prefixed voter array sized for the full registry
/// capacity.
pub open spec fn space_required(names: Seq<Seq<char>>) -> int {
    8 + 32 + 1 + 32 + 4 + name_space(names) + 4 + (MAX_VOTERS as int) * 32
}

proof fn lemma_name_space_bound(names: Seq<Seq<char>>)
    requires
        forall|i: int| 0 <= i < names.len() ==> #[trigger] names[i].len() <= MAX_NAME_LEN,
    ensures
        0 <= name_space(names) <= names.len() * 44,
    decreases names.len(),
{
    if names.len() > 0 {
        lemma_name_space_bound(names.drop_last());
    }
}

impl VotingState {
    /// How many bytes the persisted record needs when seeded with the given
    /// candidate names. Sized from the full, untruncated name lengths;
    /// over-long names never reach storage because [`initialize`] rejects
    /// them.
    pub fn space(candidates: &[String]) -> (r: usize)
        requires
            acceptable_roster(candidates.deep_view()),
        ensures
            r == space_required(candidates.deep_view()),
    {
        let ghost names = candidates.deep_view();
        proof {
            assert(names.len() == candidates@.len());
        }
        let mut entries: usize = 0;
        let mut i: usize = 0;
        while i < candidates.len()
            invariant
                i <= candidates@.len(),
                names == candidates.deep_view(),
                names.len() == candidates@.len(),
                acceptable_roster(names),
                entries == name_space(names.subrange(0, i as int)),
                entries <= 44 * i,
            decreases candidates@.len() - i,
        {
            let ghost prefix = names.subrange(0, i as int);
            proof {
                assert(names[i as int] == candidates@[i as int]@);
                assert(names[i as int].len() <= MAX_NAME_LEN);
                lemma_name_space_bound(prefix);
            }
            let n = candidates[i].as_str().unicode_len();
            entries = entries + 4 + n + 8;
            proof {
                let longer = names.subrange(0, i + 1);
                assert(longer.drop_last() =~= prefix);
                assert(longer.last() == names[i as int]);
            }
            i = i + 1;
        }
        proof {
            assert(names.subrange(0, names.len() as int) =~= names);
        }
        8 + 32 + 1 + 32 + 4 + entries + 4 + MAX_VOTERS * 32
    }
}

} // verus!
