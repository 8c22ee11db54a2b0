use voting::errors::VotingError;
use voting::ids::AccountId;
use voting::state::{cast_vote, end_voting, get_results, initialize, VotingState};

fn admin() -> AccountId {
    AccountId::new(1)
}

fn mint() -> AccountId {
    AccountId::new(2)
}

fn two_candidate_record() -> VotingState {
    let names = vec!["Alice".to_string(), "Bob".to_string()];
    initialize(admin(), mint(), names).unwrap()
}

fn tallies(record: &VotingState) -> Vec<u64> {
    get_results(record).iter().map(|c| c.vote_count).collect()
}

#[test]
fn initialize_seeds_an_open_record() {
    let record = two_candidate_record();
    assert!(record.is_active);
    assert_eq!(record.authority, admin());
    assert_eq!(record.vote_mint, mint());
    assert_eq!(record.candidates.len(), 2);
    assert_eq!(record.candidates[0].name, "Alice");
    assert_eq!(record.candidates[0].vote_count, 0);
    assert_eq!(record.candidates[1].name, "Bob");
    assert_eq!(record.candidates[1].vote_count, 0);
    assert_eq!(record.voters.len(), 0);
}

#[test]
fn initialize_rejects_an_oversized_roster() {
    let names: Vec<String> = (0..101).map(|i| format!("c{}", i)).collect();
    let r = initialize(admin(), mint(), names);
    assert_eq!(r.err().unwrap(), VotingError::CapacityExceeded);
}

#[test]
fn initialize_accepts_a_full_roster() {
    let names: Vec<String> = (0..100).map(|i| format!("c{}", i)).collect();
    let record = initialize(admin(), mint(), names).unwrap();
    assert_eq!(record.candidates.len(), 100);
}

#[test]
fn initialize_rejects_an_oversized_name_rather_than_truncate() {
    let names = vec!["a".repeat(33)];
    let r = initialize(admin(), mint(), names);
    assert_eq!(r.err().unwrap(), VotingError::CapacityExceeded);
    let names = vec!["a".repeat(32)];
    let record = initialize(admin(), mint(), names).unwrap();
    assert_eq!(record.candidates[0].name.len(), 32);
}

#[test]
fn one_election_end_to_end() {
    let mut record = two_candidate_record();
    let v1 = AccountId::new(10);
    let v2 = AccountId::new(11);

    assert!(cast_vote(&mut record, v1, 0).is_ok());
    assert_eq!(tallies(&record), vec![1, 0]);
    assert_eq!(record.voters, vec![v1]);

    assert_eq!(cast_vote(&mut record, v1, 1).err().unwrap(), VotingError::AlreadyVoted);
    assert_eq!(tallies(&record), vec![1, 0]);

    assert_eq!(
        cast_vote(&mut record, v2, 5).err().unwrap(),
        VotingError::InvalidCandidateIndex
    );
    assert_eq!(tallies(&record), vec![1, 0]);

    assert!(end_voting(&mut record, admin()).is_ok());
    assert!(!record.is_active);

    assert_eq!(cast_vote(&mut record, v2, 1).err().unwrap(), VotingError::VotingClosed);
    assert_eq!(tallies(&record), vec![1, 0]);
    assert_eq!(record.voters, vec![v1]);
}

#[test]
fn a_repeat_voter_is_rejected_whatever_the_index() {
    let mut record = two_candidate_record();
    let v1 = AccountId::new(10);
    assert!(cast_vote(&mut record, v1, 1).is_ok());
    for index in [0u32, 1, 99] {
        assert_eq!(cast_vote(&mut record, v1, index).err().unwrap(), VotingError::AlreadyVoted);
        assert_eq!(tallies(&record), vec![0, 1]);
        assert_eq!(record.voters.len(), 1);
    }
}

#[test]
fn an_out_of_range_index_mutates_nothing() {
    let mut record = two_candidate_record();
    for index in [2u32, 3, 1_000_000] {
        assert_eq!(
            cast_vote(&mut record, AccountId::new(10), index).err().unwrap(),
            VotingError::InvalidCandidateIndex
        );
        assert_eq!(tallies(&record), vec![0, 0]);
        assert_eq!(record.voters.len(), 0);
        assert!(record.is_active);
    }
}

#[test]
fn only_the_administrator_may_close() {
    let mut record = two_candidate_record();
    assert_eq!(
        end_voting(&mut record, AccountId::new(99)).err().unwrap(),
        VotingError::Unauthorized
    );
    assert!(record.is_active);
    assert!(end_voting(&mut record, admin()).is_ok());
    assert!(!record.is_active);
}

#[test]
fn a_closed_record_stays_closed() {
    let mut record = two_candidate_record();
    assert!(end_voting(&mut record, admin()).is_ok());
    assert_eq!(end_voting(&mut record, admin()).err().unwrap(), VotingError::AlreadyClosed);
    assert!(!record.is_active);
    assert_eq!(
        cast_vote(&mut record, AccountId::new(10), 0).err().unwrap(),
        VotingError::VotingClosed
    );
    // a non-administrator still fails on the authority check first
    assert_eq!(
        end_voting(&mut record, AccountId::new(99)).err().unwrap(),
        VotingError::Unauthorized
    );
}

#[test]
fn the_registry_is_capped() {
    let mut record = initialize(admin(), mint(), vec!["only".to_string()]).unwrap();
    for i in 0..200u64 {
        assert!(cast_vote(&mut record, AccountId::new(1000 + i), 0).is_ok());
    }
    assert_eq!(tallies(&record), vec![200]);
    assert_eq!(record.voters.len(), 200);
    assert_eq!(
        cast_vote(&mut record, AccountId::new(5000), 0).err().unwrap(),
        VotingError::CapacityExceeded
    );
    assert_eq!(tallies(&record), vec![200]);
}

#[test]
fn tallies_sum_to_the_number_of_accepted_voters() {
    let names = vec!["a".to_string(), "b".to_string(), "c".to_string()];
    let mut record = initialize(admin(), mint(), names).unwrap();
    let mut accepted = 0u64;
    for (i, index) in [0u32, 1, 1, 2, 7, 0].iter().enumerate() {
        if cast_vote(&mut record, AccountId::new(100 + i as u64), *index).is_ok() {
            accepted += 1;
        }
    }
    // the vote for index 7 was rejected
    assert_eq!(accepted, 5);
    let total: u64 = tallies(&record).iter().sum();
    assert_eq!(total, accepted);
    assert_eq!(record.voters.len() as u64, accepted);
}

#[test]
fn get_results_is_a_snapshot() {
    let mut record = two_candidate_record();
    assert!(cast_vote(&mut record, AccountId::new(10), 0).is_ok());
    let before_names: Vec<String> =
        record.candidates.iter().map(|c| c.name.clone()).collect();
    let results = get_results(&record);
    assert_eq!(results.len(), 2);
    assert_eq!(results[0].name, "Alice");
    assert_eq!(results[0].vote_count, 1);
    assert_eq!(results[1].name, "Bob");
    assert_eq!(results[1].vote_count, 0);
    // the record itself is untouched
    let after_names: Vec<String> = record.candidates.iter().map(|c| c.name.clone()).collect();
    assert_eq!(before_names, after_names);
    assert!(record.is_active);
}

#[test]
fn space_counts_the_persisted_layout() {
    let names = vec!["Alice".to_string(), "Bob".to_string()];
    // 8 + 32 + 1 + 32 + 4 + ((4+5+8) + (4+3+8)) + 4 + 200*32
    assert_eq!(VotingState::space(&names), 6513);
    let empty: Vec<String> = Vec::new();
    assert_eq!(VotingState::space(&empty), 6481);
}

#[test]
fn every_error_has_its_message() {
    assert_eq!(VotingError::VotingClosed.message(), "Voting has already closed");
    assert_eq!(VotingError::AlreadyVoted.message(), "Voter has already voted");
    assert_eq!(VotingError::InvalidCandidateIndex.message(), "Invalid candidate index");
    assert_eq!(VotingError::Unauthorized.message(), "Unauthorized operation");
    assert_eq!(VotingError::AlreadyClosed.message(), "Voting has already been closed");
    assert_eq!(VotingError::CapacityExceeded.message(), "Capacity exceeded");
    assert_eq!(VotingError::ExternalCallFailed.message(), "External call failed");
}
