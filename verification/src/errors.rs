//! The error taxonomy of the voting system.

use vstd::prelude::*;

verus! {

/// Every way an operation on a voting record can be rejected. All errors are
/// terminal for the enclosing operation: no function partially applies a
/// mutation and then fails.
#[derive(Clone, Copy, Debug, PartialEq, Eq, Structural)]
pub enum VotingError {
    /// A vote arrived after voting was closed.
    VotingClosed,
    /// The voter is already in the registry.
    AlreadyVoted,
    /// The candidate index is not below the candidate count.
    InvalidCandidateIndex,
    /// Someone other than the administrator tried to close voting.
    Unauthorized,
    /// Voting was asked to close a second time.
    AlreadyClosed,
    /// A bounded container (candidate roster, voter registry, name) would
    /// exceed its fixed capacity.
    CapacityExceeded,
    /// The reward mint or the pool deposit reported failure.
    ExternalCallFailed,
}

impl VotingError {
    /// The stable human-readable message for this error kind.
    pub open spec fn message_spec(self) -> Seq<char> {
        match self {
            VotingError::VotingClosed => "Voting has already closed"@,
            VotingError::AlreadyVoted => "Voter has already voted"@,
            VotingError::InvalidCandidateIndex => "Invalid candidate index"@,
            VotingError::Unauthorized => "Unauthorized operation"@,
            VotingError::AlreadyClosed => "Voting has already been closed"@,
            VotingError::CapacityExceeded => "Capacity exceeded"@,
            VotingError::ExternalCallFailed => "External call failed"@,
        }
    }

    pub fn message(&self) -> (r: &'static str)
        ensures
            r@ == self.message_spec(),
    {
        match self {
            VotingError::VotingClosed => "Voting has already closed",
            VotingError::AlreadyVoted => "Voter has already voted",
            VotingError::InvalidCandidateIndex => "Invalid candidate index",
            VotingError::Unauthorized => "Unauthorized operation",
            VotingError::AlreadyClosed => "Voting has already been closed",
            VotingError::CapacityExceeded => "Capacity exceeded",
            VotingError::ExternalCallFailed => "External call failed",
        }
    }
}

} // verus!
