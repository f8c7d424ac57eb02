use vstd::prelude::*;

verus! {

/// Typed business errors of the governance engine.
///
/// Every operation either completes in full or returns one of these and
/// leaves the store exactly as it was: there is no partial state change and
/// no transient error class. `Unauthorized` and `InvalidGovernanceMint` are
/// produced at the authentication / balance-oracle boundary that surrounds
/// the engine; the remaining variants are produced by the engine itself.
#[derive(Clone, Copy, Debug, PartialEq, Eq, Structural)]
pub enum GovernanceError {
    /// A governance instance already exists for this admin.
    GovernanceAlreadyInitialized,
    /// Voting period must be greater than zero.
    InvalidVotingPeriod,
    /// Voice credits per voter must be at least 1.
    InvalidCreditAllocation,
    /// Voter is already registered.
    VoterAlreadyRegistered,
    /// Must be a registered voter to create proposals.
    NotRegisteredVoter,
    /// Proposal title hash cannot be the all-zero sentinel.
    EmptyProposalTitle,
    /// Proposal has already been finalized.
    ProposalAlreadyFinalized,
    /// Voting has not started yet.
    VotingNotStarted,
    /// Voting period has ended.
    VotingPeriodEnded,
    /// Must cast at least one vote.
    ZeroVotes,
    /// Insufficient voice credits for the cost of this vote.
    InsufficientCredits,
    /// Voter has already voted on this proposal.
    AlreadyVoted,
    /// Arithmetic overflow in timestamp or tally calculation.
    ArithmeticOverflow,
    /// Voting period has not ended yet.
    VotingPeriodNotEnded,
    /// Signer mismatch.
    Unauthorized,
    /// Token account must be for the governance mint.
    InvalidGovernanceMint,
    /// Description URI too long (max 256 bytes).
    DescriptionUriTooLong,
    /// Invalid vote type (must be 0 or 1).
    InvalidVoteType,
}

} // verus!
