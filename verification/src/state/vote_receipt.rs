use vstd::prelude::*;

verus! {

/// The persisted per-(proposal, voter) vote record.
///
/// Its existence in the store is itself the "already voted" guard: at most
/// one receipt exists per (proposal, voter) key, and a receipt is never
/// mutated or deleted afterward. Under the flat per-credit price of the
/// quadratic policy, `credits_spent == num_votes`.
#[derive(Clone, Copy, Debug, PartialEq, Eq, Structural)]
pub struct VoteReceipt {
    /// Id of the proposal voted on.
    pub proposal: u64,
    /// The casting identity.
    pub voter: u64,
    /// The weight this vote contributed to the tally; at least 1.
    pub num_votes: u64,
    /// Credits debited from the voter's budget for this vote.
    pub credits_spent: u64,
    /// True for a vote in favour, false for a vote against.
    pub vote_for: bool,
    /// Timestamp at which the vote was cast.
    pub voted_at: i64,
}

} // verus!
