use vstd::prelude::*;

verus! {

/// The vote record handed back by a successful cast.
///
/// `voting_credits` is the weight the vote contributed to the tally; it is
/// derived by the engine from the voter's token balance, never supplied by
/// the voter. The record is immutable once created.
#[derive(Clone, Copy, Debug, PartialEq, Eq, Structural)]
pub struct Vote {
    /// The casting identity.
    pub authority: u64,
    /// Binary choice: 0 is against, 1 is for.
    pub vote_type: u8,
    /// The weight this vote contributed.
    pub voting_credits: u64,
}

} // verus!
