use crate::error::GovernanceError;
use crate::state::governance::Governance;
use crate::state::store::GovernanceStore;
use vstd::prelude::*;

verus! {

/// Exactly what initialization does: rejects a zero credit allocation, a
/// non-positive voting period, and a store that already holds a
/// configuration, each leaving the store untouched; otherwise persists the
/// new configuration with a zero proposal counter and touches nothing else.
pub open spec fn initialize_post(
    pre: GovernanceStore,
    post: GovernanceStore,
    admin: u64,
    voice_credits_per_voter: u64,
    voting_period: i64,
    r: Result<(), GovernanceError>,
) -> bool {
    if voice_credits_per_voter == 0 {
        r == Err::<(), GovernanceError>(GovernanceError::InvalidCreditAllocation) && post == pre
    } else if voting_period <= 0 {
        r == Err::<(), GovernanceError>(GovernanceError::InvalidVotingPeriod) && post == pre
    } else if pre.spec_is_initialized() {
        r == Err::<(), GovernanceError>(GovernanceError::GovernanceAlreadyInitialized) && post
            == pre
    } else {
        &&& r == Ok::<(), GovernanceError>(())
        &&& post.governance == Some(
            Governance { admin, voice_credits_per_voter, voting_period, proposal_count: 0 },
        )
        &&& post.voters == pre.voters
        &&& post.proposals == pre.proposals
        &&& post.receipts == pre.receipts
    }
}

/// Creates the singleton governance configuration.
///
/// Succeeds exactly once: a second call finds the configuration present and
/// fails with `GovernanceAlreadyInitialized`. The credit allocation must be
/// at least 1 and the voting period positive.
pub fn handler(
    store: &mut GovernanceStore,
    admin: u64,
    voice_credits_per_voter: u64,
    voting_period: i64,
) -> (r: Result<(), GovernanceError>)
    requires
        old(store).wf(),
    ensures
        final(store).wf(),
        initialize_post(*old(store), *final(store), admin, voice_credits_per_voter, voting_period, r),
{
    if voice_credits_per_voter == 0 {
        return Err(GovernanceError::InvalidCreditAllocation);
    }
    if voting_period <= 0 {
        return Err(GovernanceError::InvalidVotingPeriod);
    }
    if store.governance.is_some() {
        return Err(GovernanceError::GovernanceAlreadyInitialized);
    }
    store.governance = Some(
        Governance { admin, voice_credits_per_voter, voting_period, proposal_count: 0 },
    );
    Ok(())
}

} // verus!
