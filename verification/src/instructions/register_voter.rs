use crate::error::GovernanceError;
use crate::state::store::GovernanceStore;
use crate::state::voter_record::VoterRecord;
use vstd::prelude::*;

verus! {

/// Exactly what registration does: if a record already exists for the
/// voter it fails with `VoterAlreadyRegistered` and the store is untouched;
/// otherwise exactly one new record appears, granting the full credit
/// allocation with nothing spent.
pub open spec fn register_post(
    pre: GovernanceStore,
    post: GovernanceStore,
    voter: u64,
    r: Result<(), GovernanceError>,
) -> bool {
    if pre.spec_has_voter(voter) {
        r == Err::<(), GovernanceError>(GovernanceError::VoterAlreadyRegistered) && post == pre
    } else {
        &&& r == Ok::<(), GovernanceError>(())
        &&& post.governance == pre.governance
        &&& post.voters@ == pre.voters@.push(
            VoterRecord {
                governance: pre.gov().admin,
                voter,
                credits_remaining: pre.gov().voice_credits_per_voter,
                credits_spent: 0,
                proposals_voted_on: 0,
            },
        )
        &&& post.proposals == pre.proposals
        &&& post.receipts == pre.receipts
    }
}

/// Registers a voter with the governance instance.
///
/// Registration is permanent and happens at most once per identity: a
/// second call for the same voter fails with `VoterAlreadyRegistered`. On
/// success the voter's record holds the full credit allocation as remaining
/// credits and zero spent.
pub fn handler(store: &mut GovernanceStore, voter: u64) -> (r: Result<(), GovernanceError>)
    requires
        old(store).wf(),
        old(store).spec_is_initialized(),
    ensures
        final(store).wf(),
        register_post(*old(store), *final(store), voter, r),
{
    if store.find_voter(voter).is_some() {
        return Err(GovernanceError::VoterAlreadyRegistered);
    }
    let g = store.governance.unwrap();
    let record = VoterRecord {
        governance: g.admin,
        voter,
        credits_remaining: g.voice_credits_per_voter,
        credits_spent: 0,
        proposals_voted_on: 0,
    };
    store.voters.push(record);
    Ok(())
}

} // verus!
