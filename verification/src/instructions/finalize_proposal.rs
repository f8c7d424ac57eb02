use crate::error::GovernanceError;
use crate::state::proposal::Outcome;
use crate::state::proposal::Proposal;
use crate::state::store::GovernanceStore;
use vstd::prelude::*;

verus! {

/// The proposal with its finalization flag set; every other field is kept.
pub open spec fn sealed_proposal(p: Proposal) -> Proposal {
    Proposal { finalized: true, ..p }
}

/// Exactly what finalization does: an already finalized proposal fails
/// with `ProposalAlreadyFinalized`, one whose window has not yet ended
/// fails with `VotingPeriodNotEnded`, both leaving the store untouched;
/// otherwise the proposal — and nothing else — is irreversibly sealed and
/// the outcome derived from its net tally is returned.
pub open spec fn finalize_post(
    pre: GovernanceStore,
    post: GovernanceStore,
    proposal_id: u64,
    now: i64,
    r: Result<Outcome, GovernanceError>,
) -> bool {
    let p = pre.proposal_of(proposal_id);
    if p.finalized {
        r == Err::<Outcome, GovernanceError>(GovernanceError::ProposalAlreadyFinalized) && post
            == pre
    } else if !p.spec_voting_ended(now) {
        r == Err::<Outcome, GovernanceError>(GovernanceError::VotingPeriodNotEnded) && post == pre
    } else {
        &&& r == Ok::<Outcome, GovernanceError>(p.spec_outcome())
        &&& post.governance == pre.governance
        &&& post.voters == pre.voters
        &&& post.receipts == pre.receipts
        &&& post.proposals@ == pre.proposals@.update(
            pre.proposal_idx(proposal_id),
            sealed_proposal(p),
        )
    }
}

/// Finalizes a proposal whose voting window has ended.
///
/// Sealing is irreversible and happens exactly once; afterwards no vote can
/// land on the proposal. The outcome is derived from the net tally in
/// signed arithmetic wide enough never to overflow: positive passes,
/// negative rejects, zero ties.
pub fn handler(store: &mut GovernanceStore, proposal_id: u64, now: i64) -> (r: Result<
    Outcome,
    GovernanceError,
>)
    requires
        old(store).wf(),
        old(store).spec_is_initialized(),
        old(store).spec_has_proposal(proposal_id),
    ensures
        final(store).wf(),
        finalize_post(*old(store), *final(store), proposal_id, now, r),
{
    let pidx = store.find_proposal(proposal_id).unwrap();
    proof {
        old(store).lemma_proposal_idx_unique(proposal_id, pidx as int);
    }
    if store.proposals[pidx].finalized {
        return Err(GovernanceError::ProposalAlreadyFinalized);
    }
    if !store.proposals[pidx].is_voting_ended(now) {
        return Err(GovernanceError::VotingPeriodNotEnded);
    }
    let net = store.proposals[pidx].net_votes();
    store.proposals[pidx].finalized = true;
    proof {
        let pre = *old(store);
        let g = pre.gov();
        let s = *store;
        let pi = pidx as int;
        let p = pre.proposals@[pi];
        assert(s.proposals@ == pre.proposals@.update(pi, sealed_proposal(p)));
        assert(s.gov() == g);
        assert(s.proposals_distinct()) by {
            assert forall|i: int|
                0 <= i < s.proposals@.len() implies (#[trigger] s.proposals@[i]).proposal_id
                == pre.proposals@[i].proposal_id by {}
        }
        assert(s.proposals_ok(g)) by {
            assert forall|i: int| 0 <= i < s.proposals@.len() implies {
                let q = #[trigger] s.proposals@[i];
                &&& q.governance == g.admin
                &&& q.proposal_id < g.proposal_count
                &&& q.start_ts < q.end_ts
                &&& q.end_ts - q.start_ts == g.voting_period
                &&& !crate::state::store::title_hash_is_zero(q.title_hash@)
                &&& q.description_uri@.len() <= 256
                &&& q.yes_votes == crate::state::store::tally_sum(s.receipts@, q.proposal_id, true)
                &&& q.no_votes == crate::state::store::tally_sum(s.receipts@, q.proposal_id, false)
            } by {
                if i != pi {
                    assert(s.proposals@[i] == pre.proposals@[i]);
                }
            }
        }
    }
    if net > 0 {
        Ok(Outcome::Passed)
    } else if net < 0 {
        Ok(Outcome::Rejected)
    } else {
        Ok(Outcome::Tied)
    }
}

} // verus!
