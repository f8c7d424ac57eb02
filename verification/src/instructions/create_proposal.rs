use crate::error::GovernanceError;
use crate::state::governance::Governance;
use crate::state::proposal::Proposal;
use crate::state::proposal::MAX_DESCRIPTION_URI_LEN;
use crate::state::store::lemma_tally_sum_absent;
use crate::state::store::title_hash_is_zero;
use crate::state::store::GovernanceStore;
use vstd::prelude::*;

verus! {

/// True exactly when every byte of the hash is zero.
fn title_hash_empty(title_hash: &[u8; 32]) -> (empty: bool)
    ensures
        empty == title_hash_is_zero(title_hash@),
{
    let mut i: usize = 0;
    while i < 32
        invariant
            i <= 32,
            forall|k: int| 0 <= k < i ==> title_hash@[k] == 0,
        decreases 32 - i,
    {
        if title_hash[i] != 0 {
            assert(!title_hash_is_zero(title_hash@)) by {
                assert(title_hash@[i as int] != 0);
            }
            return false;
        }
        i += 1;
    }
    true
}

/// Exactly what proposal creation does: an unregistered proposer, an
/// all-zero title hash, an over-long description, a window end past the
/// timestamp range or an exhausted id counter each fail with their error
/// and leave the store untouched; otherwise the counter advances by one and
/// exactly one new proposal appears, carrying the freshly drawn id, a zero
/// tally on both sides and the window `[now, now + voting_period)`.
pub open spec fn create_proposal_post(
    pre: GovernanceStore,
    post: GovernanceStore,
    proposer: u64,
    title_hash: [u8; 32],
    description_uri: Seq<u8>,
    now: i64,
    r: Result<u64, GovernanceError>,
) -> bool {
    let g = pre.gov();
    if !pre.spec_has_voter(proposer) {
        r == Err::<u64, GovernanceError>(GovernanceError::NotRegisteredVoter) && post == pre
    } else if title_hash_is_zero(title_hash@) {
        r == Err::<u64, GovernanceError>(GovernanceError::EmptyProposalTitle) && post == pre
    } else if description_uri.len() > MAX_DESCRIPTION_URI_LEN {
        r == Err::<u64, GovernanceError>(GovernanceError::DescriptionUriTooLong) && post == pre
    } else if now + g.voting_period > i64::MAX || g.proposal_count == u64::MAX {
        r == Err::<u64, GovernanceError>(GovernanceError::ArithmeticOverflow) && post == pre
    } else {
        &&& r == Ok::<u64, GovernanceError>(g.proposal_count)
        &&& post.governance == Some(
            Governance { proposal_count: (g.proposal_count + 1) as u64, ..g },
        )
        &&& post.voters == pre.voters
        &&& post.receipts == pre.receipts
        &&& post.proposals@.len() == pre.proposals@.len() + 1
        &&& post.proposals@.drop_last() == pre.proposals@
        &&& {
            let p = post.proposals@.last();
            &&& p.governance == g.admin
            &&& p.proposal_id == g.proposal_count
            &&& p.proposer == proposer
            &&& p.title_hash == title_hash
            &&& p.description_uri@ == description_uri
            &&& p.yes_votes == 0
            &&& p.no_votes == 0
            &&& p.start_ts == now
            &&& p.end_ts == now + g.voting_period
            &&& p.finalized == false
        }
    }
}

/// Creates a proposal under the governance instance.
///
/// The proposer must be a registered voter. The title hash must not be the
/// all-zero sentinel and the description must fit in 256 bytes. The voting
/// window starts at `now` and ends exactly one voting period later,
/// computed with overflow-checked addition; the proposal id is drawn from
/// the governance counter, which no two proposals ever share.
pub fn handler(
    store: &mut GovernanceStore,
    proposer: u64,
    title_hash: [u8; 32],
    description_uri: Vec<u8>,
    now: i64,
) -> (r: Result<u64, GovernanceError>)
    requires
        old(store).wf(),
        old(store).spec_is_initialized(),
    ensures
        final(store).wf(),
        create_proposal_post(
            *old(store),
            *final(store),
            proposer,
            title_hash,
            description_uri@,
            now,
            r,
        ),
{
    if store.find_voter(proposer).is_none() {
        return Err(GovernanceError::NotRegisteredVoter);
    }
    if title_hash_empty(&title_hash) {
        return Err(GovernanceError::EmptyProposalTitle);
    }
    if description_uri.len() > MAX_DESCRIPTION_URI_LEN {
        return Err(GovernanceError::DescriptionUriTooLong);
    }
    let g = store.governance.unwrap();
    let end_ts = match now.checked_add(g.voting_period) {
        Some(end) => end,
        None => {
            return Err(GovernanceError::ArithmeticOverflow);
        },
    };
    if g.proposal_count == u64::MAX {
        return Err(GovernanceError::ArithmeticOverflow);
    }
    let mut advanced = g;
    let proposal_id = advanced.next_proposal_id();
    store.governance = Some(advanced);
    let proposal = Proposal {
        governance: g.admin,
        proposal_id,
        proposer,
        title_hash,
        description_uri,
        yes_votes: 0,
        no_votes: 0,
        start_ts: now,
        end_ts,
        finalized: false,
    };
    store.proposals.push(proposal);
    proof {
        let pre = *old(store);
        let gpre = pre.gov();
        let s = *store;
        assert(s.proposals@.drop_last() =~= pre.proposals@);
        assert forall|i: int|
            0 <= i < s.receipts@.len() implies (#[trigger] s.receipts@[i]).proposal
            != proposal_id by {
            assert(pre.receipts_ok(gpre));
        }
        lemma_tally_sum_absent(s.receipts@, proposal_id, true);
        lemma_tally_sum_absent(s.receipts@, proposal_id, false);
        assert(s.proposals_ok(s.gov())) by {
            assert forall|i: int| 0 <= i < s.proposals@.len() implies {
                let p = #[trigger] s.proposals@[i];
                &&& p.governance == s.gov().admin
                &&& p.proposal_id < s.gov().proposal_count
                &&& p.start_ts < p.end_ts
                &&& p.end_ts - p.start_ts == s.gov().voting_period
                &&& !title_hash_is_zero(p.title_hash@)
                &&& p.description_uri@.len() <= 256
                &&& p.yes_votes == crate::state::store::tally_sum(s.receipts@, p.proposal_id, true)
                &&& p.no_votes == crate::state::store::tally_sum(s.receipts@, p.proposal_id, false)
            } by {
                if i < pre.proposals@.len() {
                    assert(s.proposals@[i] == pre.proposals@[i]);
                }
            }
        }
    }
    Ok(proposal_id)
}

} // verus!
