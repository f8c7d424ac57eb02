use crate::state::governance::Governance;
use crate::state::proposal::Proposal;
use crate::state::vote_receipt::VoteReceipt;
use crate::state::voter_record::VoterRecord;
use vstd::prelude::*;

verus! {

/// True when every byte of a title hash is zero: the sentinel that marks an
/// empty title, rejected at proposal creation.
pub open spec fn title_hash_is_zero(h: Seq<u8>) -> bool {
    forall|i: int| 0 <= i < h.len() ==> h[i] == 0
}

/// Sum of the weights of the receipts for proposal `proposal_id` on the
/// side `vote_for`.
pub open spec fn tally_sum(receipts: Seq<VoteReceipt>, proposal_id: u64, vote_for: bool) -> int
    decreases receipts.len(),
{
    if receipts.len() == 0 {
        0
    } else {
        tally_sum(receipts.drop_last(), proposal_id, vote_for) + if receipts.last().proposal
            == proposal_id && receipts.last().vote_for == vote_for {
            receipts.last().num_votes as int
        } else {
            0
        }
    }
}

/// Sum of the weights of all receipts for proposal `proposal_id`, both
/// sides together.
pub open spec fn weight_sum(receipts: Seq<VoteReceipt>, proposal_id: u64) -> int
    decreases receipts.len(),
{
    if receipts.len() == 0 {
        0
    } else {
        weight_sum(receipts.drop_last(), proposal_id) + if receipts.last().proposal
            == proposal_id {
            receipts.last().num_votes as int
        } else {
            0
        }
    }
}

/// Appending one receipt adds its weight to the side it voted on and to no
/// other sum.
pub proof fn lemma_tally_sum_push(
    receipts: Seq<VoteReceipt>,
    r: VoteReceipt,
    proposal_id: u64,
    vote_for: bool,
)
    ensures
        tally_sum(receipts.push(r), proposal_id, vote_for) == tally_sum(
            receipts,
            proposal_id,
            vote_for,
        ) + if r.proposal == proposal_id && r.vote_for == vote_for {
            r.num_votes as int
        } else {
            0
        },
{
    assert(receipts.push(r).drop_last() =~= receipts);
    assert(receipts.push(r).last() == r);
}

/// A proposal no receipt refers to has an empty tally sum on both sides.
pub proof fn lemma_tally_sum_absent(receipts: Seq<VoteReceipt>, proposal_id: u64, vote_for: bool)
    requires
        forall|i: int|
            0 <= i < receipts.len() ==> (#[trigger] receipts[i]).proposal != proposal_id,
    ensures
        tally_sum(receipts, proposal_id, vote_for) == 0,
    decreases receipts.len(),
{
    if receipts.len() > 0 {
        assert(receipts[receipts.len() - 1].proposal != proposal_id);
        assert forall|i: int|
            0 <= i < receipts.drop_last().len() implies (#[trigger] receipts.drop_last()[i]).proposal
            != proposal_id by {
            assert(receipts.drop_last()[i] == receipts[i]);
        }
        lemma_tally_sum_absent(receipts.drop_last(), proposal_id, vote_for);
    }
}

/// A proposal's weight sum splits into the sums of its two sides.
pub proof fn lemma_weight_sum_split(receipts: Seq<VoteReceipt>, proposal_id: u64)
    ensures
        weight_sum(receipts, proposal_id) == tally_sum(receipts, proposal_id, true) + tally_sum(
            receipts,
            proposal_id,
            false,
        ),
    decreases receipts.len(),
{
    if receipts.len() > 0 {
        lemma_weight_sum_split(receipts.drop_last(), proposal_id);
    }
}

/// The record store, modelled explicitly: one optional governance
/// configuration and the key-addressed voter, proposal and receipt records
/// under it. Creation of a record is create-if-absent: the existence checks
/// that guard registration, proposal creation and vote casting are explicit
/// queries against these collections.
#[derive(Debug, PartialEq, Eq)]
pub struct GovernanceStore {
    /// The singleton configuration; absent until initialization.
    pub governance: Option<Governance>,
    /// One record per registered voter identity.
    pub voters: Vec<VoterRecord>,
    /// One record per proposal id drawn from the governance counter.
    pub proposals: Vec<Proposal>,
    /// One receipt per (proposal, voter) pair, append-only.
    pub receipts: Vec<VoteReceipt>,
}

impl GovernanceStore {
    /// Whether the governance configuration exists.
    pub open spec fn spec_is_initialized(self) -> bool {
        self.governance is Some
    }

    /// The governance configuration, once initialized.
    pub open spec fn gov(self) -> Governance
        recommends
            self.spec_is_initialized(),
    {
        self.governance->0
    }

    /// Whether a voter record exists for `voter`.
    pub open spec fn spec_has_voter(self, voter: u64) -> bool {
        exists|i: int| 0 <= i < self.voters@.len() && (#[trigger] self.voters@[i]).voter == voter
    }

    /// Index of the voter record for `voter`.
    pub open spec fn voter_idx(self, voter: u64) -> int
        recommends
            self.spec_has_voter(voter),
    {
        choose|i: int| 0 <= i < self.voters@.len() && (#[trigger] self.voters@[i]).voter == voter
    }

    /// The voter record for `voter`.
    pub open spec fn voter_of(self, voter: u64) -> VoterRecord
        recommends
            self.spec_has_voter(voter),
    {
        self.voters@[self.voter_idx(voter)]
    }

    /// Whether a proposal record exists for `proposal_id`.
    pub open spec fn spec_has_proposal(self, proposal_id: u64) -> bool {
        exists|i: int|
            0 <= i < self.proposals@.len() && (#[trigger] self.proposals@[i]).proposal_id
                == proposal_id
    }

    /// Index of the proposal record for `proposal_id`.
    pub open spec fn proposal_idx(self, proposal_id: u64) -> int
        recommends
            self.spec_has_proposal(proposal_id),
    {
        choose|i: int|
            0 <= i < self.proposals@.len() && (#[trigger] self.proposals@[i]).proposal_id
                == proposal_id
    }

    /// The proposal record for `proposal_id`.
    pub open spec fn proposal_of(self, proposal_id: u64) -> Proposal
        recommends
            self.spec_has_proposal(proposal_id),
    {
        self.proposals@[self.proposal_idx(proposal_id)]
    }

    /// Whether a vote receipt exists for the (proposal, voter) key.
    pub open spec fn spec_has_receipt(self, proposal_id: u64, voter: u64) -> bool {
        exists|i: int|
            0 <= i < self.receipts@.len() && (#[trigger] self.receipts@[i]).proposal == proposal_id
                && self.receipts@[i].voter == voter
    }

    /// Every voter record is bound to the governance instance and keeps the
    /// credit conservation equation.
    pub open spec fn voters_ok(self, g: Governance) -> bool {
        forall|i: int|
            0 <= i < self.voters@.len() ==> {
                let vr = #[trigger] self.voters@[i];
                &&& vr.governance == g.admin
                &&& vr.credits_remaining + vr.credits_spent == g.voice_credits_per_voter
            }
    }

    /// No two voter records share an identity.
    pub open spec fn voters_distinct(self) -> bool {
        forall|i: int, j: int|
            0 <= i < self.voters@.len() && 0 <= j < self.voters@.len() && i != j ==> (
            #[trigger] self.voters@[i]).voter != (#[trigger] self.voters@[j]).voter
    }

    /// Every proposal is bound to the governance instance, its id is below
    /// the counter, its window is exactly one voting period, its title hash
    /// is non-zero, its description fits, and its accumulators equal the
    /// sums of the receipts on each side.
    pub open spec fn proposals_ok(self, g: Governance) -> bool {
        forall|i: int|
            0 <= i < self.proposals@.len() ==> {
                let p = #[trigger] self.proposals@[i];
                &&& p.governance == g.admin
                &&& p.proposal_id < g.proposal_count
                &&& p.start_ts < p.end_ts
                &&& p.end_ts - p.start_ts == g.voting_period
                &&& !title_hash_is_zero(p.title_hash@)
                &&& p.description_uri@.len() <= crate::state::proposal::MAX_DESCRIPTION_URI_LEN
                &&& p.yes_votes == tally_sum(self.receipts@, p.proposal_id, true)
                &&& p.no_votes == tally_sum(self.receipts@, p.proposal_id, false)
            }
    }

    /// No two proposals share an id.
    pub open spec fn proposals_distinct(self) -> bool {
        forall|i: int, j: int|
            0 <= i < self.proposals@.len() && 0 <= j < self.proposals@.len() && i != j ==> (
            #[trigger] self.proposals@[i]).proposal_id != (
            #[trigger] self.proposals@[j]).proposal_id
    }

    /// Every receipt carries a positive weight, spent credits equal to
    /// that weight under the flat per-credit price, and a proposal id that
    /// the counter has already handed out.
    pub open spec fn receipts_ok(self, g: Governance) -> bool {
        forall|i: int|
            0 <= i < self.receipts@.len() ==> {
                let r = #[trigger] self.receipts@[i];
                &&& r.num_votes >= 1
                &&& r.credits_spent == r.num_votes
                &&& r.proposal < g.proposal_count
            }
    }

    /// No two receipts share a (proposal, voter) key.
    pub open spec fn receipts_distinct(self) -> bool {
        forall|i: int, j: int|
            0 <= i < self.receipts@.len() && 0 <= j < self.receipts@.len() && i != j ==> ((
            #[trigger] self.receipts@[i]).proposal != (#[trigger] self.receipts@[j]).proposal
                || self.receipts@[i].voter != self.receipts@[j].voter)
    }

    /// Well-formedness of the store: before initialization it is empty;
    /// afterwards the configuration is valid and every record obeys its
    /// invariants. Every operation of the engine preserves this.
    pub open spec fn wf(self) -> bool {
        match self.governance {
            Option::None => {
                &&& self.voters@.len() == 0
                &&& self.proposals@.len() == 0
                &&& self.receipts@.len() == 0
            },
            Option::Some(g) => {
                &&& g.voice_credits_per_voter >= 1
                &&& g.voting_period > 0
                &&& self.voters_ok(g)
                &&& self.voters_distinct()
                &&& self.proposals_ok(g)
                &&& self.proposals_distinct()
                &&& self.receipts_ok(g)
                &&& self.receipts_distinct()
            },
        }
    }

    /// Looks up the index of the voter record for `voter`, if one exists.
    pub fn find_voter(&self, voter: u64) -> (found: Option<usize>)
        ensures
            found is Some <==> self.spec_has_voter(voter),
            found is Some ==> 0 <= found->0 < self.voters@.len() && self.voters@[found->0 as int].voter
                == voter,
    {
        let mut i: usize = 0;
        while i < self.voters.len()
            invariant
                i <= self.voters@.len(),
                forall|k: int| 0 <= k < i ==> (#[trigger] self.voters@[k]).voter != voter,
            decreases self.voters@.len() - i,
        {
            if self.voters[i].voter == voter {
                return Some(i);
            }
            i += 1;
        }
        None
    }

    /// Looks up the index of the proposal record for `proposal_id`, if one
    /// exists.
    pub fn find_proposal(&self, proposal_id: u64) -> (found: Option<usize>)
        ensures
            found is Some <==> self.spec_has_proposal(proposal_id),
            found is Some ==> 0 <= found->0 < self.proposals@.len() && self.proposals@[found->0 as int].proposal_id
                == proposal_id,
    {
        let mut i: usize = 0;
        while i < self.proposals.len()
            invariant
                i <= self.proposals@.len(),
                forall|k: int| 0 <= k < i ==> (#[trigger] self.proposals@[k]).proposal_id
                    != proposal_id,
            decreases self.proposals@.len() - i,
        {
            if self.proposals[i].proposal_id == proposal_id {
                return Some(i);
            }
            i += 1;
        }
        None
    }

    /// Whether a vote receipt is already persisted for the
    /// (proposal, voter) key: the explicit "already voted" query.
    pub fn has_receipt(&self, proposal_id: u64, voter: u64) -> (present: bool)
        ensures
            present == self.spec_has_receipt(proposal_id, voter),
    {
        let mut i: usize = 0;
        while i < self.receipts.len()
            invariant
                i <= self.receipts@.len(),
                forall|k: int|
                    0 <= k < i ==> !((#[trigger] self.receipts@[k]).proposal == proposal_id
                        && self.receipts@[k].voter == voter),
            decreases self.receipts@.len() - i,
        {
            if self.receipts[i].proposal == proposal_id && self.receipts[i].voter == voter {
                return true;
            }
            i += 1;
        }
        false
    }

    /// Under well-formedness the voter index found by a scan is the unique
    /// one the specification speaks of.
    pub proof fn lemma_voter_idx_unique(self, voter: u64, i: int)
        requires
            self.voters_distinct(),
            0 <= i < self.voters@.len(),
            self.voters@[i].voter == voter,
        ensures
            self.spec_has_voter(voter),
            self.voter_idx(voter) == i,
    {
        assert(self.spec_has_voter(voter));
    }

    /// Under well-formedness the proposal index found by a scan is the
    /// unique one the specification speaks of.
    pub proof fn lemma_proposal_idx_unique(self, proposal_id: u64, i: int)
        requires
            self.proposals_distinct(),
            0 <= i < self.proposals@.len(),
            self.proposals@[i].proposal_id == proposal_id,
        ensures
            self.spec_has_proposal(proposal_id),
            self.proposal_idx(proposal_id) == i,
    {
        assert(self.spec_has_proposal(proposal_id));
    }

    /// Tally conservation: in a well-formed store, a proposal's two
    /// accumulators together equal the summed weights of every receipt
    /// persisted for it — after any sequence of valid operations, since
    /// each operation preserves well-formedness.
    pub proof fn lemma_tally_conservation(self, proposal_id: u64)
        requires
            self.wf(),
            self.spec_is_initialized(),
            self.spec_has_proposal(proposal_id),
        ensures
            self.proposal_of(proposal_id).yes_votes + self.proposal_of(proposal_id).no_votes
                == weight_sum(self.receipts@, proposal_id),
    {
        let i = self.proposal_idx(proposal_id);
        assert(self.proposals_ok(self.gov()));
        assert(self.proposals@[i].yes_votes == tally_sum(self.receipts@, proposal_id, true));
        lemma_weight_sum_split(self.receipts@, proposal_id);
    }

    /// Registration is unique: in a well-formed store at most one voter
    /// record exists per identity.
    pub proof fn lemma_voter_record_unique(self, i: int, j: int)
        requires
            self.wf(),
            self.spec_is_initialized(),
            0 <= i < self.voters@.len(),
            0 <= j < self.voters@.len(),
            self.voters@[i].voter == self.voters@[j].voter,
        ensures
            i == j,
    {
    }

    /// Double-vote prevention: in a well-formed store at most one receipt
    /// exists per (proposal, voter) key.
    pub proof fn lemma_vote_receipt_unique(self, i: int, j: int)
        requires
            self.wf(),
            self.spec_is_initialized(),
            0 <= i < self.receipts@.len(),
            0 <= j < self.receipts@.len(),
            self.receipts@[i].proposal == self.receipts@[j].proposal,
            self.receipts@[i].voter == self.receipts@[j].voter,
        ensures
            i == j,
    {
    }

    /// Every proposal's window spans exactly one voting period:
    /// `end_ts - start_ts == voting_period`.
    pub proof fn lemma_proposal_window_exact(self, i: int)
        requires
            self.wf(),
            self.spec_is_initialized(),
            0 <= i < self.proposals@.len(),
        ensures
            self.proposals@[i].end_ts - self.proposals@[i].start_ts == self.gov().voting_period,
            self.proposals@[i].start_ts < self.proposals@[i].end_ts,
    {
        assert(self.proposals_ok(self.gov()));
    }

    /// An empty, uninitialized store.
    pub fn new() -> (store: GovernanceStore)
        ensures
            store.wf(),
            !store.spec_is_initialized(),
            store.voters@.len() == 0,
            store.proposals@.len() == 0,
            store.receipts@.len() == 0,
    {
        GovernanceStore {
            governance: Option::None,
            voters: Vec::new(),
            proposals: Vec::new(),
            receipts: Vec::new(),
        }
    }
}

} // verus!
