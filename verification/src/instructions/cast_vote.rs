use crate::error::GovernanceError;
use crate::state::proposal::Proposal;
use crate::state::store::lemma_tally_sum_push;
use crate::state::store::GovernanceStore;
use crate::state::vote::Vote;
use crate::state::vote_receipt::VoteReceipt;
use crate::state::voter_record::VoterRecord;
use vstd::arithmetic::div_mod::lemma_div_is_ordered;
use vstd::arithmetic::div_mod::lemma_fundamental_div_mod;
use vstd::arithmetic::div_mod::lemma_mod_bound;
use vstd::prelude::*;

verus! {

/// `root` is the integer square root of `n`: the unique integer whose
/// square is at most `n` while the next square is beyond it.
pub open spec fn is_isqrt(n: int, root: int) -> bool {
    &&& 0 <= root
    &&& root * root <= n
    &&& n < (root + 1) * (root + 1)
}

/// The integer square root, defined by counting up: the root grows by one
/// exactly when the next square fits under `n`.
pub open spec fn isqrt_spec(n: nat) -> nat
    decreases n,
{
    if n == 0 {
        0
    } else {
        let below = isqrt_spec((n - 1) as nat);
        if (below + 1) * (below + 1) <= n {
            (below + 1) as nat
        } else {
            below
        }
    }
}

/// `isqrt_spec(n)` satisfies the integer-square-root characterization.
pub proof fn lemma_isqrt_spec_is_isqrt(n: nat)
    ensures
        is_isqrt(n as int, isqrt_spec(n) as int),
    decreases n,
{
    if n > 0 {
        lemma_isqrt_spec_is_isqrt((n - 1) as nat);
        let below = isqrt_spec((n - 1) as nat) as int;
        assert((below + 1) * (below + 1) < (below + 2) * (below + 2)) by (nonlinear_arith)
            requires
                below >= 0,
        ;
    }
}

/// The integer square root is unique: any integer satisfying the
/// characterization for `n` equals `isqrt_spec(n)`. Together with
/// `lemma_isqrt_spec_is_isqrt` this says `isqrt_spec(n)` is the one and
/// only integer `x` with `x * x <= n < (x + 1) * (x + 1)`.
pub proof fn lemma_isqrt_unique(n: int, root: int)
    requires
        is_isqrt(n, root),
    ensures
        n >= 0,
        root == isqrt_spec(n as nat) as int,
{
    assert(root * root >= 0) by (nonlinear_arith)
        requires
            root >= 0,
    ;
    lemma_isqrt_spec_is_isqrt(n as nat);
    let s = isqrt_spec(n as nat) as int;
    if root < s {
        assert((root + 1) * (root + 1) <= s * s) by (nonlinear_arith)
            requires
                0 <= root,
                root + 1 <= s,
        ;
        assert(false);
    }
    if s < root {
        assert((s + 1) * (s + 1) <= root * root) by (nonlinear_arith)
            requires
                0 <= s,
                s + 1 <= root,
        ;
        assert(false);
    }
}

/// Integer square root by Newton's method, exact for every 64-bit input
/// with no floating-point involved: from a seed of half the input the
/// iterate `(x + n / x) / 2` descends to the root in logarithmically many
/// steps.
pub fn isqrt(n: u64) -> (root: u64)
    ensures
        root == isqrt_spec(n as nat),
        is_isqrt(n as int, root as int),
{
    proof {
        lemma_isqrt_spec_is_isqrt(n as nat);
    }
    let ghost s: int = isqrt_spec(n as nat) as int;
    if n == 0 {
        return 0;
    }
    proof {
        assert(s >= 1) by (nonlinear_arith)
            requires
                n as int >= 1,
                s >= 0,
                (n as int) < (s + 1) * (s + 1),
        ;
        assert(s <= s * s) by (nonlinear_arith)
            requires
                s >= 1,
        ;
        lemma_mod_bound(n as int, 2);
        lemma_fundamental_div_mod(n as int, 2);
        if s >= 2 {
            assert(2 * s <= s * s) by (nonlinear_arith)
                requires
                    s >= 2,
            ;
            lemma_div_is_ordered(2 * s, n as int, 2);
            assert((2 * s) / 2 == s);
        }
    }
    let mut x: u64 = n;
    let mut y: u64 = n / 2 + n % 2;
    while y < x
        invariant
            1 <= n,
            s == isqrt_spec(n as nat),
            is_isqrt(n as int, s),
            1 <= s <= x <= n,
            s <= y <= n as int / 2 + 1,
            y >= x ==> x * x <= n,
        decreases x,
    {
        x = y;
        let q = n / x;
        proof {
            let xi = x as int;
            let ni = n as int;
            let qi = ni / xi;
            let ri = ni % xi;
            lemma_fundamental_div_mod(ni, xi);
            lemma_mod_bound(ni, xi);
            assert(s <= 0xFFFF_FFFF) by (nonlinear_arith)
                requires
                    0 <= s,
                    s * s <= 0xFFFF_FFFF_FFFF_FFFF,
            ;
            assert(qi <= s + 2) by (nonlinear_arith)
                requires
                    ni == xi * qi + ri,
                    0 <= ri < xi,
                    xi >= s,
                    s >= 1,
                    ni < (s + 1) * (s + 1),
            ;
            lemma_div_is_ordered(ni, u64::MAX as int, 2);
        }
        let sum = x + q;
        y = sum / 2;
        proof {
            let xi = x as int;
            let ni = n as int;
            let qi = ni / xi;
            let ri = ni % xi;
            lemma_fundamental_div_mod(ni, xi);
            lemma_mod_bound(ni, xi);
            lemma_fundamental_div_mod(ni, 2);
            lemma_mod_bound(ni, 2);
            assert(xi <= ni);
            assert(qi >= 1) by (nonlinear_arith)
                requires
                    ni == xi * qi + ri,
                    0 <= ri < xi,
                    1 <= xi <= ni,
            ;
            assert(xi + qi >= 2 * s) by (nonlinear_arith)
                requires
                    ni == xi * qi + ri,
                    0 <= ri < xi,
                    s * s <= ni,
                    xi >= 1,
                    s >= 0,
            ;
            lemma_div_is_ordered(2 * s, xi + qi, 2);
            assert((2 * s) / 2 == s);
            assert(xi + qi <= ni + 1) by (nonlinear_arith)
                requires
                    ni == xi * qi + ri,
                    0 <= ri,
                    xi >= 1,
                    qi >= 1,
            ;
            lemma_div_is_ordered(xi + qi, ni + 1, 2);
            lemma_fundamental_div_mod(ni + 1, 2);
            lemma_mod_bound(ni + 1, 2);
            assert((ni + 1) / 2 <= ni / 2 + 1);
            if (xi + qi) / 2 >= xi {
                lemma_fundamental_div_mod(xi + qi, 2);
                lemma_mod_bound(xi + qi, 2);
                assert(qi >= xi);
                assert(xi * xi <= ni) by (nonlinear_arith)
                    requires
                        ni == xi * qi + ri,
                        0 <= ri,
                        qi >= xi,
                        xi >= 0,
                ;
            }
        }
    }
    proof {
        if x > s {
            assert((s + 1) * (s + 1) <= x * x) by (nonlinear_arith)
                requires
                    0 <= s,
                    s + 1 <= x as int,
            ;
            assert(false);
        }
    }
    x
}

/// The voter record after a successful debit of `weight` credits: the
/// weight moves from remaining to spent and one more proposal is counted.
pub open spec fn spent_record(vr: VoterRecord, weight: u64) -> VoterRecord {
    VoterRecord {
        credits_remaining: (vr.credits_remaining - weight) as u64,
        credits_spent: vr.credits_spent.saturating_add(weight),
        proposals_voted_on: vr.proposals_voted_on.saturating_add(1),
        ..vr
    }
}

/// The proposal after `weight` lands on the side named by `vote_type`.
pub open spec fn tallied_proposal(p: Proposal, vote_type: u8, weight: u64) -> Proposal {
    if vote_type == 0 {
        Proposal { no_votes: (p.no_votes + weight) as u64, ..p }
    } else {
        Proposal { yes_votes: (p.yes_votes + weight) as u64, ..p }
    }
}

/// Exactly what casting a vote does, checked in this order: a vote type
/// other than 0 or 1, a finalized proposal, a timestamp before the window,
/// a timestamp at or past its end, an existing receipt for the
/// (proposal, voter) key, a zero weight, a budget short of the weight and a
/// tally that would overflow each fail with their error and leave the store
/// untouched. Otherwise, as one atomic step: the weight — the integer
/// square root of the token balance — lands on the chosen side of the
/// proposal's tally, the voter's budget is debited by the same amount, and
/// exactly one new receipt is persisted.
pub open spec fn cast_vote_post(
    pre: GovernanceStore,
    post: GovernanceStore,
    voter: u64,
    proposal_id: u64,
    vote_type: u8,
    token_balance: u64,
    now: i64,
    r: Result<Vote, GovernanceError>,
) -> bool {
    let p = pre.proposal_of(proposal_id);
    let vr = pre.voter_of(voter);
    let weight = isqrt_spec(token_balance as nat) as u64;
    if vote_type > 1 {
        r == Err::<Vote, GovernanceError>(GovernanceError::InvalidVoteType) && post == pre
    } else if p.finalized {
        r == Err::<Vote, GovernanceError>(GovernanceError::ProposalAlreadyFinalized) && post == pre
    } else if now < p.start_ts {
        r == Err::<Vote, GovernanceError>(GovernanceError::VotingNotStarted) && post == pre
    } else if now >= p.end_ts {
        r == Err::<Vote, GovernanceError>(GovernanceError::VotingPeriodEnded) && post == pre
    } else if pre.spec_has_receipt(proposal_id, voter) {
        r == Err::<Vote, GovernanceError>(GovernanceError::AlreadyVoted) && post == pre
    } else if weight == 0 {
        r == Err::<Vote, GovernanceError>(GovernanceError::ZeroVotes) && post == pre
    } else if weight > vr.credits_remaining {
        r == Err::<Vote, GovernanceError>(GovernanceError::InsufficientCredits) && post == pre
    } else if (if vote_type == 0 {
        p.no_votes + weight > u64::MAX
    } else {
        p.yes_votes + weight > u64::MAX
    }) {
        r == Err::<Vote, GovernanceError>(GovernanceError::ArithmeticOverflow) && post == pre
    } else {
        &&& r == Ok::<Vote, GovernanceError>(
            Vote { authority: voter, vote_type, voting_credits: weight },
        )
        &&& post.governance == pre.governance
        &&& post.proposals@ == pre.proposals@.update(
            pre.proposal_idx(proposal_id),
            tallied_proposal(p, vote_type, weight),
        )
        &&& post.voters@ == pre.voters@.update(pre.voter_idx(voter), spent_record(vr, weight))
        &&& post.receipts@ == pre.receipts@.push(
            VoteReceipt {
                proposal: proposal_id,
                voter,
                num_votes: weight,
                credits_spent: weight,
                vote_for: vote_type == 1,
                voted_at: now,
            },
        )
    }
}

/// Casts a vote on an open proposal.
///
/// The weight is the integer square root of the voter's token balance (the
/// quadratic policy) and doubles as the cost under the flat per-credit
/// price: it is debited from the voter's budget. The vote lands exactly
/// once — a second cast for the same (proposal, voter) key fails with
/// `AlreadyVoted` — and either every effect of the cast is applied or none
/// is.
pub fn handler(
    store: &mut GovernanceStore,
    voter: u64,
    proposal_id: u64,
    vote_type: u8,
    token_balance: u64,
    now: i64,
) -> (r: Result<Vote, GovernanceError>)
    requires
        old(store).wf(),
        old(store).spec_is_initialized(),
        old(store).spec_has_proposal(proposal_id),
        old(store).spec_has_voter(voter),
    ensures
        final(store).wf(),
        cast_vote_post(
            *old(store),
            *final(store),
            voter,
            proposal_id,
            vote_type,
            token_balance,
            now,
            r,
        ),
{
    if vote_type > 1 {
        return Err(GovernanceError::InvalidVoteType);
    }
    let pidx = store.find_proposal(proposal_id).unwrap();
    proof {
        old(store).lemma_proposal_idx_unique(proposal_id, pidx as int);
    }
    if store.proposals[pidx].finalized {
        return Err(GovernanceError::ProposalAlreadyFinalized);
    }
    if now < store.proposals[pidx].start_ts {
        return Err(GovernanceError::VotingNotStarted);
    }
    if now >= store.proposals[pidx].end_ts {
        return Err(GovernanceError::VotingPeriodEnded);
    }
    if store.has_receipt(proposal_id, voter) {
        return Err(GovernanceError::AlreadyVoted);
    }
    let weight = isqrt(token_balance);
    if weight == 0 {
        return Err(GovernanceError::ZeroVotes);
    }
    let vidx = store.find_voter(voter).unwrap();
    proof {
        old(store).lemma_voter_idx_unique(voter, vidx as int);
    }
    if weight > store.voters[vidx].credits_remaining {
        return Err(GovernanceError::InsufficientCredits);
    }
    let side_tally = if vote_type == 0 {
        store.proposals[pidx].no_votes
    } else {
        store.proposals[pidx].yes_votes
    };
    let new_tally = match side_tally.checked_add(weight) {
        Some(t) => t,
        None => {
            return Err(GovernanceError::ArithmeticOverflow);
        },
    };
    let spent = store.voters[vidx].try_spend_credits(weight);
    assert(spent);
    if vote_type == 0 {
        store.proposals[pidx].no_votes = new_tally;
    } else {
        store.proposals[pidx].yes_votes = new_tally;
    }
    let receipt = VoteReceipt {
        proposal: proposal_id,
        voter,
        num_votes: weight,
        credits_spent: weight,
        vote_for: vote_type == 1,
        voted_at: now,
    };
    store.receipts.push(receipt);
    proof {
        let pre = *old(store);
        let g = pre.gov();
        let s = *store;
        let pi = pidx as int;
        let vi = vidx as int;
        let p = pre.proposals@[pi];
        let vr = pre.voters@[vi];
        assert(pre.voters_ok(g));
        assert(s.proposals@ == pre.proposals@.update(pi, tallied_proposal(p, vote_type, weight)));
        assert(s.voters@ == pre.voters@.update(vi, spent_record(vr, weight)));
        assert(s.gov() == g);
        assert(s.voters_ok(g)) by {
            assert forall|i: int| 0 <= i < s.voters@.len() implies {
                let w = #[trigger] s.voters@[i];
                &&& w.governance == g.admin
                &&& w.credits_remaining + w.credits_spent == g.voice_credits_per_voter
            } by {
                if i != vi {
                    assert(s.voters@[i] == pre.voters@[i]);
                }
            }
        }
        assert(s.voters_distinct()) by {
            assert forall|i: int| 0 <= i < s.voters@.len() implies (#[trigger] s.voters@[i]).voter
                == pre.voters@[i].voter by {}
        }
        assert(s.proposals_distinct()) by {
            assert forall|i: int|
                0 <= i < s.proposals@.len() implies (#[trigger] s.proposals@[i]).proposal_id
                == pre.proposals@[i].proposal_id by {}
        }
        assert(s.proposals_ok(g)) by {
            assert forall|i: int| 0 <= i < s.proposals@.len() implies {
                let q = #[trigger] s.proposals@[i];
                &&& q.governance == g.admin
                &&& q.proposal_id < g.proposal_count
                &&& q.start_ts < q.end_ts
                &&& q.end_ts - q.start_ts == g.voting_period
                &&& !crate::state::store::title_hash_is_zero(q.title_hash@)
                &&& q.description_uri@.len() <= 256
                &&& q.yes_votes == crate::state::store::tally_sum(s.receipts@, q.proposal_id, true)
                &&& q.no_votes == crate::state::store::tally_sum(s.receipts@, q.proposal_id, false)
            } by {
                lemma_tally_sum_push(pre.receipts@, receipt, s.proposals@[i].proposal_id, true);
                lemma_tally_sum_push(pre.receipts@, receipt, s.proposals@[i].proposal_id, false);
                if i != pi {
                    assert(s.proposals@[i] == pre.proposals@[i]);
                    assert(pre.proposals@[i].proposal_id != proposal_id);
                }
            }
        }
        assert(s.receipts_ok(g)) by {
            assert forall|i: int| 0 <= i < s.receipts@.len() implies {
                let rc = #[trigger] s.receipts@[i];
                &&& rc.num_votes >= 1
                &&& rc.credits_spent == rc.num_votes
                &&& rc.proposal < g.proposal_count
            } by {
                if i < pre.receipts@.len() {
                    assert(s.receipts@[i] == pre.receipts@[i]);
                } else {
                    assert(s.receipts@[i] == receipt);
                }
            }
        }
        assert(s.receipts_distinct()) by {
            assert forall|i: int, j: int|
                0 <= i < s.receipts@.len() && 0 <= j < s.receipts@.len() && i != j implies ((
            #[trigger] s.receipts@[i]).proposal != (#[trigger] s.receipts@[j]).proposal
                || s.receipts@[i].voter != s.receipts@[j].voter) by {
                if i < pre.receipts@.len() && j < pre.receipts@.len() {
                    assert(pre.receipts_distinct());
                    assert(pre.receipts@[i] == s.receipts@[i]);
                    assert(pre.receipts@[j] == s.receipts@[j]);
                } else if i < pre.receipts@.len() {
                    assert(s.receipts@[j] == receipt);
                    assert(!(pre.receipts@[i].proposal == proposal_id && pre.receipts@[i].voter
                        == voter));
                } else {
                    assert(s.receipts@[i] == receipt);
                    assert(!(pre.receipts@[j].proposal == proposal_id && pre.receipts@[j].voter
                        == voter));
                }
            }
        }
    }
    Ok(Vote { authority: voter, vote_type, voting_credits: weight })
}

} // verus!
