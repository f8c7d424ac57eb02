use governance::state::governance::Governance;
use governance::state::proposal::Proposal;
use governance::state::voter_record::VoterRecord;

fn sample_proposal() -> Proposal {
    let mut title_hash = [0u8; 32];
    title_hash[31] = 1;
    Proposal {
        governance: 1,
        proposal_id: 0,
        proposer: 10,
        title_hash,
        description_uri: Vec::new(),
        yes_votes: 3,
        no_votes: 8,
        start_ts: 100,
        end_ts: 200,
        finalized: false,
    }
}

#[test]
fn next_proposal_id_counts_up() {
    let mut g = Governance { admin: 1, voice_credits_per_voter: 5, voting_period: 60, proposal_count: 0 };
    assert_eq!(g.next_proposal_id(), 0);
    assert_eq!(g.next_proposal_id(), 1);
    assert_eq!(g.next_proposal_id(), 2);
    assert_eq!(g.proposal_count, 3);
}

#[test]
fn next_proposal_id_saturates() {
    let mut g = Governance {
        admin: 1,
        voice_credits_per_voter: 5,
        voting_period: 60,
        proposal_count: u64::MAX,
    };
    assert_eq!(g.next_proposal_id(), u64::MAX);
    assert_eq!(g.proposal_count, u64::MAX);
}

#[test]
fn voting_window_queries() {
    let p = sample_proposal();
    assert!(!p.is_voting_open(99));
    assert!(p.is_voting_open(100));
    assert!(p.is_voting_open(199));
    assert!(!p.is_voting_open(200));
    assert!(!p.is_voting_ended(199));
    assert!(p.is_voting_ended(200));
    let mut sealed = sample_proposal();
    sealed.finalized = true;
    assert!(!sealed.is_voting_open(150));
}

#[test]
fn net_votes_is_signed_and_wide() {
    let mut p = sample_proposal();
    assert_eq!(p.net_votes(), -5);
    p.yes_votes = u64::MAX;
    p.no_votes = 0;
    assert_eq!(p.net_votes(), u64::MAX as i128);
    p.yes_votes = 0;
    p.no_votes = u64::MAX;
    assert_eq!(p.net_votes(), -(u64::MAX as i128));
}

#[test]
fn spending_credits_moves_budget() {
    let mut vr = VoterRecord {
        governance: 1,
        voter: 10,
        credits_remaining: 10,
        credits_spent: 0,
        proposals_voted_on: 0,
    };
    assert!(vr.try_spend_credits(4));
    assert_eq!(vr.credits_remaining, 6);
    assert_eq!(vr.credits_spent, 4);
    assert_eq!(vr.proposals_voted_on, 1);
    assert!(!vr.try_spend_credits(7));
    assert_eq!(vr.credits_remaining, 6);
    assert_eq!(vr.credits_spent, 4);
    assert_eq!(vr.proposals_voted_on, 1);
    assert!(vr.try_spend_credits(6));
    assert_eq!(vr.credits_remaining, 0);
    assert_eq!(vr.credits_spent, 10);
}
