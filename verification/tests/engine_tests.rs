use governance::cast_vote;
use governance::create_proposal;
use governance::error::GovernanceError;
use governance::finalize_proposal;
use governance::initialize_governance;
use governance::instructions::cast_vote::isqrt;
use governance::register_voter;
use governance::state::proposal::Outcome;
use governance::state::store::GovernanceStore;

const ADMIN: u64 = 1;
const ALICE: u64 = 10;
const BOB: u64 = 11;
const CAROL: u64 = 12;

fn title() -> [u8; 32] {
    let mut h = [0u8; 32];
    h[0] = 7;
    h
}

fn ready_store(credits: u64, period: i64) -> GovernanceStore {
    let mut store = GovernanceStore::new();
    initialize_governance(&mut store, ADMIN, credits, period).unwrap();
    register_voter(&mut store, ALICE).unwrap();
    store
}

#[test]
fn isqrt_exact_values() {
    assert_eq!(isqrt(0), 0);
    assert_eq!(isqrt(1), 1);
    assert_eq!(isqrt(2), 1);
    assert_eq!(isqrt(3), 1);
    assert_eq!(isqrt(4), 2);
    assert_eq!(isqrt(99), 9);
    assert_eq!(isqrt(100), 10);
    assert_eq!(isqrt(1_000_000), 1000);
    assert_eq!(isqrt(u64::MAX), 4_294_967_295);
    let r = isqrt(u64::MAX);
    assert!(r * r <= u64::MAX);
}

#[test]
fn initialize_succeeds_exactly_once() {
    let mut store = GovernanceStore::new();
    assert_eq!(initialize_governance(&mut store, ADMIN, 100, 3600), Ok(()));
    let g = store.governance.unwrap();
    assert_eq!(g.admin, ADMIN);
    assert_eq!(g.voice_credits_per_voter, 100);
    assert_eq!(g.voting_period, 3600);
    assert_eq!(g.proposal_count, 0);
    assert_eq!(
        initialize_governance(&mut store, ADMIN, 100, 3600),
        Err(GovernanceError::GovernanceAlreadyInitialized)
    );
}

#[test]
fn initialize_rejects_invalid_config() {
    let mut store = GovernanceStore::new();
    assert_eq!(
        initialize_governance(&mut store, ADMIN, 0, 3600),
        Err(GovernanceError::InvalidCreditAllocation)
    );
    assert_eq!(
        initialize_governance(&mut store, ADMIN, 100, 0),
        Err(GovernanceError::InvalidVotingPeriod)
    );
    assert_eq!(
        initialize_governance(&mut store, ADMIN, 100, -5),
        Err(GovernanceError::InvalidVotingPeriod)
    );
    assert!(store.governance.is_none());
}

#[test]
fn register_is_unique_per_voter() {
    let mut store = ready_store(100, 3600);
    assert_eq!(store.voters.len(), 1);
    assert_eq!(store.voters[0].voter, ALICE);
    assert_eq!(store.voters[0].credits_remaining, 100);
    assert_eq!(store.voters[0].credits_spent, 0);
    assert_eq!(
        register_voter(&mut store, ALICE),
        Err(GovernanceError::VoterAlreadyRegistered)
    );
    assert_eq!(store.voters.len(), 1);
    assert_eq!(register_voter(&mut store, BOB), Ok(()));
    assert_eq!(store.voters.len(), 2);
}

#[test]
fn proposal_window_is_exactly_one_period() {
    let mut store = ready_store(100, 3600);
    let id = create_proposal(&mut store, ALICE, title(), Vec::new(), 50).unwrap();
    assert_eq!(id, 0);
    let p = &store.proposals[0];
    assert_eq!(p.start_ts, 50);
    assert_eq!(p.end_ts, 3650);
    assert_eq!(p.end_ts - p.start_ts, 3600);
    assert_eq!(p.yes_votes, 0);
    assert_eq!(p.no_votes, 0);
    assert!(!p.finalized);
    assert_eq!(store.governance.unwrap().proposal_count, 1);
    let id2 = create_proposal(&mut store, ALICE, title(), Vec::new(), 60).unwrap();
    assert_eq!(id2, 1);
    assert_eq!(store.proposals[1].end_ts - store.proposals[1].start_ts, 3600);
}

#[test]
fn create_proposal_rejections() {
    let mut store = ready_store(100, 3600);
    assert_eq!(
        create_proposal(&mut store, BOB, title(), Vec::new(), 0),
        Err(GovernanceError::NotRegisteredVoter)
    );
    assert_eq!(
        create_proposal(&mut store, ALICE, [0u8; 32], Vec::new(), 0),
        Err(GovernanceError::EmptyProposalTitle)
    );
    let long_uri = vec![b'u'; 257];
    assert_eq!(
        create_proposal(&mut store, ALICE, title(), long_uri, 0),
        Err(GovernanceError::DescriptionUriTooLong)
    );
    assert_eq!(
        create_proposal(&mut store, ALICE, title(), Vec::new(), i64::MAX),
        Err(GovernanceError::ArithmeticOverflow)
    );
    assert_eq!(store.proposals.len(), 0);
    let fitting_uri = vec![b'u'; 256];
    assert!(create_proposal(&mut store, ALICE, title(), fitting_uri, 0).is_ok());
    assert_eq!(store.proposals.len(), 1);
    assert_eq!(store.proposals[0].description_uri.len(), 256);
}

#[test]
fn double_vote_is_prevented() {
    let mut store = ready_store(100, 3600);
    create_proposal(&mut store, ALICE, title(), Vec::new(), 0).unwrap();
    let vote = cast_vote(&mut store, ALICE, 0, 1, 100, 10).unwrap();
    assert_eq!(vote.authority, ALICE);
    assert_eq!(vote.vote_type, 1);
    assert_eq!(vote.voting_credits, 10);
    assert_eq!(store.receipts.len(), 1);
    assert_eq!(
        cast_vote(&mut store, ALICE, 0, 1, 100, 20),
        Err(GovernanceError::AlreadyVoted)
    );
    assert_eq!(
        cast_vote(&mut store, ALICE, 0, 0, 100, 20),
        Err(GovernanceError::AlreadyVoted)
    );
    assert_eq!(store.receipts.len(), 1);
    assert_eq!(store.proposals[0].yes_votes, 10);
}

#[test]
fn tally_conserves_receipt_weights() {
    let mut store = ready_store(10_000, 3600);
    register_voter(&mut store, BOB).unwrap();
    register_voter(&mut store, CAROL).unwrap();
    create_proposal(&mut store, ALICE, title(), Vec::new(), 0).unwrap();
    cast_vote(&mut store, ALICE, 0, 1, 100, 10).unwrap();
    cast_vote(&mut store, BOB, 0, 0, 49, 20).unwrap();
    cast_vote(&mut store, CAROL, 0, 1, 1_000_000, 30).unwrap();
    let p = &store.proposals[0];
    assert_eq!(p.yes_votes, 10 + 1000);
    assert_eq!(p.no_votes, 7);
    let total: u64 = store.receipts.iter().map(|r| r.num_votes).sum();
    assert_eq!(p.yes_votes + p.no_votes, total);
}

#[test]
fn full_scenario_passes() {
    let mut store = GovernanceStore::new();
    initialize_governance(&mut store, ADMIN, 100, 3600).unwrap();
    register_voter(&mut store, ALICE).unwrap();
    let id = create_proposal(&mut store, ALICE, title(), Vec::new(), 0).unwrap();
    let vote = cast_vote(&mut store, ALICE, id, 1, 100, 1000).unwrap();
    assert_eq!(vote.voting_credits, 10);
    assert_eq!(store.proposals[0].yes_votes, 10);
    assert_eq!(
        finalize_proposal(&mut store, id, 1000),
        Err(GovernanceError::VotingPeriodNotEnded)
    );
    assert!(!store.proposals[0].finalized);
    assert_eq!(finalize_proposal(&mut store, id, 3600), Ok(Outcome::Passed));
    assert!(store.proposals[0].finalized);
    assert_eq!(
        finalize_proposal(&mut store, id, 3601),
        Err(GovernanceError::ProposalAlreadyFinalized)
    );
}

#[test]
fn window_boundaries_are_half_open() {
    let mut store = ready_store(100, 3600);
    register_voter(&mut store, BOB).unwrap();
    create_proposal(&mut store, ALICE, title(), Vec::new(), 100).unwrap();
    assert_eq!(
        cast_vote(&mut store, ALICE, 0, 1, 100, 3700),
        Err(GovernanceError::VotingPeriodEnded)
    );
    assert_eq!(
        cast_vote(&mut store, ALICE, 0, 1, 100, 99),
        Err(GovernanceError::VotingNotStarted)
    );
    let at_start = cast_vote(&mut store, ALICE, 0, 1, 100, 100);
    assert!(at_start.is_ok());
    let last_instant = cast_vote(&mut store, BOB, 0, 1, 100, 3699);
    assert!(last_instant.is_ok());
}

#[test]
fn cast_vote_rejections() {
    let mut store = ready_store(5, 3600);
    register_voter(&mut store, BOB).unwrap();
    create_proposal(&mut store, ALICE, title(), Vec::new(), 0).unwrap();
    assert_eq!(
        cast_vote(&mut store, ALICE, 0, 2, 100, 10),
        Err(GovernanceError::InvalidVoteType)
    );
    assert_eq!(
        cast_vote(&mut store, ALICE, 0, 1, 0, 10),
        Err(GovernanceError::ZeroVotes)
    );
    assert_eq!(
        cast_vote(&mut store, ALICE, 0, 1, 100, 10),
        Err(GovernanceError::InsufficientCredits)
    );
    assert_eq!(store.receipts.len(), 0);
    assert_eq!(cast_vote(&mut store, ALICE, 0, 1, 25, 10).unwrap().voting_credits, 5);
    assert_eq!(store.voters[0].credits_remaining, 0);
    assert_eq!(store.voters[0].credits_spent, 5);
    assert_eq!(store.voters[0].proposals_voted_on, 1);
    finalize_proposal(&mut store, 0, 3600).unwrap();
    assert_eq!(
        cast_vote(&mut store, BOB, 0, 1, 100, 3599),
        Err(GovernanceError::ProposalAlreadyFinalized)
    );
}

#[test]
fn tally_overflow_is_rejected() {
    let mut store = ready_store(u64::MAX, 3600);
    register_voter(&mut store, BOB).unwrap();
    create_proposal(&mut store, ALICE, title(), Vec::new(), 0).unwrap();
    cast_vote(&mut store, ALICE, 0, 1, 100, 10).unwrap();
    // drive the accumulator to the brink; the next checked addition must
    // refuse to wrap
    store.proposals[0].yes_votes = u64::MAX - 5;
    assert_eq!(
        cast_vote(&mut store, BOB, 0, 1, 100, 20),
        Err(GovernanceError::ArithmeticOverflow)
    );
    assert_eq!(store.proposals[0].yes_votes, u64::MAX - 5);
    // the losing side still has room
    let against = cast_vote(&mut store, BOB, 0, 0, 100, 20);
    assert!(against.is_ok());
}

#[test]
fn rejected_and_tied_outcomes() {
    let mut store = ready_store(1000, 3600);
    register_voter(&mut store, BOB).unwrap();
    register_voter(&mut store, CAROL).unwrap();
    create_proposal(&mut store, ALICE, title(), Vec::new(), 0).unwrap();
    create_proposal(&mut store, ALICE, title(), Vec::new(), 0).unwrap();
    cast_vote(&mut store, ALICE, 0, 0, 100, 10).unwrap();
    assert_eq!(finalize_proposal(&mut store, 0, 3600), Ok(Outcome::Rejected));
    cast_vote(&mut store, BOB, 1, 1, 100, 10).unwrap();
    cast_vote(&mut store, CAROL, 1, 0, 100, 10).unwrap();
    assert_eq!(finalize_proposal(&mut store, 1, 3600), Ok(Outcome::Tied));
}
