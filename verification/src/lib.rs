//! A quadratic-voting governance engine, verified with Verus.
//!
//! The library is a state machine over a key-addressed record store that it
//! models explicitly: a single governance configuration, one voter record per
//! registered identity, time-boxed proposals with monotone tally
//! accumulators, and at most one vote receipt per (proposal, voter) pair.
//! A vote is weighted by the integer square root of the voter's token
//! balance (the quadratic policy) and debits the voter's credit budget by
//! the same amount. Persistence, caller authentication, the clock and the
//! balance oracle are external collaborators: callers hand the engine plain
//! values and the engine returns plain values, with its behaviour stated in
//! contracts and proved.
use vstd::prelude::*;

pub mod error;
pub mod instructions;
pub mod state;

use crate::error::GovernanceError;
use crate::state::proposal::Outcome;
use crate::state::store::GovernanceStore;
use crate::state::vote::Vote;

verus! {

/// Creates the singleton governance configuration; succeeds exactly once.
pub fn initialize_governance(
    store: &mut GovernanceStore,
    admin: u64,
    voice_credits_per_voter: u64,
    voting_period: i64,
) -> (r: Result<(), GovernanceError>)
    requires
        old(store).wf(),
    ensures
        final(store).wf(),
        instructions::initialize_governance::initialize_post(
            *old(store),
            *final(store),
            admin,
            voice_credits_per_voter,
            voting_period,
            r,
        ),
{
    instructions::initialize_governance::handler(store, admin, voice_credits_per_voter, voting_period)
}

/// Registers a voter, granting the full credit allocation; at most once
/// per identity.
pub fn register_voter(store: &mut GovernanceStore, voter: u64) -> (r: Result<
    (),
    GovernanceError,
>)
    requires
        old(store).wf(),
        old(store).spec_is_initialized(),
    ensures
        final(store).wf(),
        instructions::register_voter::register_post(*old(store), *final(store), voter, r),
{
    instructions::register_voter::handler(store, voter)
}

/// Creates a proposal with a voting window of exactly one period starting
/// at `now`, under a fresh id from the governance counter.
pub fn create_proposal(
    store: &mut GovernanceStore,
    proposer: u64,
    title_hash: [u8; 32],
    description_uri: Vec<u8>,
    now: i64,
) -> (r: Result<u64, GovernanceError>)
    requires
        old(store).wf(),
        old(store).spec_is_initialized(),
    ensures
        final(store).wf(),
        instructions::create_proposal::create_proposal_post(
            *old(store),
            *final(store),
            proposer,
            title_hash,
            description_uri@,
            now,
            r,
        ),
{
    instructions::create_proposal::handler(store, proposer, title_hash, description_uri, now)
}

/// Casts a quadratically weighted vote, debiting the voter's credits and
/// persisting exactly one receipt per (proposal, voter) pair.
pub fn cast_vote(
    store: &mut GovernanceStore,
    voter: u64,
    proposal_id: u64,
    vote_type: u8,
    token_balance: u64,
    now: i64,
) -> (r: Result<Vote, GovernanceError>)
    requires
        old(store).wf(),
        old(store).spec_is_initialized(),
        old(store).spec_has_proposal(proposal_id),
        old(store).spec_has_voter(voter),
    ensures
        final(store).wf(),
        instructions::cast_vote::cast_vote_post(
            *old(store),
            *final(store),
            voter,
            proposal_id,
            vote_type,
            token_balance,
            now,
            r,
        ),
{
    instructions::cast_vote::handler(store, voter, proposal_id, vote_type, token_balance, now)
}

/// Irreversibly seals a proposal whose window has ended and derives its
/// outcome from the net tally.
pub fn finalize_proposal(store: &mut GovernanceStore, proposal_id: u64, now: i64) -> (r: Result<
    Outcome,
    GovernanceError,
>)
    requires
        old(store).wf(),
        old(store).spec_is_initialized(),
        old(store).spec_has_proposal(proposal_id),
    ensures
        final(store).wf(),
        instructions::finalize_proposal::finalize_post(
            *old(store),
            *final(store),
            proposal_id,
            now,
            r,
        ),
{
    instructions::finalize_proposal::handler(store, proposal_id, now)
}

} // verus!
