pub mod cast_vote;
pub mod create_proposal;
pub mod finalize_proposal;
pub mod initialize_governance;
pub mod register_voter;
