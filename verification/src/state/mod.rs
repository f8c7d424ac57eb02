pub mod governance;
pub mod proposal;
pub mod store;
pub mod vote;
pub mod vote_receipt;
pub mod voter_record;

pub use governance::Governance;
pub use proposal::Outcome;
pub use proposal::Proposal;
pub use proposal::MAX_DESCRIPTION_URI_LEN;
pub use store::GovernanceStore;
pub use vote::Vote;
pub use vote_receipt::VoteReceipt;
pub use voter_record::VoterRecord;
