use vstd::prelude::*;

verus! {

/// Longest admitted `description_uri`, in bytes.
pub const MAX_DESCRIPTION_URI_LEN: usize = 256;

/// Outcome of a finalized proposal, derived from the net tally.
#[derive(Clone, Copy, Debug, PartialEq, Eq, Structural)]
pub enum Outcome {
    /// More weighted votes for than against.
    Passed,
    /// More weighted votes against than for.
    Rejected,
    /// Weighted votes for and against are equal.
    Tied,
}

/// A proposal under one governance instance.
///
/// The voting window is `[start_ts, end_ts)` with
/// `end_ts - start_ts == voting_period`. The tally accumulators only ever
/// grow, and only while `finalized` is false; finalization seals the record.
#[derive(Debug, PartialEq, Eq)]
pub struct Proposal {
    /// Admin identity of the owning governance instance.
    pub governance: u64,
    /// Permanent identifier drawn from the governance counter.
    pub proposal_id: u64,
    /// Identity of the registered voter that created the proposal.
    pub proposer: u64,
    /// Non-zero 32-byte content fingerprint of the title.
    pub title_hash: [u8; 32],
    /// UTF-8 bytes of the description URI, at most 256 of them.
    pub description_uri: Vec<u8>,
    /// Accumulated weight of votes for.
    pub yes_votes: u64,
    /// Accumulated weight of votes against.
    pub no_votes: u64,
    /// Unix timestamp at which voting opens.
    pub start_ts: i64,
    /// Unix timestamp at which voting closes (exclusive).
    pub end_ts: i64,
    /// Set exactly once by finalization; irreversible.
    pub finalized: bool,
}

impl Proposal {
    /// Whether a vote arriving at `current_ts` falls in the open window.
    pub open spec fn spec_voting_open(self, current_ts: i64) -> bool {
        current_ts >= self.start_ts && current_ts < self.end_ts && !self.finalized
    }

    /// Whether the voting window is over at `current_ts`.
    pub open spec fn spec_voting_ended(self, current_ts: i64) -> bool {
        current_ts >= self.end_ts
    }

    /// The signed net tally, wide enough that it cannot overflow.
    pub open spec fn spec_net_votes(self) -> int {
        self.yes_votes - self.no_votes
    }

    /// True exactly when voting is open at `current_ts`: the window has
    /// started, has not yet ended, and the proposal is not finalized.
    pub fn is_voting_open(&self, current_ts: i64) -> (open: bool)
        ensures
            open == self.spec_voting_open(current_ts),
    {
        current_ts >= self.start_ts && current_ts < self.end_ts && !self.finalized
    }

    /// True exactly when the voting window has ended at `current_ts`.
    pub fn is_voting_ended(&self, current_ts: i64) -> (ended: bool)
        ensures
            ended == self.spec_voting_ended(current_ts),
    {
        current_ts >= self.end_ts
    }

    /// Votes for minus votes against, in signed arithmetic wide enough
    /// never to overflow.
    pub fn net_votes(&self) -> (net: i128)
        ensures
            net == self.spec_net_votes(),
    {
        self.yes_votes as i128 - self.no_votes as i128
    }

    /// The outcome a tally derives to: passed on a positive net tally,
    /// rejected on a negative one, tied on zero.
    pub open spec fn spec_outcome(self) -> Outcome {
        if self.spec_net_votes() > 0 {
            Outcome::Passed
        } else if self.spec_net_votes() < 0 {
            Outcome::Rejected
        } else {
            Outcome::Tied
        }
    }
}

} // verus!
