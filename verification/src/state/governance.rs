use vstd::prelude::*;

verus! {

/// The singleton governance configuration.
///
/// Identities are opaque integers supplied by the authentication boundary;
/// the engine only ever compares them for equality. `proposal_count` is the
/// monotone source of proposal ids: it never decreases and saturates rather
/// than overflows.
#[derive(Clone, Copy, Debug, PartialEq, Eq, Structural)]
pub struct Governance {
    /// Identity that created the instance; immutable after creation.
    pub admin: u64,
    /// Credits granted to each newly registered voter; at least 1.
    pub voice_credits_per_voter: u64,
    /// Duration in seconds of every proposal's voting window; positive.
    pub voting_period: i64,
    /// Monotone counter, source of proposal ids.
    pub proposal_count: u64,
}

impl Governance {
    /// Returns the next proposal id and advances the counter.
    ///
    /// The id handed out is the counter's current value; the counter then
    /// moves up by one, saturating at `u64::MAX` instead of wrapping.
    pub fn next_proposal_id(&mut self) -> (id: u64)
        ensures
            id == old(self).proposal_count,
            final(self).proposal_count == old(self).proposal_count.saturating_add(1),
            final(self).admin == old(self).admin,
            final(self).voice_credits_per_voter == old(self).voice_credits_per_voter,
            final(self).voting_period == old(self).voting_period,
    {
        let id = self.proposal_count;
        self.proposal_count = self.proposal_count.saturating_add(1);
        id
    }
}

} // verus!
