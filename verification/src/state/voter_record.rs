use vstd::prelude::*;

verus! {

/// One registered voter under one governance instance.
///
/// Created once per (governance, voter) by registration, with the full
/// credit allocation as `credits_remaining` and nothing spent; never
/// destroyed. While registered, `credits_remaining + credits_spent` equals
/// the governance's credit allocation at all times.
#[derive(Clone, Copy, Debug, PartialEq, Eq, Structural)]
pub struct VoterRecord {
    /// Admin identity of the owning governance instance.
    pub governance: u64,
    /// The registered identity; immutable binding.
    pub voter: u64,
    /// Credits still available to spend on votes.
    pub credits_remaining: u64,
    /// Credits spent on votes so far.
    pub credits_spent: u64,
    /// Advisory count of proposals this voter has voted on.
    pub proposals_voted_on: u64,
}

impl VoterRecord {
    /// Debits `cost` credits from the remaining budget.
    ///
    /// Succeeds exactly when the budget covers the cost; on success the
    /// debit moves `cost` credits from remaining to spent and counts one
    /// more proposal voted on. On failure nothing changes.
    pub fn try_spend_credits(&mut self, cost: u64) -> (ok: bool)
        ensures
            ok == (cost <= old(self).credits_remaining),
            final(self).governance == old(self).governance,
            final(self).voter == old(self).voter,
            ok ==> {
                &&& final(self).credits_remaining == old(self).credits_remaining - cost
                &&& final(self).credits_spent == old(self).credits_spent.saturating_add(cost)
                &&& final(self).proposals_voted_on == old(self).proposals_voted_on.saturating_add(
                    1,
                )
            },
            !ok ==> *final(self) == *old(self),
    {
        if let Some(remaining) = self.credits_remaining.checked_sub(cost) {
            self.credits_remaining = remaining;
            self.credits_spent = self.credits_spent.saturating_add(cost);
            self.proposals_voted_on = self.proposals_voted_on.saturating_add(1);
            true
        } else {
            false
        }
    }
}

} // verus!
