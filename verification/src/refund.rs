//! Pull-based refund of a single contributor once a campaign has failed.
use vstd::prelude::*;
use crate::campaign::{AccountId, Campaign, Status};
use crate::errors::ContractError;
use crate::milestones::out_of_range;

verus! {

broadcast use vstd::std_specs::hash::group_hash_axioms;

/// Why a refund is not owed to `who` at time `now`, if it is not.
pub open spec fn refund_error(c: Campaign, now: u64, who: AccountId) -> Option<ContractError> {
    if now <= c.deadline {
        Some(ContractError::CampaignStillActive)
    } else if c.total_raised >= c.goal {
        Some(ContractError::GoalReached)
    } else if c.contribution_of(who) == 0 {
        Some(ContractError::NothingToRefund)
    } else {
        None
    }
}

impl Campaign {
    /// Checks, without changing anything, that `contributor` may be refunded
    /// now, and returns the amount owed: their whole contribution.
    pub fn validate_refund_preconditions(&self, now: u64, contributor: AccountId) -> (r: Result<i128, ContractError>)
        requires
            self.status != Status::Successful && self.status != Status::Cancelled,
        ensures
            r is Err <==> refund_error(*self, now, contributor) is Some,
            r matches Err(e) ==> refund_error(*self, now, contributor) == Some(e),
            r matches Ok(amount) ==> amount == self.contribution_of(contributor),
    {
        if now <= self.deadline {
            return Err(ContractError::CampaignStillActive);
        }
        if self.total_raised >= self.goal {
            return Err(ContractError::GoalReached);
        }
        let amount = self.contribution(contributor);
        if amount == 0 {
            return Err(ContractError::NothingToRefund);
        }
        Ok(amount)
    }

    /// Refunds `amount` to `contributor`: zeroes their contribution and takes
    /// the amount off the raised total; the caller then transfers it. Refused,
    /// with nothing changed, when the total cannot cover the amount.
    pub fn execute_refund_single(&mut self, contributor: AccountId, amount: i128) -> (r: Result<(), ContractError>)
        ensures
            r is Err <==> amount > old(self).total_raised || out_of_range(old(self).total_raised - amount),
            r is Err ==> r == Err::<(), ContractError>(ContractError::Overflow) && *final(self) == *old(self),
            r is Ok ==> {
                &&& final(self).contributions@ == old(self).contributions@.insert(contributor, 0)
                &&& final(self).total_raised == old(self).total_raised - amount
                &&& *final(self) == (Campaign {
                    contributions: final(self).contributions,
                    total_raised: final(self).total_raised,
                    ..*old(self)
                })
            },
    {
        if amount > self.total_raised {
            return Err(ContractError::Overflow);
        }
        let new_total = match self.total_raised.checked_sub(amount) {
            Some(v) => v,
            None => return Err(ContractError::Overflow),
        };
        self.contributions.insert(contributor, 0);
        self.total_raised = new_total;
        Ok(())
    }
}

/// A refunded contributor cannot be refunded again: their contribution is
/// zero afterwards, so the next claim is refused.
pub proof fn lemma_refund_once(before: Campaign, after: Campaign, now: u64, contributor: AccountId)
    requires
        after.contributions@ == before.contributions@.insert(contributor, 0),
    ensures
        refund_error(after, now, contributor) is Some,
{
    assert(after.contribution_of(contributor) == 0);
}

} // verus!
