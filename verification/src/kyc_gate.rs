//! The optional, admin-configured KYC gate on contributions and pledges.
//!
//! The KYC gate is off until configured. Once enabled, an account whose
//! cumulative commitment (contributions plus pledges, including the amount
//! now being added) reaches the threshold must be confirmed by the configured
//! verifier contract; below the threshold nothing is asked.
use vstd::prelude::*;
use crate::campaign::{AccountId, Campaign, KycGateConfig};
use crate::errors::ContractError;
use crate::milestones::out_of_range;

verus! {

broadcast use vstd::std_specs::hash::group_hash_axioms;

/// What the KYC gate asks for a prospective contribution.
#[derive(Clone, Copy, Debug, PartialEq, Eq, Structural)]
pub enum KycCheck {
    /// The contribution may proceed.
    Pass,
    /// The given verifier contract must confirm the account first.
    Verify(AccountId),
}

/// The threshold is reached (at exactly the threshold too).
pub fn crosses_threshold(prospective_cumulative: i128, threshold: i128) -> (r: bool)
    ensures
        r == (prospective_cumulative >= threshold),
{
    prospective_cumulative >= threshold
}

/// Contributions plus pledges of `who`.
pub open spec fn committed(c: Campaign, who: AccountId) -> int {
    c.contribution_of(who) + c.pledge_of(who)
}

/// The KYC gate is configured and switched on.
pub open spec fn gate_active(c: Campaign) -> bool {
    c.kyc_gate matches Some(cfg) && cfg.enabled
}

/// What the KYC gate decides for `amount` more from `who`.
pub open spec fn kyc_check(c: Campaign, who: AccountId, amount: i128) -> Result<KycCheck, ContractError> {
    if !gate_active(c) {
        Ok(KycCheck::Pass)
    } else if out_of_range(committed(c, who) + amount) {
        Err(ContractError::Overflow)
    } else if committed(c, who) + amount < c.kyc_gate->0.threshold {
        Ok(KycCheck::Pass)
    } else {
        Ok(KycCheck::Verify(c.kyc_gate->0.verifier))
    }
}

impl Campaign {
    /// The campaign's KYC gate configuration, if one has been set.
    pub fn kyc_gate_config(&self) -> (r: &Option<KycGateConfig>)
        ensures
            *r == self.kyc_gate,
    {
        &self.kyc_gate
    }

    /// Contributions plus pledges of `who`.
    fn cumulative_committed(&self, who: AccountId) -> (r: i128)
        requires
            !out_of_range(committed(*self, who)),
        ensures
            r == committed(*self, who),
    {
        self.contribution(who) + self.pledge(who)
    }

    /// Decides whether `amount` more from `who` passes the KYC gate outright or
    /// needs the verifier's confirmation.
    pub fn enforce_kyc_gate(&self, who: AccountId, amount: i128) -> (r: Result<KycCheck, ContractError>)
        requires
            gate_active(*self) ==> !out_of_range(committed(*self, who)),
        ensures
            r == kyc_check(*self, who, amount),
    {
        let config = match &self.kyc_gate {
            None => return Ok(KycCheck::Pass),
            Some(cfg) => cfg,
        };
        if !config.enabled {
            return Ok(KycCheck::Pass);
        }
        let prospective = match self.cumulative_committed(who).checked_add(amount) {
            Some(v) => v,
            None => return Err(ContractError::Overflow),
        };
        if !crosses_threshold(prospective, config.threshold) {
            return Ok(KycCheck::Pass);
        }
        Ok(KycCheck::Verify(config.verifier))
    }

    /// Configures and enables the KYC gate; only the campaign admin may.
    pub fn execute_configure_kyc_gate(
        &mut self,
        admin: AccountId,
        verifier: AccountId,
        threshold: i128,
        jurisdiction: Vec<u8>,
    ) -> (r: Result<(), ContractError>)
        ensures
            r == (if admin != old(self).admin {
                Err(ContractError::Unauthorized)
            } else if threshold <= 0 {
                Err(ContractError::InvalidParameter)
            } else {
                Ok::<(), ContractError>(())
            }),
            r is Err ==> *final(self) == *old(self),
            r is Ok ==> *final(self) == (Campaign {
                kyc_gate: Some(KycGateConfig { verifier, threshold, enabled: true, jurisdiction }),
                ..*old(self)
            }),
    {
        if admin != self.admin {
            return Err(ContractError::Unauthorized);
        }
        if threshold <= 0 {
            return Err(ContractError::InvalidParameter);
        }
        self.kyc_gate = Some(KycGateConfig { verifier, threshold, enabled: true, jurisdiction });
        Ok(())
    }

    /// Switches a configured gate on or off; only the campaign admin may.
    pub fn execute_set_kyc_gate_enabled(&mut self, admin: AccountId, enabled: bool) -> (r: Result<(), ContractError>)
        ensures
            r == (if admin != old(self).admin {
                Err(ContractError::Unauthorized)
            } else if old(self).kyc_gate is None {
                Err(ContractError::KycGateNotConfigured)
            } else {
                Ok::<(), ContractError>(())
            }),
            r is Err ==> *final(self) == *old(self),
            r is Ok ==> *final(self) == (Campaign {
                kyc_gate: Some(KycGateConfig { enabled, ..old(self).kyc_gate->0 }),
                ..*old(self)
            }),
    {
        if admin != self.admin {
            return Err(ContractError::Unauthorized);
        }
        match &mut self.kyc_gate {
            None => Err(ContractError::KycGateNotConfigured),
            Some(cfg) => {
                cfg.enabled = enabled;
                Ok(())
            },
        }
    }
}

/// Completes the KYC gate's decision with the verifier's answer (asked only when
/// the check requires it): a required confirmation that is missing refuses
/// the contribution.
pub fn kyc_verdict(check: KycCheck, verified: bool) -> (r: Result<(), ContractError>)
    ensures
        r is Ok <==> (check == KycCheck::Pass || verified),
        r is Err ==> r == Err::<(), ContractError>(ContractError::KycRequired),
{
    match check {
        KycCheck::Pass => Ok(()),
        KycCheck::Verify(_) => if verified {
            Ok(())
        } else {
            Err(ContractError::KycRequired)
        },
    }
}

/// A gate that is absent or switched off lets every contribution through.
pub proof fn lemma_inactive_gate_passes(c: Campaign, who: AccountId, amount: i128)
    requires
        !gate_active(c),
    ensures
        kyc_check(c, who, amount) == Ok::<KycCheck, ContractError>(KycCheck::Pass),
{
}

/// The threshold applies to the cumulative commitment: once an account's
/// contributions and pledges reach it, every further non-negative amount
/// needs the verifier's confirmation, so splitting contributions does not
/// evade the KYC gate.
pub proof fn lemma_threshold_is_cumulative(c: Campaign, who: AccountId, amount: i128)
    requires
        gate_active(c),
        committed(c, who) >= c.kyc_gate->0.threshold,
        amount >= 0,
        !out_of_range(committed(c, who) + amount),
    ensures
        kyc_check(c, who, amount) == Ok::<KycCheck, ContractError>(KycCheck::Verify(c.kyc_gate->0.verifier)),
{
}

} // verus!
