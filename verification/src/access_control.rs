//! Role-based access control with a pausable switch and a platform-fee
//! governor.
//!
//! Role checks are preconditions here: the contract entry points refuse
//! (panic) before calling these operations when the acting account lacks the
//! role, exactly as the guards `require_role` and `require_not_paused` do.
use std::collections::HashSet;
use vstd::prelude::*;
use crate::campaign::{lemma_pair_key_injective, make_pair_key, pair_key, AccountId};

verus! {

broadcast use vstd::std_specs::hash::group_hash_axioms;

/// Governs role management and platform-fee changes.
pub const ROLE_DEFAULT_ADMIN: u32 = 0;
/// Governs campaign lifecycle operations.
pub const ROLE_CAMPAIGN_CREATOR: u32 = 1;
/// Governs emergency pause and unpause.
pub const ROLE_PAUSER: u32 = 2;

/// Keys of the single-valued access-control entries in contract storage.
#[derive(Clone, Copy, Debug, PartialEq, Eq, Structural)]
pub enum AccessKey {
    /// Whether the contract is currently paused.
    Paused,
    /// The governance address authorised to set platform fees.
    FeeGovernor,
}

/// Role assignments, the paused flag and the fee governor.
pub struct AccessControl {
    /// `pair_key(role, account)` for every role held.
    pub roles: HashSet<u128>,
    /// A default admin has been bootstrapped.
    pub bootstrapped: bool,
    pub paused: bool,
    pub fee_governor: Option<AccountId>,
}

impl AccessControl {
    /// `account` holds `role`.
    pub open spec fn holds(&self, account: AccountId, role: u32) -> bool {
        self.roles@.contains(pair_key(role, account))
    }

    /// No roles, not bootstrapped, not paused, no fee governor.
    pub fn new() -> (r: AccessControl)
        ensures
            r.roles@ == Set::<u128>::empty(),
            !r.bootstrapped,
            !r.paused,
            r.fee_governor is None,
    {
        AccessControl { roles: HashSet::new(), bootstrapped: false, paused: false, fee_governor: None }
    }

    /// Returns `true` when `account` holds `role`.
    pub fn has_role(&self, account: AccountId, role: u32) -> (r: bool)
        ensures
            r == self.holds(account, role),
    {
        let k = make_pair_key(role, account);
        self.roles.contains(&k)
    }

    /// Grants `role` to `account`; `granter` holds the default admin role.
    pub fn grant_role(&mut self, granter: AccountId, role: u32, account: AccountId)
        requires
            old(self).holds(granter, ROLE_DEFAULT_ADMIN),
        ensures
            final(self).roles@ == old(self).roles@.insert(pair_key(role, account)),
            *final(self) == (AccessControl { roles: final(self).roles, ..*old(self) }),
    {
        let k = make_pair_key(role, account);
        self.roles.insert(k);
    }

    /// Revokes `role` from `account`; `revoker` holds the default admin role.
    pub fn revoke_role(&mut self, revoker: AccountId, role: u32, account: AccountId)
        requires
            old(self).holds(revoker, ROLE_DEFAULT_ADMIN),
        ensures
            final(self).roles@ == old(self).roles@.remove(pair_key(role, account)),
            *final(self) == (AccessControl { roles: final(self).roles, ..*old(self) }),
    {
        let k = make_pair_key(role, account);
        self.roles.remove(&k);
    }

    /// Gives `account` the default admin role, once, with no prior admin check.
    pub fn bootstrap_admin(&mut self, account: AccountId)
        requires
            !old(self).bootstrapped,
        ensures
            final(self).bootstrapped,
            final(self).roles@ == old(self).roles@.insert(pair_key(ROLE_DEFAULT_ADMIN, account)),
            *final(self) == (AccessControl { roles: final(self).roles, bootstrapped: true, ..*old(self) }),
    {
        self.bootstrapped = true;
        let k = make_pair_key(ROLE_DEFAULT_ADMIN, account);
        self.roles.insert(k);
    }

    /// Pauses the contract; `pauser` holds the pauser role and the contract is
    /// not paused yet.
    pub fn pause(&mut self, pauser: AccountId)
        requires
            old(self).holds(pauser, ROLE_PAUSER),
            !old(self).paused,
        ensures
            *final(self) == (AccessControl { paused: true, ..*old(self) }),
    {
        self.paused = true;
    }

    /// Unpauses the contract; `pauser` holds the pauser role and the contract
    /// is paused.
    pub fn unpause(&mut self, pauser: AccountId)
        requires
            old(self).holds(pauser, ROLE_PAUSER),
            old(self).paused,
        ensures
            *final(self) == (AccessControl { paused: false, ..*old(self) }),
    {
        self.paused = false;
    }

    /// Returns `true` when the contract is paused.
    pub fn is_paused(&self) -> (r: bool)
        ensures
            r == self.paused,
    {
        self.paused
    }

    /// Registers the fee governor; `admin` holds the default admin role.
    pub fn set_fee_governor(&mut self, admin: AccountId, governor: AccountId)
        requires
            old(self).holds(admin, ROLE_DEFAULT_ADMIN),
        ensures
            *final(self) == (AccessControl { fee_governor: Some(governor), ..*old(self) }),
    {
        self.fee_governor = Some(governor);
    }

    /// The registered fee governor, if any.
    pub fn get_fee_governor(&self) -> (r: Option<AccountId>)
        ensures
            r == self.fee_governor,
    {
        self.fee_governor
    }
}

/// Granting a role makes it held, and leaves every other assignment as it was.
pub proof fn lemma_grant_then_holds(
    before: AccessControl,
    after: AccessControl,
    role: u32,
    account: AccountId,
    other_role: u32,
    other: AccountId,
)
    requires
        after.roles@ == before.roles@.insert(pair_key(role, account)),
        other_role != role || other != account,
    ensures
        after.holds(account, role),
        after.holds(other, other_role) == before.holds(other, other_role),
{
    if pair_key(other_role, other) == pair_key(role, account) {
        lemma_pair_key_injective(other_role, other, role, account);
    }
}

/// Revoking a role makes it not held, and leaves every other assignment as it
/// was.
pub proof fn lemma_revoke_then_lacks(
    before: AccessControl,
    after: AccessControl,
    role: u32,
    account: AccountId,
    other_role: u32,
    other: AccountId,
)
    requires
        after.roles@ == before.roles@.remove(pair_key(role, account)),
        other_role != role || other != account,
    ensures
        !after.holds(account, role),
        after.holds(other, other_role) == before.holds(other, other_role),
{
    if pair_key(other_role, other) == pair_key(role, account) {
        lemma_pair_key_injective(other_role, other, role, account);
    }
}

/// Pausing and then unpausing restores the access-control state exactly.
pub proof fn lemma_pause_unpause_roundtrip(before: AccessControl, paused: AccessControl, after: AccessControl)
    requires
        !before.paused,
        paused == (AccessControl { paused: true, ..before }),
        after == (AccessControl { paused: false, ..paused }),
    ensures
        after == before,
{
}

} // verus!
