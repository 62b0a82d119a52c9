//! The upgrade admin: registration, rotation, upgrade validation and the
//! rollback point kept before each upgrade.
//!
//! Refusals that the contract signals by panicking (no admin set, an admin
//! already set, an all-zero WASM hash, no rollback point) are preconditions
//! here; the entry points check them first.
use vstd::prelude::*;
use crate::campaign::AccountId;

verus! {

/// The admin of the upgrade mechanism and the WASM hash to roll back to.
#[derive(Clone, Copy, Debug)]
pub struct AdminRegistry {
    pub admin: Option<AccountId>,
    pub previous_wasm_hash: Option<[u8; 32]>,
}

/// Every byte of the hash is zero.
pub open spec fn all_zero(h: Seq<u8>) -> bool {
    forall|i: int| 0 <= i < h.len() ==> h[i] == 0
}

/// Returns `true` when every byte of `hash` is zero (a likely mistake that
/// upgrades refuse).
pub fn is_zero_hash(hash: &[u8; 32]) -> (r: bool)
    ensures
        r == all_zero(hash@),
{
    let mut i: usize = 0;
    while i < 32
        invariant
            i <= 32,
            hash@.len() == 32,
            forall|j: int| 0 <= j < i ==> hash@[j] == 0,
        decreases 32 - i,
    {
        if hash[i] != 0 {
            return false;
        }
        i = i + 1;
    }
    true
}

impl AdminRegistry {
    /// No admin and no rollback point.
    pub fn new() -> (r: AdminRegistry)
        ensures
            r.admin is None,
            r.previous_wasm_hash is None,
    {
        AdminRegistry { admin: None, previous_wasm_hash: None }
    }

    /// Stores the admin, once.
    pub fn set_admin(&mut self, admin: AccountId)
        requires
            old(self).admin is None,
        ensures
            *final(self) == (AdminRegistry { admin: Some(admin), ..*old(self) }),
    {
        self.admin = Some(admin);
    }

    /// The stored admin.
    pub fn get_admin(&self) -> (r: AccountId)
        requires
            self.admin is Some,
        ensures
            Some(r) == self.admin,
    {
        self.admin.unwrap()
    }

    /// Validates an upgrade to `new_wasm_hash` and returns the admin who must
    /// authorize it.
    pub fn validate_upgrade(&self, new_wasm_hash: &[u8; 32]) -> (r: AccountId)
        requires
            self.admin is Some,
            !all_zero(new_wasm_hash@),
        ensures
            Some(r) == self.admin,
    {
        self.admin.unwrap()
    }

    /// Hands the admin role to `new_admin`; returns the previous admin, who
    /// must authorize the hand-over.
    pub fn rotate_admin(&mut self, new_admin: AccountId) -> (r: AccountId)
        requires
            old(self).admin is Some,
        ensures
            Some(r) == old(self).admin,
            *final(self) == (AdminRegistry { admin: Some(new_admin), ..*old(self) }),
    {
        let current = self.admin.unwrap();
        self.admin = Some(new_admin);
        current
    }

    /// Returns `true` when an admin has been registered.
    pub fn admin_is_set(&self) -> (r: bool)
        ensures
            r == self.admin is Some,
    {
        self.admin.is_some()
    }

    /// Returns `true` when `candidate` is the registered admin (`false` when
    /// none is).
    pub fn is_admin(&self, candidate: AccountId) -> (r: bool)
        ensures
            r == (self.admin == Some(candidate)),
    {
        match self.admin {
            Some(a) => a == candidate,
            None => false,
        }
    }

    /// The admin who must authorize an upgrade.
    pub fn validate_admin_upgrade(&self) -> (r: AccountId)
        requires
            self.admin is Some,
        ensures
            Some(r) == self.admin,
    {
        self.admin.unwrap()
    }

    /// Keeps `current_wasm_hash` as the rollback point.
    pub fn store_current_wasm_hash(&mut self, current_wasm_hash: [u8; 32])
        ensures
            *final(self) == (AdminRegistry { previous_wasm_hash: Some(current_wasm_hash), ..*old(self) }),
    {
        self.previous_wasm_hash = Some(current_wasm_hash);
    }

    /// The rollback point, if one was kept.
    pub fn get_previous_wasm_hash(&self) -> (r: Option<[u8; 32]>)
        ensures
            r == self.previous_wasm_hash,
    {
        self.previous_wasm_hash
    }

    /// The hash to roll back to, and the admin who must authorize the
    /// rollback: only the admin may roll back.
    pub fn rollback_upgrade(&self) -> (r: (AccountId, [u8; 32]))
        requires
            self.admin is Some,
            self.previous_wasm_hash is Some,
        ensures
            Some(r.0) == self.admin,
            Some(r.1) == self.previous_wasm_hash,
    {
        (self.admin.unwrap(), self.previous_wasm_hash.unwrap())
    }
}

/// Rotation hands the role over: afterwards the new account is the admin,
/// the previous admin no longer is (unless it is the same account), and the
/// rollback point is untouched.
pub proof fn lemma_rotation_hands_over(before: AdminRegistry, previous: AccountId, new_admin: AccountId)
    requires
        before.admin == Some(previous),
    ensures
        ({
            let after = AdminRegistry { admin: Some(new_admin), ..before };
            &&& after.admin == Some(new_admin)
            &&& previous != new_admin ==> after.admin != Some(previous)
            &&& after.previous_wasm_hash == before.previous_wasm_hash
        }),
{
}

} // verus!
