//! Two-step, time-limited role escalation.
//!
//! The default admin nominates an account for a role; the nominee accepts
//! within `ESCALATION_ACCEPTANCE_WINDOW` seconds, provided the nominating
//! admin is still the admin. Nominating for the default admin role requires
//! the nominee to hold the pauser role already.
//!
//! Refusals that the contract signals by panicking are preconditions here;
//! the entry points check them first.
use vstd::prelude::*;
use crate::campaign::AccountId;
use crate::errors::ContractError;

verus! {

/// Seconds within which a nominee must accept: 24 hours.
pub const ESCALATION_ACCEPTANCE_WINDOW: u64 = 86_400;

/// The roles that can be escalated to, plus any other tag (which never holds
/// a nomination or a role).
#[derive(Clone, Copy, Debug, PartialEq, Eq, Structural)]
pub enum RoleTag {
    DefaultAdmin,
    Pauser,
    Governance,
    Other,
}

/// A nomination waiting for acceptance.
#[derive(Clone, Copy, Debug, PartialEq, Eq, Structural)]
pub struct PendingNomination {
    pub nominee: AccountId,
    pub nominated_at: u64,
    pub nominator: AccountId,
}

/// Role holders and pending nominations.
#[derive(Clone, Copy, Debug, PartialEq, Eq, Structural)]
pub struct Privileges {
    pub default_admin: Option<AccountId>,
    pub pauser: Option<AccountId>,
    pub governance: Option<AccountId>,
    pub pending_default_admin: Option<PendingNomination>,
    pub pending_pauser: Option<PendingNomination>,
    pub pending_governance: Option<PendingNomination>,
}

/// The nomination has outlived the acceptance window at time `now`.
pub open spec fn expired(n: PendingNomination, now: u64) -> bool {
    now > n.nominated_at + ESCALATION_ACCEPTANCE_WINDOW
}

/// `caller` may accept nomination `n` at time `now` while `admin` is the
/// default admin: they are the nominee, the window is open, and the
/// nominator is still the admin.
pub open spec fn acceptable(n: PendingNomination, caller: AccountId, now: u64, admin: Option<AccountId>) -> bool {
    &&& caller == n.nominee
    &&& !expired(n, now)
    &&& admin == Some(n.nominator)
}

/// Why a nomination cannot be accepted; the entry points refuse (panic) with
/// the fault's message.
#[derive(Clone, Copy, Debug, PartialEq, Eq, Structural)]
pub enum NominationFault {
    NotNominee,
    Expired,
    AdminNotSet,
    NominatorReplaced,
}

/// The first acceptance check that nomination `n` fails for `caller` at
/// `now` while `admin` is the default admin, if any.
pub open spec fn nomination_fault(
    n: PendingNomination,
    caller: AccountId,
    now: u64,
    admin: Option<AccountId>,
) -> Option<NominationFault> {
    if caller != n.nominee {
        Some(NominationFault::NotNominee)
    } else if expired(n, now) {
        Some(NominationFault::Expired)
    } else if admin is None {
        Some(NominationFault::AdminNotSet)
    } else if admin != Some(n.nominator) {
        Some(NominationFault::NominatorReplaced)
    } else {
        None
    }
}

impl NominationFault {
    /// The message the contract refuses with.
    pub fn message(&self) -> (r: &'static str)
        ensures
            r == nomination_fault_message(*self),
    {
        match self {
            NominationFault::NotNominee => "not the nominee",
            NominationFault::Expired => "nomination expired",
            NominationFault::AdminNotSet => "DEFAULT_ADMIN_ROLE not set",
            NominationFault::NominatorReplaced => "nominator is no longer admin",
        }
    }
}

/// The refusal message of each fault.
pub open spec fn nomination_fault_message(f: NominationFault) -> &'static str {
    match f {
        NominationFault::NotNominee => "not the nominee",
        NominationFault::Expired => "nomination expired",
        NominationFault::AdminNotSet => "DEFAULT_ADMIN_ROLE not set",
        NominationFault::NominatorReplaced => "nominator is no longer admin",
    }
}

impl Privileges {
    /// The pending nomination for `tag`.
    pub open spec fn pending(&self, tag: RoleTag) -> Option<PendingNomination> {
        match tag {
            RoleTag::DefaultAdmin => self.pending_default_admin,
            RoleTag::Pauser => self.pending_pauser,
            RoleTag::Governance => self.pending_governance,
            RoleTag::Other => None,
        }
    }

    /// The holder of `tag`.
    pub open spec fn holder(&self, tag: RoleTag) -> Option<AccountId> {
        match tag {
            RoleTag::DefaultAdmin => self.default_admin,
            RoleTag::Pauser => self.pauser,
            RoleTag::Governance => self.governance,
            RoleTag::Other => None,
        }
    }

    /// Nominates `nominee` for the pauser role; `caller` is the default admin.
    pub fn nominate_pauser(&mut self, now: u64, caller: AccountId, nominee: AccountId)
        requires
            old(self).default_admin == Some(caller),
        ensures
            *final(self) == (Privileges {
                pending_pauser: Some(PendingNomination { nominee, nominated_at: now, nominator: caller }),
                ..*old(self)
            }),
    {
        self.pending_pauser = Some(PendingNomination { nominee, nominated_at: now, nominator: caller });
    }

    /// Nominates `nominee` for the governance address; `caller` is the
    /// default admin.
    pub fn nominate_governance(&mut self, now: u64, caller: AccountId, nominee: AccountId)
        requires
            old(self).default_admin == Some(caller),
        ensures
            *final(self) == (Privileges {
                pending_governance: Some(PendingNomination { nominee, nominated_at: now, nominator: caller }),
                ..*old(self)
            }),
    {
        self.pending_governance = Some(PendingNomination { nominee, nominated_at: now, nominator: caller });
    }

    /// Nominates the current pauser for the default admin role; `caller` is
    /// the default admin.
    pub fn nominate_default_admin(&mut self, now: u64, caller: AccountId, nominee: AccountId)
        requires
            old(self).default_admin == Some(caller),
            old(self).pauser == Some(nominee),
        ensures
            *final(self) == (Privileges {
                pending_default_admin: Some(PendingNomination { nominee, nominated_at: now, nominator: caller }),
                ..*old(self)
            }),
    {
        self.pending_default_admin = Some(PendingNomination { nominee, nominated_at: now, nominator: caller });
    }

    /// Checks, in order, that `caller` is the nominee, that the acceptance
    /// window is still open at `now`, that a default admin is set, and that
    /// the nominator is still that admin; reports the first check that fails.
    pub fn validate_nomination(&self, n: &PendingNomination, caller: AccountId, now: u64) -> (r: Result<
        (),
        NominationFault,
    >)
        ensures
            r == (match nomination_fault(*n, caller, now, self.default_admin) {
                Some(f) => Err(f),
                None => Ok::<(), NominationFault>(()),
            }),
            r is Ok <==> acceptable(*n, caller, now, self.default_admin),
    {
        if caller != n.nominee {
            return Err(NominationFault::NotNominee);
        }
        if now > n.nominated_at && now - n.nominated_at > ESCALATION_ACCEPTANCE_WINDOW {
            return Err(NominationFault::Expired);
        }
        match self.default_admin {
            None => Err(NominationFault::AdminNotSet),
            Some(admin) => if admin != n.nominator {
                Err(NominationFault::NominatorReplaced)
            } else {
                Ok(())
            },
        }
    }

    /// Accepts the pending pauser nomination: `caller` becomes the pauser and
    /// the nomination is cleared. Refused when none is pending.
    pub fn accept_role_pauser(&mut self, now: u64, caller: AccountId) -> (r: Result<(), ContractError>)
        requires
            old(self).pending_pauser matches Some(n) ==> acceptable(n, caller, now, old(self).default_admin),
        ensures
            r is Err <==> old(self).pending_pauser is None,
            r is Err ==> r == Err::<(), ContractError>(ContractError::AlreadyInitialized) && *final(self) == *old(self),
            r is Ok ==> *final(self) == (Privileges { pauser: Some(caller), pending_pauser: None, ..*old(self) }),
    {
        if self.pending_pauser.is_none() {
            return Err(ContractError::AlreadyInitialized);
        }
        self.pauser = Some(caller);
        self.pending_pauser = None;
        Ok(())
    }

    /// Accepts the pending governance nomination: `caller` becomes the
    /// governance address and the nomination is cleared. Refused when none is
    /// pending.
    pub fn accept_role_governance(&mut self, now: u64, caller: AccountId) -> (r: Result<(), ContractError>)
        requires
            old(self).pending_governance matches Some(n) ==> acceptable(n, caller, now, old(self).default_admin),
        ensures
            r is Err <==> old(self).pending_governance is None,
            r is Err ==> r == Err::<(), ContractError>(ContractError::AlreadyInitialized) && *final(self) == *old(self),
            r is Ok ==> *final(self) == (Privileges {
                governance: Some(caller),
                pending_governance: None,
                ..*old(self)
            }),
    {
        if self.pending_governance.is_none() {
            return Err(ContractError::AlreadyInitialized);
        }
        self.governance = Some(caller);
        self.pending_governance = None;
        Ok(())
    }

    /// Accepts the pending default admin nomination: `caller` replaces the
    /// default admin and the nomination is cleared. Refused when none is
    /// pending.
    pub fn accept_role_default_admin(&mut self, now: u64, caller: AccountId) -> (r: Result<(), ContractError>)
        requires
            old(self).pending_default_admin matches Some(n) ==> acceptable(n, caller, now, old(self).default_admin),
        ensures
            r is Err <==> old(self).pending_default_admin is None,
            r is Err ==> r == Err::<(), ContractError>(ContractError::AlreadyInitialized) && *final(self) == *old(self),
            r is Ok ==> *final(self) == (Privileges {
                default_admin: Some(caller),
                pending_default_admin: None,
                ..*old(self)
            }),
    {
        if self.pending_default_admin.is_none() {
            return Err(ContractError::AlreadyInitialized);
        }
        self.default_admin = Some(caller);
        self.pending_default_admin = None;
        Ok(())
    }

    /// Cancels the pending nomination for `tag`; `caller` is the default
    /// admin. Refused when none is pending.
    pub fn revoke_nomination(&mut self, caller: AccountId, tag: RoleTag) -> (r: Result<(), ContractError>)
        requires
            old(self).default_admin == Some(caller),
        ensures
            r is Err <==> old(self).pending(tag) is None,
            r is Err ==> r == Err::<(), ContractError>(ContractError::AlreadyInitialized) && *final(self) == *old(self),
            r is Ok ==> final(self).pending(tag) is None,
            r is Ok ==> *final(self) == (Privileges {
                pending_default_admin: final(self).pending_default_admin,
                pending_pauser: final(self).pending_pauser,
                pending_governance: final(self).pending_governance,
                ..*old(self)
            }),
            forall|t: RoleTag| t != tag ==> final(self).pending(t) == old(self).pending(t),
    {
        match tag {
            RoleTag::DefaultAdmin => {
                if self.pending_default_admin.is_none() {
                    return Err(ContractError::AlreadyInitialized);
                }
                self.pending_default_admin = None;
            },
            RoleTag::Pauser => {
                if self.pending_pauser.is_none() {
                    return Err(ContractError::AlreadyInitialized);
                }
                self.pending_pauser = None;
            },
            RoleTag::Governance => {
                if self.pending_governance.is_none() {
                    return Err(ContractError::AlreadyInitialized);
                }
                self.pending_governance = None;
            },
            RoleTag::Other => {
                return Err(ContractError::AlreadyInitialized);
            },
        }
        Ok(())
    }

    /// The nomination stored for `tag`, whether or not its window has closed.
    pub fn stored_nomination(&self, tag: RoleTag) -> (r: Option<PendingNomination>)
        ensures
            r == self.pending(tag),
    {
        match tag {
            RoleTag::DefaultAdmin => self.pending_default_admin,
            RoleTag::Pauser => self.pending_pauser,
            RoleTag::Governance => self.pending_governance,
            RoleTag::Other => None,
        }
    }

    /// The nomination pending for `tag` at time `now`: none once its
    /// acceptance window has passed.
    pub fn get_pending_nomination(&self, now: u64, tag: RoleTag) -> (r: Option<PendingNomination>)
        ensures
            r == (if self.pending(tag) matches Some(n) && !expired(n, now) {
                self.pending(tag)
            } else {
                None
            }),
    {
        match self.stored_nomination(tag) {
            None => None,
            Some(n) => if now > n.nominated_at && now - n.nominated_at > ESCALATION_ACCEPTANCE_WINDOW {
                None
            } else {
                Some(n)
            },
        }
    }

    /// Returns `true` when `addr` holds `tag`.
    pub fn has_role(&self, addr: AccountId, tag: RoleTag) -> (r: bool)
        ensures
            r == (self.holder(tag) == Some(addr)),
    {
        let holder = match tag {
            RoleTag::DefaultAdmin => self.default_admin,
            RoleTag::Pauser => self.pauser,
            RoleTag::Governance => self.governance,
            RoleTag::Other => None,
        };
        match holder {
            Some(a) => a == addr,
            None => false,
        }
    }
}

/// The two-step flow: a nomination made by the admin at `nominated_at` can be
/// accepted by the nominee at any time up to the end of the acceptance window
/// while that admin stays in office, and not by anyone else or any later;
/// accepting hands over the role and clears the nomination, so it cannot be
/// replayed.
pub proof fn lemma_nomination_flow(
    p0: Privileges,
    admin: AccountId,
    nominee: AccountId,
    nominated_at: u64,
    now: u64,
    caller: AccountId,
)
    requires
        p0.default_admin == Some(admin),
    ensures
        ({
            let n = PendingNomination { nominee, nominated_at, nominator: admin };
            let p1 = Privileges { pending_pauser: Some(n), ..p0 };
            let p2 = Privileges { pauser: Some(nominee), pending_pauser: None, ..p1 };
            &&& acceptable(n, caller, now, p1.default_admin) <==> caller == nominee && now
                <= nominated_at + ESCALATION_ACCEPTANCE_WINDOW
            &&& p2.holder(RoleTag::Pauser) == Some(nominee)
            &&& p2.pending(RoleTag::Pauser) is None
        }),
{
}

} // verus!
