//! The crowdfund contract's state, held as plain values.
//!
//! Accounts (contributors, the creator, token and NFT contracts, the KYC
//! verifier) are identified by an `AccountId`: the contract's host maps each
//! address it sees to one such number and back.
use std::collections::{HashMap, HashSet};
use vstd::prelude::*;

verus! {

broadcast use vstd::std_specs::hash::group_hash_axioms;

/// Remaining lifetime, in ledgers, below which a stored entry is extended.
pub const LEDGER_THRESHOLD: u32 = 17_280;

/// Lifetime, in ledgers, a stored entry is extended to.
pub const LEDGER_BUMP_AMOUNT: u32 = 518_400;

/// Identifies an account or contract address.
pub type AccountId = u64;

/// Lifecycle status of a campaign.
#[derive(Clone, Copy, Debug, PartialEq, Eq, Structural)]
pub enum Status {
    Active,
    Successful,
    Cancelled,
}

/// Where the platform fee goes, and how large it is in basis points.
#[derive(Clone, Copy, Debug, PartialEq, Eq, Structural)]
pub struct PlatformConfig {
    pub address: AccountId,
    pub fee_bps: u32,
}

/// Voting status of a milestone.
#[derive(Clone, Copy, Debug, PartialEq, Eq, Structural)]
pub enum MilestoneStatus {
    Pending,
    Approved,
    Rejected,
    Released,
}

/// One slice of the raised funds, released only after a backer-majority vote.
#[derive(Clone, Debug)]
pub struct Milestone {
    pub id: u32,
    pub description: Vec<u8>,
    pub amount: i128,
    pub status: MilestoneStatus,
    pub yes_weight: i128,
    pub no_weight: i128,
    pub voting_deadline: u64,
}

/// A milestone as proposed by the creator.
#[derive(Clone, Debug)]
pub struct MilestoneInput {
    pub description: Vec<u8>,
    pub amount: i128,
}

/// Configuration of the optional KYC gate on contributions and pledges.
#[derive(Clone, Debug)]
pub struct KycGateConfig {
    pub verifier: AccountId,
    pub threshold: i128,
    pub enabled: bool,
    pub jurisdiction: Vec<u8>,
}

/// One entry of the campaign's public roadmap.
#[derive(Clone, Debug)]
pub struct RoadmapItem {
    pub date: u64,
    pub description: Vec<u8>,
}

/// The full state of one crowdfund campaign.
pub struct Campaign {
    pub admin: AccountId,
    pub creator: AccountId,
    pub token: AccountId,
    pub goal: i128,
    pub deadline: u64,
    pub min_contribution: i128,
    pub total_raised: i128,
    pub status: Status,
    pub platform_config: Option<PlatformConfig>,
    pub bonus_goal: Option<i128>,
    pub bonus_goal_description: Option<Vec<u8>>,
    pub bonus_goal_reached_emitted: bool,
    pub nft_contract: Option<AccountId>,
    /// The campaign's public roadmap, in order.
    pub roadmap: Vec<RoadmapItem>,
    /// Every account that has contributed, in order of first contribution.
    pub contributors: Vec<AccountId>,
    /// Running contribution total of each account (absent means zero).
    pub contributions: HashMap<AccountId, i128>,
    /// Running pledge total of each account (absent means zero).
    pub pledges: HashMap<AccountId, i128>,
    pub kyc_gate: Option<KycGateConfig>,
    pub milestones: Vec<Milestone>,
    /// Total raised when the milestone schedule was proposed; never changed after.
    pub milestone_basis: Option<i128>,
    /// `pair_key(milestone_id, voter)` for every vote cast.
    pub milestone_votes: HashSet<u128>,
    /// `pair_key(milestone_id, contributor)` for every refund share claimed.
    pub milestone_refunds: HashSet<u128>,
}

/// Packs a milestone id and an account into one set key.
pub open spec fn pair_key(id: u32, who: AccountId) -> u128 {
    (id as int * 0x1_0000_0000_0000_0000 + who as int) as u128
}

/// Computes `pair_key`.
pub fn make_pair_key(id: u32, who: AccountId) -> (r: u128)
    ensures
        r == pair_key(id, who),
{
    assert(id as int * 0x1_0000_0000_0000_0000 <= 0xffff_ffff * 0x1_0000_0000_0000_0000)
        by (nonlinear_arith)
        requires
            id <= 0xffff_ffff,
    ;
    (id as u128) * 0x1_0000_0000_0000_0000u128 + (who as u128)
}

/// Distinct (milestone, account) pairs have distinct keys.
pub proof fn lemma_pair_key_injective(a: u32, x: AccountId, b: u32, y: AccountId)
    requires
        pair_key(a, x) == pair_key(b, y),
    ensures
        a == b && x == y,
{
    let k: int = 0x1_0000_0000_0000_0000;
    assert(a as int * k + x as int <= 0xffff_ffff * k + (k - 1)) by (nonlinear_arith)
        requires a <= 0xffff_ffff, x < k, k == 0x1_0000_0000_0000_0000int;
    assert(b as int * k + y as int <= 0xffff_ffff * k + (k - 1)) by (nonlinear_arith)
        requires b <= 0xffff_ffff, y < k, k == 0x1_0000_0000_0000_0000int;
    assert(a as int * k + x as int == b as int * k + y as int);
    assert(a == b && x == y) by (nonlinear_arith)
        requires
            a as int * k + x as int == b as int * k + y as int,
            0 <= x < k,
            0 <= y < k,
            0 <= a,
            0 <= b,
            k > 0,
    ;
}

/// Sum of the amounts of all milestones.
pub open spec fn milestone_sum(s: Seq<Milestone>) -> int
    decreases s.len(),
{
    if s.len() == 0 { 0 } else { milestone_sum(s.drop_last()) + s.last().amount }
}

/// Sum of the amounts of the milestones with status `st`.
pub open spec fn milestone_sum_with(s: Seq<Milestone>, st: MilestoneStatus) -> int
    decreases s.len(),
{
    if s.len() == 0 {
        0
    } else {
        milestone_sum_with(s.drop_last(), st) + if s.last().status == st { s.last().amount } else { 0 }
    }
}

/// Every milestone has reached a terminal status.
pub open spec fn all_settled(s: Seq<Milestone>) -> bool {
    forall|i: int|
        0 <= i < s.len() ==> (#[trigger] s[i]).status == MilestoneStatus::Released || s[i].status
            == MilestoneStatus::Rejected
}

/// A proposed milestone schedule is well formed: ids are positions, amounts
/// are positive, and the amounts add up to the frozen basis.
pub open spec fn schedule_wf(s: Seq<Milestone>, basis: Option<i128>) -> bool {
    if s.len() == 0 {
        true
    } else {
        &&& basis is Some
        &&& milestone_sum(s) == basis->0
        &&& forall|i: int| 0 <= i < s.len() ==> (#[trigger] s[i]).id == i && s[i].amount > 0
    }
}

impl Campaign {
    /// The invariant every stored campaign satisfies.
    pub open spec fn wf(&self) -> bool {
        &&& schedule_wf(self.milestones@, self.milestone_basis)
        &&& self.platform_config matches Some(c) ==> c.fee_bps <= 10_000
    }

    /// Contribution total of `who` (zero when none is recorded).
    pub open spec fn contribution_of(&self, who: AccountId) -> i128 {
        if self.contributions@.contains_key(who) { self.contributions@[who] } else { 0 }
    }

    /// Pledge total of `who` (zero when none is recorded).
    pub open spec fn pledge_of(&self, who: AccountId) -> i128 {
        if self.pledges@.contains_key(who) { self.pledges@[who] } else { 0 }
    }

    /// `who` has voted on milestone `id`.
    pub open spec fn has_voted(&self, id: u32, who: AccountId) -> bool {
        self.milestone_votes@.contains(pair_key(id, who))
    }

    /// `who` has claimed a refund share of milestone `id`.
    pub open spec fn has_claimed(&self, id: u32, who: AccountId) -> bool {
        self.milestone_refunds@.contains(pair_key(id, who))
    }

    /// Returns the contribution total of `who`.
    pub fn contribution(&self, who: AccountId) -> (r: i128)
        ensures
            r == self.contribution_of(who),
    {
        match self.contributions.get(&who) {
            Some(v) => *v,
            None => 0,
        }
    }

    /// Returns the pledge total of `who`.
    pub fn pledge(&self, who: AccountId) -> (r: i128)
        ensures
            r == self.pledge_of(who),
    {
        match self.pledges.get(&who) {
            Some(v) => *v,
            None => 0,
        }
    }

    /// Returns whether `who` has voted on milestone `id`.
    pub fn voted(&self, id: u32, who: AccountId) -> (r: bool)
        ensures
            r == self.has_voted(id, who),
    {
        let k = make_pair_key(id, who);
        self.milestone_votes.contains(&k)
    }

    /// Returns whether `who` has claimed a refund share of milestone `id`.
    pub fn claimed_milestone_refund(&self, id: u32, who: AccountId) -> (r: bool)
        ensures
            r == self.has_claimed(id, who),
    {
        let k = make_pair_key(id, who);
        self.milestone_refunds.contains(&k)
    }
}

} // verus!
