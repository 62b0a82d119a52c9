//! Milestone-gated partial fund release.
//!
//! Once a campaign has ended with its goal met, the creator proposes a
//! schedule of milestones whose amounts add up exactly to the raised total,
//! which is frozen as the milestone basis. Backers vote with their contribution
//! as weight: a milestone is approved once the yes weight exceeds half the
//! basis and rejected once the no weight reaches half of it. Approved
//! milestones are released to the creator (minus the platform fee); backers
//! claim their pro-rata share of rejected ones. When every milestone is
//! settled the campaign becomes successful and reward NFTs are minted.
use vstd::prelude::*;
use crate::campaign::{
    make_pair_key, all_settled, milestone_sum, milestone_sum_with, pair_key, schedule_wf, AccountId, Campaign,
    Milestone, MilestoneInput, MilestoneStatus, Status,
};
use crate::errors::ContractError;
use crate::rewards::{mint_nfts_in_batch, nft_batch};
use crate::state_size::{milestone_description_ok, validate_milestone_description, MAX_MILESTONES};

verus! {

broadcast use vstd::std_specs::hash::group_hash_axioms;

/// How long a milestone stays open for voting: 14 days.
pub const MILESTONE_VOTING_PERIOD_SECS: u64 = 1_209_600;

// ── Schedule validation ──────────────────────────────────────────────────────

/// One proposed milestone is acceptable on its own.
pub open spec fn input_ok(item: MilestoneInput) -> bool {
    item.amount > 0 && milestone_description_ok(item.description@)
}

/// Sum of the proposed amounts.
pub open spec fn input_sum(items: Seq<MilestoneInput>) -> int
    decreases items.len(),
{
    if items.len() == 0 { 0 } else { input_sum(items.drop_last()) + items.last().amount }
}

/// Scans the proposed items in order, failing at the first unacceptable item
/// or at the first running sum that leaves the `i128` range (such a sum can
/// never match the raised total); otherwise yields the sum. Every refusal is
/// `InvalidMilestoneSchedule`.
pub open spec fn schedule_scan(items: Seq<MilestoneInput>) -> Result<int, ContractError>
    decreases items.len(),
{
    if items.len() == 0 {
        Ok(0)
    } else {
        match schedule_scan(items.drop_last()) {
            Err(e) => Err(e),
            Ok(s) => if !input_ok(items.last()) {
                Err(ContractError::InvalidMilestoneSchedule)
            } else if s + items.last().amount > i128::MAX {
                Err(ContractError::InvalidMilestoneSchedule)
            } else {
                Ok(s + items.last().amount)
            },
        }
    }
}

/// Outcome of validating a proposed schedule against the raised total.
pub open spec fn schedule_check(items: Seq<MilestoneInput>, total_raised: i128) -> Result<(), ContractError> {
    if items.len() == 0 || items.len() >= MAX_MILESTONES {
        Err(ContractError::InvalidMilestoneSchedule)
    } else {
        match schedule_scan(items) {
            Err(e) => Err(e),
            Ok(s) => if s == total_raised { Ok(()) } else { Err(ContractError::InvalidMilestoneSchedule) },
        }
    }
}

/// Validates a proposed milestone schedule against the frozen `total_raised`.
pub fn validate_milestone_schedule(milestones: &Vec<MilestoneInput>, total_raised: i128) -> (r: Result<(), ContractError>)
    ensures
        r == schedule_check(milestones@, total_raised),
{
    let len = milestones.len();
    if len == 0 || len >= MAX_MILESTONES as usize {
        return Err(ContractError::InvalidMilestoneSchedule);
    }
    let mut sum: i128 = 0;
    let mut i: usize = 0;
    while i < len
        invariant
            len == milestones@.len(),
            0 < len < MAX_MILESTONES,
            i <= len,
            schedule_scan(milestones@.take(i as int)) == Ok::<int, ContractError>(sum as int),
        decreases len - i,
    {
        let item = &milestones[i];
        assert(milestones@.take(i + 1).drop_last() =~= milestones@.take(i as int));
        assert(milestones@.take(i + 1).last() == milestones@[i as int]);
        if item.amount <= 0 {
            proof { lemma_scan_err_extends(milestones@, i as int + 1); }
            return Err(ContractError::InvalidMilestoneSchedule);
        }
        if !validate_milestone_description(item.description.as_slice()) {
            proof { lemma_scan_err_extends(milestones@, i as int + 1); }
            return Err(ContractError::InvalidMilestoneSchedule);
        }
        match sum.checked_add(item.amount) {
            Some(v) => {
                sum = v;
            },
            None => {
                proof { lemma_scan_err_extends(milestones@, i as int + 1); }
                return Err(ContractError::InvalidMilestoneSchedule);
            },
        }
        i = i + 1;
    }
    assert(milestones@.take(len as int) =~= milestones@);
    if sum != total_raised {
        return Err(ContractError::InvalidMilestoneSchedule);
    }
    Ok(())
}

/// A failure found in a prefix is the failure of the whole scan.
proof fn lemma_scan_err_extends(items: Seq<MilestoneInput>, k: int)
    requires
        0 <= k <= items.len(),
        schedule_scan(items.take(k)) is Err,
    ensures
        schedule_scan(items) == schedule_scan(items.take(k)),
    decreases items.len() - k,
{
    if k < items.len() {
        assert(items.take(k + 1).drop_last() =~= items.take(k));
        lemma_scan_err_extends(items, k + 1);
    } else {
        assert(items.take(k) =~= items);
    }
}

/// A successful scan accepted every item and yields the sum of the amounts.
pub proof fn lemma_scan_ok(items: Seq<MilestoneInput>)
    requires
        schedule_scan(items) is Ok,
    ensures
        schedule_scan(items) == Ok::<int, ContractError>(input_sum(items)),
        forall|i: int| 0 <= i < items.len() ==> input_ok(#[trigger] items[i]),
    decreases items.len(),
{
    if items.len() > 0 {
        lemma_scan_ok(items.drop_last());
        assert forall|i: int| 0 <= i < items.len() implies input_ok(#[trigger] items[i]) by {
            if i < items.len() - 1 {
                assert(items[i] == items.drop_last()[i]);
            }
        }
    }
}

// ── Vote resolution ──────────────────────────────────────────────────────────

/// The status a tally resolves to: approved once twice the yes weight exceeds
/// the basis, rejected once twice the no weight reaches it, undecided
/// otherwise (also when a doubled weight leaves the `i128` range).
pub open spec fn vote_resolution(yes_weight: i128, no_weight: i128, basis: i128) -> Option<MilestoneStatus> {
    if yes_weight * 2 > i128::MAX || yes_weight * 2 < i128::MIN {
        None
    } else if yes_weight * 2 > basis {
        Some(MilestoneStatus::Approved)
    } else if no_weight * 2 > i128::MAX || no_weight * 2 < i128::MIN {
        None
    } else if no_weight * 2 >= basis {
        Some(MilestoneStatus::Rejected)
    } else {
        None
    }
}

/// Resolves a milestone's vote tally against its frozen basis.
pub fn resolve_vote_status(yes_weight: i128, no_weight: i128, basis: i128) -> (r: Option<MilestoneStatus>)
    ensures
        r == vote_resolution(yes_weight, no_weight, basis),
        !out_of_range(yes_weight * 2) && yes_weight * 2 > basis ==> r == Some(MilestoneStatus::Approved),
        !out_of_range(yes_weight * 2) && !out_of_range(no_weight * 2) && yes_weight * 2 <= basis && no_weight * 2
            >= basis ==> r == Some(MilestoneStatus::Rejected),
        !out_of_range(yes_weight * 2) && !out_of_range(no_weight * 2) && yes_weight * 2 <= basis && no_weight * 2
            < basis ==> r is None,
{
    let yes2 = match yes_weight.checked_mul(2) {
        Some(v) => v,
        None => return None,
    };
    if yes2 > basis {
        return Some(MilestoneStatus::Approved);
    }
    let no2 = match no_weight.checked_mul(2) {
        Some(v) => v,
        None => return None,
    };
    if no2 >= basis {
        Some(MilestoneStatus::Rejected)
    } else {
        None
    }
}

/// Position of the first milestone with id `milestone_id`.
fn find_milestone_index(milestones: &Vec<Milestone>, milestone_id: u32) -> (r: Option<usize>)
    ensures
        r matches Some(i) ==> i < milestones@.len() && milestones@[i as int].id == milestone_id
            && forall|j: int| 0 <= j < i ==> (#[trigger] milestones@[j]).id != milestone_id,
        r is None ==> forall|j: int| 0 <= j < milestones@.len() ==> (#[trigger] milestones@[j]).id != milestone_id,
{
    let mut i: usize = 0;
    while i < milestones.len()
        invariant
            i <= milestones@.len(),
            forall|j: int| 0 <= j < i ==> (#[trigger] milestones@[j]).id != milestone_id,
        decreases milestones@.len() - i,
    {
        if milestones[i].id == milestone_id {
            return Some(i);
        }
        i = i + 1;
    }
    None
}

// ── Proposal ─────────────────────────────────────────────────────────────────

/// Summary of an accepted proposal: how many milestones, and the frozen basis.
#[derive(Clone, Copy, Debug, PartialEq, Eq, Structural)]
pub struct Proposal {
    pub count: u32,
    pub basis: i128,
}

/// Why a proposal is refused, if it is.
pub open spec fn propose_error(c: Campaign, now: u64, creator: AccountId, items: Seq<MilestoneInput>) -> Option<ContractError> {
    if c.status != Status::Active {
        Some(ContractError::CampaignNotActive)
    } else if creator != c.creator {
        Some(ContractError::Unauthorized)
    } else if now <= c.deadline {
        Some(ContractError::CampaignStillActive)
    } else if c.total_raised < c.goal {
        Some(ContractError::GoalNotReached)
    } else if c.milestones@.len() > 0 {
        Some(ContractError::MilestonesAlreadyProposed)
    } else if schedule_check(items, c.total_raised) is Err {
        Some(schedule_check(items, c.total_raised)->Err_0)
    } else if now + MILESTONE_VOTING_PERIOD_SECS > u64::MAX {
        Some(ContractError::Overflow)
    } else {
        None
    }
}

/// The milestone at position `i` of a freshly proposed schedule.
pub open spec fn proposed_milestone(m: Milestone, i: int, item: MilestoneInput, now: u64) -> bool {
    &&& m.id == i
    &&& m.description@ == item.description@
    &&& m.amount == item.amount
    &&& m.status == MilestoneStatus::Pending
    &&& m.yes_weight == 0
    &&& m.no_weight == 0
    &&& m.voting_deadline == now + MILESTONE_VOTING_PERIOD_SECS
}

/// Sum of amounts that agree position by position.
proof fn lemma_sum_matches_inputs(ms: Seq<Milestone>, items: Seq<MilestoneInput>)
    requires
        ms.len() == items.len(),
        forall|i: int| 0 <= i < ms.len() ==> (#[trigger] ms[i]).amount == items[i].amount,
    ensures
        milestone_sum(ms) == input_sum(items),
    decreases ms.len(),
{
    if ms.len() > 0 {
        let a = ms.drop_last();
        let b = items.drop_last();
        assert forall|i: int| 0 <= i < a.len() implies (#[trigger] a[i]).amount == b[i].amount by {
            assert(a[i] == ms[i]);
            assert(b[i] == items[i]);
        }
        lemma_sum_matches_inputs(a, b);
    }
}

impl Campaign {
    /// Proposes the milestone schedule of a campaign that ended with its goal
    /// met, freezing the raised total as the milestone basis.
    pub fn execute_propose_milestones(
        &mut self,
        now: u64,
        creator: AccountId,
        milestones_input: &Vec<MilestoneInput>,
    ) -> (r: Result<Proposal, ContractError>)
        requires
            old(self).wf(),
        ensures
            final(self).wf(),
            r is Err <==> propose_error(*old(self), now, creator, milestones_input@) is Some,
            r matches Err(e) ==> propose_error(*old(self), now, creator, milestones_input@) == Some(e)
                && *final(self) == *old(self),
            r matches Ok(p) ==> {
                &&& p.count == milestones_input@.len()
                &&& p.basis == old(self).total_raised
                &&& final(self).milestones@.len() == milestones_input@.len()
                &&& forall|i: int| 0 <= i < milestones_input@.len() ==> proposed_milestone(
                    #[trigger] final(self).milestones@[i], i, milestones_input@[i], now)
                &&& *final(self) == (Campaign {
                    milestones: final(self).milestones,
                    milestone_basis: Some(old(self).total_raised),
                    ..*old(self)
                })
            },
    {
        if self.status != Status::Active {
            return Err(ContractError::CampaignNotActive);
        }
        if creator != self.creator {
            return Err(ContractError::Unauthorized);
        }
        if now <= self.deadline {
            return Err(ContractError::CampaignStillActive);
        }
        if self.total_raised < self.goal {
            return Err(ContractError::GoalNotReached);
        }
        if self.milestones.len() > 0 {
            return Err(ContractError::MilestonesAlreadyProposed);
        }
        let total_raised = self.total_raised;
        match validate_milestone_schedule(milestones_input, total_raised) {
            Err(e) => return Err(e),
            Ok(()) => {},
        }
        let voting_deadline = match now.checked_add(MILESTONE_VOTING_PERIOD_SECS) {
            Some(v) => v,
            None => return Err(ContractError::Overflow),
        };
        proof {
            lemma_scan_ok(milestones_input@);
        }
        let len = milestones_input.len();
        let mut built: Vec<Milestone> = Vec::new();
        let mut i: usize = 0;
        while i < len
            invariant
                len == milestones_input@.len(),
                len < MAX_MILESTONES,
                i <= len,
                built@.len() == i,
                voting_deadline == now + MILESTONE_VOTING_PERIOD_SECS,
                forall|j: int| 0 <= j < i ==> proposed_milestone(#[trigger] built@[j], j, milestones_input@[j], now),
            decreases len - i,
        {
            let item = &milestones_input[i];
            let description = item.description.clone();
            assert(description@ =~= item.description@);
            built.push(Milestone {
                id: i as u32,
                description,
                amount: item.amount,
                status: MilestoneStatus::Pending,
                yes_weight: 0,
                no_weight: 0,
                voting_deadline,
            });
            i = i + 1;
        }
        proof {
            assert forall|j: int| 0 <= j < built@.len() implies (#[trigger] built@[j]).amount == milestones_input@[j].amount by {
                assert(proposed_milestone(built@[j], j, milestones_input@[j], now));
            }
            lemma_sum_matches_inputs(built@, milestones_input@);
            assert forall|j: int| 0 <= j < built@.len() implies (#[trigger] built@[j]).id == j && built@[j].amount > 0 by {
                assert(proposed_milestone(built@[j], j, milestones_input@[j], now));
                assert(input_ok(milestones_input@[j]));
            }
        }
        self.milestones = built;
        self.milestone_basis = Some(total_raised);
        Ok(Proposal { count: len as u32, basis: total_raised })
    }
}

// ── Schedule completion ──────────────────────────────────────────────────────

/// What happens when the last milestone settles: the released and rejected
/// totals, and the contributors who receive a reward NFT.
pub struct Completion {
    pub total_released: i128,
    pub total_rejected: i128,
    pub nft_recipients: Vec<AccountId>,
}

/// With positive amounts, the released and rejected sums are non-negative and
/// together at most the whole sum.
proof fn lemma_status_sums_bounded(s: Seq<Milestone>)
    requires
        forall|i: int| 0 <= i < s.len() ==> (#[trigger] s[i]).amount > 0,
    ensures
        0 <= milestone_sum_with(s, MilestoneStatus::Released),
        0 <= milestone_sum_with(s, MilestoneStatus::Rejected),
        milestone_sum_with(s, MilestoneStatus::Released) + milestone_sum_with(s, MilestoneStatus::Rejected)
            <= milestone_sum(s),
    decreases s.len(),
{
    if s.len() > 0 {
        let t = s.drop_last();
        assert forall|i: int| 0 <= i < t.len() implies (#[trigger] t[i]).amount > 0 by {
            assert(t[i] == s[i]);
        }
        lemma_status_sums_bounded(t);
        assert(s.last() == s[s.len() - 1]);
    }
}

/// With positive amounts, a prefix sums to at most the whole.
proof fn lemma_prefix_sum_bounded(s: Seq<Milestone>, k: int)
    requires
        0 <= k <= s.len(),
        forall|i: int| 0 <= i < s.len() ==> (#[trigger] s[i]).amount > 0,
    ensures
        milestone_sum(s.take(k)) <= milestone_sum(s),
    decreases s.len(),
{
    if k == s.len() {
        assert(s.take(k) =~= s);
    } else {
        let t = s.drop_last();
        assert forall|i: int| 0 <= i < t.len() implies (#[trigger] t[i]).amount > 0 by {
            assert(t[i] == s[i]);
        }
        lemma_prefix_sum_bounded(t, k);
        assert(t.take(k) =~= s.take(k));
        assert(s.last() == s[s.len() - 1]);
    }
}

impl Campaign {
    /// Checks the campaign invariant: a stored campaign read back from the
    /// host is handed to the milestone operations only when this holds.
    pub fn is_well_formed(&self) -> (r: bool)
        ensures
            r == self.wf(),
    {
        if let Some(pc) = &self.platform_config {
            if pc.fee_bps > 10_000 {
                return false;
            }
        }
        let n = self.milestones.len();
        if n == 0 {
            return true;
        }
        let basis = match self.milestone_basis {
            None => return false,
            Some(b) => b,
        };
        let ghost s = self.milestones@;
        let mut sum: i128 = 0;
        let mut i: usize = 0;
        while i < n
            invariant
                s == self.milestones@,
                n == s.len(),
                n > 0,
                self.milestone_basis == Some(basis),
                self.platform_config matches Some(c) ==> c.fee_bps <= 10_000,
                i <= n,
                sum == milestone_sum(s.take(i as int)),
                forall|j: int| 0 <= j < i ==> (#[trigger] s[j]).id == j && s[j].amount > 0,
            decreases n - i,
        {
            let m = &self.milestones[i];
            assert(s.take(i + 1).drop_last() =~= s.take(i as int));
            if m.id as usize != i || m.amount <= 0 {
                return false;
            }
            sum = match sum.checked_add(m.amount) {
                Some(v) => v,
                None => {
                    proof {
                        if self.wf() {
                            lemma_prefix_sum_bounded(s, i + 1);
                        }
                    }
                    return false;
                },
            };
            i = i + 1;
        }
        assert(s.take(n as int) =~= s);
        sum == basis
    }
}

impl Campaign {
    /// Once every milestone is released or rejected, marks the campaign
    /// successful and reports the settled totals and the NFT recipients.
    /// Leaves the campaign unchanged otherwise.
    pub fn maybe_complete_milestone_schedule(&mut self) -> (r: Option<Completion>)
        requires
            old(self).wf(),
        ensures
            final(self).wf(),
            r is Some <==> old(self).milestones@.len() > 0 && all_settled(old(self).milestones@),
            r is None ==> *final(self) == *old(self),
            r matches Some(c) ==> {
                &&& c.total_released == milestone_sum_with(old(self).milestones@, MilestoneStatus::Released)
                &&& c.total_rejected == milestone_sum_with(old(self).milestones@, MilestoneStatus::Rejected)
                &&& c.nft_recipients@ == nft_batch(old(self).contributors@, old(self).contributions@, old(self).nft_contract)
                &&& *final(self) == (Campaign { status: Status::Successful, ..*old(self) })
            },
    {
        let n = self.milestones.len();
        if n == 0 {
            return None;
        }
        let ghost s = self.milestones@;
        let ghost basis = self.milestone_basis->0;
        let mut total_released: i128 = 0;
        let mut total_rejected: i128 = 0;
        let mut settled = true;
        let mut i: usize = 0;
        while i < n
            invariant
                n == s.len(),
                s == self.milestones@,
                schedule_wf(s, self.milestone_basis),
                n > 0,
                basis == self.milestone_basis->0,
                i <= n,
                total_released == milestone_sum_with(s.take(i as int), MilestoneStatus::Released),
                total_rejected == milestone_sum_with(s.take(i as int), MilestoneStatus::Rejected),
                settled == all_settled(s.take(i as int)),
            decreases n - i,
        {
            let m = &self.milestones[i];
            proof {
                let t = s.take(i + 1);
                assert(t.drop_last() =~= s.take(i as int));
                assert(t.last() == s[i as int]);
                assert forall|j: int| 0 <= j < t.len() implies (#[trigger] t[j]).amount > 0 by {
                    assert(t[j] == s[j]);
                }
                lemma_status_sums_bounded(t);
                lemma_prefix_sum_bounded(s, i + 1);
            }
            match m.status {
                MilestoneStatus::Released => {
                    total_released = total_released + m.amount;
                },
                MilestoneStatus::Rejected => {
                    total_rejected = total_rejected + m.amount;
                },
                _ => {
                    settled = false;
                },
            }
            proof {
                let t = s.take(i + 1);
                if settled {
                    assert forall|j: int| 0 <= j < t.len() implies (#[trigger] t[j]).status
                        == MilestoneStatus::Released || t[j].status == MilestoneStatus::Rejected by {
                        if j < i {
                            assert(t[j] == s.take(i as int)[j]);
                        }
                    }
                } else {
                    if m.status != MilestoneStatus::Released && m.status != MilestoneStatus::Rejected {
                        assert(t[i as int] == s[i as int]);
                    } else {
                        let j = choose|j: int| 0 <= j < i && !((#[trigger] s.take(i as int)[j]).status
                            == MilestoneStatus::Released || s.take(i as int)[j].status == MilestoneStatus::Rejected);
                        assert(t[j] == s.take(i as int)[j]);
                    }
                }
            }
            i = i + 1;
        }
        assert(s.take(n as int) =~= s);
        if !settled {
            return None;
        }
        let recipients = mint_nfts_in_batch(self, &self.nft_contract);
        self.status = Status::Successful;
        Some(Completion { total_released, total_rejected, nft_recipients: recipients })
    }
}

// ── Shared facts about the schedule ──────────────────────────────────────────

/// Replacing a milestone by one with the same amount keeps the sum.
proof fn lemma_sum_update_same_amount(s: Seq<Milestone>, k: int, m: Milestone)
    requires
        0 <= k < s.len(),
        m.amount == s[k].amount,
    ensures
        milestone_sum(s.update(k, m)) == milestone_sum(s),
    decreases s.len(),
{
    let u = s.update(k, m);
    if k == s.len() - 1 {
        assert(u.drop_last() =~= s.drop_last());
    } else {
        assert(u.drop_last() =~= s.drop_last().update(k, m));
        lemma_sum_update_same_amount(s.drop_last(), k, m);
    }
}

/// Replacing milestone `k` by one with the same id and amount keeps the
/// schedule well formed.
proof fn lemma_schedule_wf_update(s: Seq<Milestone>, basis: Option<i128>, k: int, m: Milestone)
    requires
        schedule_wf(s, basis),
        0 <= k < s.len(),
        m.amount == s[k].amount,
        m.id == s[k].id,
    ensures
        schedule_wf(s.update(k, m), basis),
{
    lemma_sum_update_same_amount(s, k, m);
    let u = s.update(k, m);
    assert forall|i: int| 0 <= i < u.len() implies (#[trigger] u[i]).id == i && u[i].amount > 0 by {
        if i != k {
            assert(u[i] == s[i]);
        }
    }
}

/// In a well-formed schedule the milestone with id `id` sits at position `id`.
proof fn lemma_index_is_id(s: Seq<Milestone>, basis: Option<i128>, id: u32, found: Option<usize>)
    requires
        schedule_wf(s, basis),
        found matches Some(i) ==> i < s.len() && s[i as int].id == id,
        found is None ==> forall|j: int| 0 <= j < s.len() ==> (#[trigger] s[j]).id != id,
    ensures
        found is Some <==> (id as int) < s.len(),
        found matches Some(i) ==> i == id,
{
    if (id as int) < s.len() {
        assert(s[id as int].id == id);
    }
}

/// Whether `amount` leaves the `i128` range.
pub open spec fn out_of_range(x: int) -> bool {
    x > i128::MAX || x < i128::MIN
}

// ── Voting ───────────────────────────────────────────────────────────────────

/// What a vote did: the voter's weight, the new tally, the status the
/// milestone resolved to (if it did), and the schedule completion it caused.
pub struct VoteOutcome {
    pub weight: i128,
    pub yes_weight: i128,
    pub no_weight: i128,
    pub resolved: Option<MilestoneStatus>,
    pub completion: Option<Completion>,
}

/// Why a vote is refused, if it is.
pub open spec fn vote_error(c: Campaign, now: u64, voter: AccountId, id: u32, approve: bool) -> Option<ContractError> {
    if id as int >= c.milestones@.len() {
        Some(ContractError::MilestoneNotFound)
    } else {
        let m = c.milestones@[id as int];
        let w = c.contribution_of(voter);
        if m.status != MilestoneStatus::Pending || now >= m.voting_deadline {
            Some(ContractError::MilestoneNotPending)
        } else if c.has_voted(id, voter) {
            Some(ContractError::AlreadyVoted)
        } else if w == 0 {
            Some(ContractError::NoContributionWeight)
        } else if approve && out_of_range(m.yes_weight + w) {
            Some(ContractError::Overflow)
        } else if !approve && out_of_range(m.no_weight + w) {
            Some(ContractError::Overflow)
        } else {
            None
        }
    }
}

/// Milestone `m` after a vote of weight `w`, resolved against `basis`.
pub open spec fn tallied(m: Milestone, w: i128, approve: bool, basis: i128) -> Milestone {
    let yes = if approve { (m.yes_weight + w) as i128 } else { m.yes_weight };
    let no = if approve { m.no_weight } else { (m.no_weight + w) as i128 };
    let res = vote_resolution(yes, no, basis);
    Milestone {
        yes_weight: yes,
        no_weight: no,
        status: if res is Some { res->0 } else { m.status },
        ..m
    }
}

/// A successful vote of `voter` on milestone `id` at `now` takes `before`
/// to `after`: the milestone's tally grows by the voter's contribution, the
/// vote is recorded, and nothing else changes but, possibly, the status.
pub open spec fn vote_step(before: Campaign, after: Campaign, now: u64, voter: AccountId, id: u32, approve: bool) -> bool {
    &&& vote_error(before, now, voter, id, approve) is None
    &&& after.milestones@ == before.milestones@.update(
        id as int,
        tallied(before.milestones@[id as int], before.contribution_of(voter), approve, before.milestone_basis->0),
    )
    &&& after.milestone_votes@ == before.milestone_votes@.insert(pair_key(id, voter))
    &&& after == (Campaign {
        milestones: after.milestones,
        milestone_votes: after.milestone_votes,
        status: after.status,
        ..before
    })
}

impl Campaign {
    /// Records `voter`'s vote on milestone `milestone_id`, weighted by their
    /// contribution, and resolves the milestone once a side has its majority.
    pub fn execute_vote_milestone(&mut self, now: u64, voter: AccountId, milestone_id: u32, approve: bool) -> (r: Result<VoteOutcome, ContractError>)
        requires
            old(self).wf(),
        ensures
            final(self).wf(),
            r is Err <==> vote_error(*old(self), now, voter, milestone_id, approve) is Some,
            r matches Err(e) ==> vote_error(*old(self), now, voter, milestone_id, approve) == Some(e)
                && *final(self) == *old(self),
            r matches Ok(out) ==> {
                let id = milestone_id as int;
                let w = old(self).contribution_of(voter);
                let m2 = tallied(old(self).milestones@[id], w, approve, old(self).milestone_basis->0);
                let ms2 = old(self).milestones@.update(id, m2);
                &&& out.weight == w
                &&& out.yes_weight == m2.yes_weight
                &&& out.no_weight == m2.no_weight
                &&& out.resolved == vote_resolution(m2.yes_weight, m2.no_weight, old(self).milestone_basis->0)
                &&& (!out_of_range(m2.yes_weight * 2) && m2.yes_weight * 2 > old(self).milestone_basis->0
                    ==> out.resolved == Some(MilestoneStatus::Approved))
                &&& (!out_of_range(m2.yes_weight * 2) && !out_of_range(m2.no_weight * 2) && m2.yes_weight * 2
                    <= old(self).milestone_basis->0 && m2.no_weight * 2 >= old(self).milestone_basis->0
                    ==> out.resolved == Some(MilestoneStatus::Rejected))
                &&& final(self).milestones@ == ms2
                &&& final(self).milestone_votes@ == old(self).milestone_votes@.insert(pair_key(milestone_id, voter))
                &&& (out.completion is Some <==> out.resolved == Some(MilestoneStatus::Rejected) && all_settled(ms2))
                &&& out.completion matches Some(c) ==> {
                    &&& c.total_released == milestone_sum_with(ms2, MilestoneStatus::Released)
                    &&& c.total_rejected == milestone_sum_with(ms2, MilestoneStatus::Rejected)
                    &&& c.nft_recipients@ == nft_batch(old(self).contributors@, old(self).contributions@, old(self).nft_contract)
                }
                &&& final(self).status == if out.completion is Some { Status::Successful } else { old(self).status }
                &&& *final(self) == (Campaign {
                    milestones: final(self).milestones,
                    milestone_votes: final(self).milestone_votes,
                    status: final(self).status,
                    ..*old(self)
                })
            },
            r is Ok ==> vote_step(*old(self), *final(self), now, voter, milestone_id, approve),
    {
        let found = find_milestone_index(&self.milestones, milestone_id);
        proof {
            lemma_index_is_id(self.milestones@, self.milestone_basis, milestone_id, found);
        }
        let idx = match found {
            Some(i) => i,
            None => return Err(ContractError::MilestoneNotFound),
        };
        let m = &self.milestones[idx];
        if m.status != MilestoneStatus::Pending || now >= m.voting_deadline {
            return Err(ContractError::MilestoneNotPending);
        }
        if self.voted(milestone_id, voter) {
            return Err(ContractError::AlreadyVoted);
        }
        let weight = self.contribution(voter);
        if weight == 0 {
            return Err(ContractError::NoContributionWeight);
        }
        let mut yes_weight = m.yes_weight;
        let mut no_weight = m.no_weight;
        if approve {
            yes_weight = match yes_weight.checked_add(weight) {
                Some(v) => v,
                None => return Err(ContractError::Overflow),
            };
        } else {
            no_weight = match no_weight.checked_add(weight) {
                Some(v) => v,
                None => return Err(ContractError::Overflow),
            };
        }
        let basis = self.milestone_basis.unwrap();
        let resolved = resolve_vote_status(yes_weight, no_weight, basis);
        let ghost old_ms = self.milestones@;
        let key = make_pair_key(milestone_id, voter);
        self.milestone_votes.insert(key);
        {
            let mm = &mut self.milestones[idx];
            mm.yes_weight = yes_weight;
            mm.no_weight = no_weight;
            match resolved {
                Some(st) => {
                    mm.status = st;
                },
                None => {},
            }
        }
        proof {
            let m2 = tallied(old_ms[idx as int], weight, approve, basis);
            assert(self.milestones@ =~= old_ms.update(idx as int, m2));
            lemma_schedule_wf_update(old_ms, self.milestone_basis, idx as int, m2);
        }
        let completion = match resolved {
            Some(MilestoneStatus::Rejected) => self.maybe_complete_milestone_schedule(),
            _ => None,
        };
        Ok(VoteOutcome { weight, yes_weight, no_weight, resolved, completion })
    }
}

// ── Finalizing a vote after its window ───────────────────────────────────────

/// What finalizing did: whether the milestone was approved, its tally, and
/// the schedule completion it caused.
pub struct FinalizeOutcome {
    pub approved: bool,
    pub yes_weight: i128,
    pub no_weight: i128,
    pub completion: Option<Completion>,
}

/// Why finalizing is refused, if it is.
pub open spec fn finalize_error(c: Campaign, now: u64, id: u32) -> Option<ContractError> {
    if id as int >= c.milestones@.len() {
        Some(ContractError::MilestoneNotFound)
    } else if c.milestones@[id as int].status != MilestoneStatus::Pending {
        Some(ContractError::MilestoneNotPending)
    } else if now < c.milestones@[id as int].voting_deadline {
        Some(ContractError::MilestoneNotPending)
    } else {
        None
    }
}

/// The status a milestone is finalized to: its tally's resolution, and
/// rejected when the tally is undecided.
pub open spec fn finalized_status(m: Milestone, basis: i128) -> MilestoneStatus {
    let res = vote_resolution(m.yes_weight, m.no_weight, basis);
    if res is Some { res->0 } else { MilestoneStatus::Rejected }
}

impl Campaign {
    /// Resolves a pending milestone whose voting window has closed; silence
    /// counts as rejection. Anyone may call this.
    pub fn execute_finalize_milestone_vote(&mut self, now: u64, milestone_id: u32) -> (r: Result<FinalizeOutcome, ContractError>)
        requires
            old(self).wf(),
        ensures
            final(self).wf(),
            r is Err <==> finalize_error(*old(self), now, milestone_id) is Some,
            r matches Err(e) ==> finalize_error(*old(self), now, milestone_id) == Some(e)
                && *final(self) == *old(self),
            r matches Ok(out) ==> {
                let id = milestone_id as int;
                let m = old(self).milestones@[id];
                let st = finalized_status(m, old(self).milestone_basis->0);
                let ms2 = old(self).milestones@.update(id, Milestone { status: st, ..m });
                &&& out.approved == (st == MilestoneStatus::Approved)
                &&& (out.approved <==> !out_of_range(m.yes_weight * 2) && m.yes_weight * 2 > old(self).milestone_basis->0)
                &&& (!out.approved ==> final(self).milestones@[id].status == MilestoneStatus::Rejected)
                &&& out.yes_weight == m.yes_weight
                &&& out.no_weight == m.no_weight
                &&& final(self).milestones@ == ms2
                &&& (out.completion is Some <==> !out.approved && all_settled(ms2))
                &&& out.completion matches Some(c) ==> {
                    &&& c.total_released == milestone_sum_with(ms2, MilestoneStatus::Released)
                    &&& c.total_rejected == milestone_sum_with(ms2, MilestoneStatus::Rejected)
                    &&& c.nft_recipients@ == nft_batch(old(self).contributors@, old(self).contributions@, old(self).nft_contract)
                }
                &&& final(self).status == if out.completion is Some { Status::Successful } else { old(self).status }
                &&& *final(self) == (Campaign {
                    milestones: final(self).milestones,
                    status: final(self).status,
                    ..*old(self)
                })
            },
    {
        let found = find_milestone_index(&self.milestones, milestone_id);
        proof {
            lemma_index_is_id(self.milestones@, self.milestone_basis, milestone_id, found);
        }
        let idx = match found {
            Some(i) => i,
            None => return Err(ContractError::MilestoneNotFound),
        };
        let m = &self.milestones[idx];
        if m.status != MilestoneStatus::Pending {
            return Err(ContractError::MilestoneNotPending);
        }
        if now < m.voting_deadline {
            return Err(ContractError::MilestoneNotPending);
        }
        let yes_weight = m.yes_weight;
        let no_weight = m.no_weight;
        let basis = self.milestone_basis.unwrap();
        let new_status = match resolve_vote_status(yes_weight, no_weight, basis) {
            Some(st) => st,
            None => MilestoneStatus::Rejected,
        };
        let ghost old_ms = self.milestones@;
        {
            let mm = &mut self.milestones[idx];
            mm.status = new_status;
        }
        proof {
            let m2 = Milestone { status: new_status, ..old_ms[idx as int] };
            assert(self.milestones@ =~= old_ms.update(idx as int, m2));
            lemma_schedule_wf_update(old_ms, self.milestone_basis, idx as int, m2);
        }
        let approved = new_status == MilestoneStatus::Approved;
        let completion = if !approved {
            self.maybe_complete_milestone_schedule()
        } else {
            None
        };
        Ok(FinalizeOutcome { approved, yes_weight, no_weight, completion })
    }
}

// ── Releasing an approved milestone ──────────────────────────────────────────

/// What a release paid: the creator's payout, the platform fee, where the
/// fee went (only when a positive fee is due), and the completion it caused.
pub struct ReleaseOutcome {
    pub creator_payout: i128,
    pub platform_fee: i128,
    pub fee_payment: Option<(AccountId, i128)>,
    pub completion: Option<Completion>,
}

/// Why a release is refused, if it is.
pub open spec fn release_error(c: Campaign, creator: AccountId, id: u32) -> Option<ContractError> {
    if c.status != Status::Active {
        Some(ContractError::CampaignNotActive)
    } else if creator != c.creator {
        Some(ContractError::Unauthorized)
    } else if id as int >= c.milestones@.len() {
        Some(ContractError::MilestoneNotFound)
    } else if c.milestones@[id as int].status != MilestoneStatus::Approved {
        Some(ContractError::MilestoneNotApproved)
    } else if out_of_range(c.total_raised - c.milestones@[id as int].amount) {
        Some(ContractError::Overflow)
    } else if c.platform_config matches Some(cfg) && out_of_range(c.milestones@[id as int].amount * cfg.fee_bps) {
        Some(ContractError::FeeOverflow)
    } else {
        None
    }
}

/// The platform's share of `amount`: `amount * fee_bps / 10_000`, rounded
/// down, or nothing without a platform configuration.
pub open spec fn platform_fee(amount: i128, config: Option<crate::campaign::PlatformConfig>) -> int {
    match config {
        Some(cfg) => (amount * cfg.fee_bps) / 10_000,
        None => 0,
    }
}

impl Campaign {
    /// Pays an approved milestone out to the creator, minus the platform fee,
    /// and takes its amount off the raised total.
    pub fn execute_release_milestone(&mut self, creator: AccountId, milestone_id: u32) -> (r: Result<ReleaseOutcome, ContractError>)
        requires
            old(self).wf(),
        ensures
            final(self).wf(),
            r is Err <==> release_error(*old(self), creator, milestone_id) is Some,
            r matches Err(e) ==> release_error(*old(self), creator, milestone_id) == Some(e)
                && *final(self) == *old(self),
            r matches Ok(out) ==> {
                let id = milestone_id as int;
                let m = old(self).milestones@[id];
                let fee = platform_fee(m.amount, old(self).platform_config);
                let ms2 = old(self).milestones@.update(id, Milestone { status: MilestoneStatus::Released, ..m });
                &&& out.platform_fee == fee
                &&& out.creator_payout == m.amount - fee
                &&& 0 <= fee <= m.amount
                &&& (old(self).platform_config is None ==> out.platform_fee == 0 && out.creator_payout == m.amount)
                &&& (old(self).platform_config matches Some(cfg) ==> out.platform_fee * 10_000 <= m.amount * cfg.fee_bps
                    < (out.platform_fee + 1) * 10_000)
                &&& out.fee_payment == if fee > 0 {
                    Some((old(self).platform_config->0.address, fee as i128))
                } else {
                    None::<(AccountId, i128)>
                }
                &&& final(self).milestones@ == ms2
                &&& final(self).total_raised == old(self).total_raised - m.amount
                &&& (out.completion is Some <==> all_settled(ms2))
                &&& out.completion matches Some(c) ==> {
                    &&& c.total_released == milestone_sum_with(ms2, MilestoneStatus::Released)
                    &&& c.total_rejected == milestone_sum_with(ms2, MilestoneStatus::Rejected)
                    &&& c.nft_recipients@ == nft_batch(old(self).contributors@, old(self).contributions@, old(self).nft_contract)
                }
                &&& final(self).status == if out.completion is Some { Status::Successful } else { old(self).status }
                &&& *final(self) == (Campaign {
                    milestones: final(self).milestones,
                    total_raised: final(self).total_raised,
                    status: final(self).status,
                    ..*old(self)
                })
            },
    {
        if self.status != Status::Active {
            return Err(ContractError::CampaignNotActive);
        }
        if creator != self.creator {
            return Err(ContractError::Unauthorized);
        }
        let found = find_milestone_index(&self.milestones, milestone_id);
        proof {
            lemma_index_is_id(self.milestones@, self.milestone_basis, milestone_id, found);
        }
        let idx = match found {
            Some(i) => i,
            None => return Err(ContractError::MilestoneNotFound),
        };
        let m = &self.milestones[idx];
        if m.status != MilestoneStatus::Approved {
            return Err(ContractError::MilestoneNotApproved);
        }
        let amount = m.amount;
        let new_total = match self.total_raised.checked_sub(amount) {
            Some(v) => v,
            None => return Err(ContractError::Overflow),
        };
        let (creator_payout, platform_fee, fee_payment) = match self.platform_config {
            Some(config) => {
                let scaled = match amount.checked_mul(config.fee_bps as i128) {
                    Some(v) => v,
                    None => return Err(ContractError::FeeOverflow),
                };
                let fee = scaled / 10_000;
                assert(0 <= fee <= amount) by (nonlinear_arith)
                    requires
                        amount > 0,
                        config.fee_bps <= 10_000,
                        scaled == amount * config.fee_bps,
                        fee == scaled / 10_000,
                ;
                let payment = if fee > 0 { Some((config.address, fee)) } else { None };
                (amount - fee, fee, payment)
            },
            None => (amount, 0, None),
        };
        let ghost old_ms = self.milestones@;
        {
            let mm = &mut self.milestones[idx];
            mm.status = MilestoneStatus::Released;
        }
        self.total_raised = new_total;
        proof {
            let m2 = Milestone { status: MilestoneStatus::Released, ..old_ms[idx as int] };
            assert(self.milestones@ =~= old_ms.update(idx as int, m2));
            lemma_schedule_wf_update(old_ms, self.milestone_basis, idx as int, m2);
        }
        proof {
            lemma_fee_is_floor(amount, self.platform_config);
        }
        let completion = self.maybe_complete_milestone_schedule();
        Ok(ReleaseOutcome { creator_payout, platform_fee, fee_payment, completion })
    }
}

// ── Claiming a share of a rejected milestone ─────────────────────────────────

/// A non-empty schedule of positive amounts has a positive sum.
proof fn lemma_sum_positive(s: Seq<Milestone>)
    requires
        s.len() > 0,
        forall|i: int| 0 <= i < s.len() ==> (#[trigger] s[i]).amount > 0,
    ensures
        milestone_sum(s) > 0,
    decreases s.len(),
{
    let t = s.drop_last();
    assert(s.last() == s[s.len() - 1]);
    if t.len() > 0 {
        assert forall|i: int| 0 <= i < t.len() implies (#[trigger] t[i]).amount > 0 by {
            assert(t[i] == s[i]);
        }
        lemma_sum_positive(t);
    }
}

/// `p / d` rounded towards zero, for `d > 0`.
pub open spec fn div_toward_zero(p: int, d: int) -> int {
    if p >= 0 { p / d } else { -((-p) / d) }
}

/// `who`'s share of a rejected milestone: its amount times their weight over
/// the basis, rounded towards zero.
pub open spec fn refund_share(c: Campaign, who: AccountId, id: u32) -> int {
    div_toward_zero(c.milestones@[id as int].amount * c.contribution_of(who), c.milestone_basis->0 as int)
}

/// Why a refund claim is refused, if it is.
pub open spec fn claim_error(c: Campaign, who: AccountId, id: u32) -> Option<ContractError> {
    if id as int >= c.milestones@.len() {
        Some(ContractError::MilestoneNotFound)
    } else if c.milestones@[id as int].status != MilestoneStatus::Rejected {
        Some(ContractError::MilestoneNotRejected)
    } else if c.has_claimed(id, who) {
        Some(ContractError::NothingToRefund)
    } else if c.contribution_of(who) == 0 {
        Some(ContractError::NoContributionWeight)
    } else if out_of_range(c.milestones@[id as int].amount * c.contribution_of(who)) {
        Some(ContractError::Overflow)
    } else if refund_share(c, who, id) == 0 {
        Some(ContractError::NothingToRefund)
    } else if out_of_range(c.total_raised - refund_share(c, who, id)) {
        Some(ContractError::Overflow)
    } else {
        None
    }
}

/// A successful claim of `who`'s share of milestone `id` takes `before` to
/// `after`: the share is paid out of the raised total, the claim is
/// recorded, and nothing else changes.
pub open spec fn claim_step(before: Campaign, after: Campaign, who: AccountId, id: u32, share: i128) -> bool {
    &&& claim_error(before, who, id) is None
    &&& share == refund_share(before, who, id)
    &&& after.milestone_refunds@ == before.milestone_refunds@.insert(pair_key(id, who))
    &&& after.total_raised == before.total_raised - share
    &&& after == (Campaign {
        milestone_refunds: after.milestone_refunds,
        total_raised: after.total_raised,
        ..before
    })
}

impl Campaign {
    /// Pays `contributor` their pro-rata share of a rejected milestone, once.
    pub fn execute_claim_milestone_refund(&mut self, contributor: AccountId, milestone_id: u32) -> (r: Result<i128, ContractError>)
        requires
            old(self).wf(),
        ensures
            final(self).wf(),
            r is Err <==> claim_error(*old(self), contributor, milestone_id) is Some,
            r matches Err(e) ==> claim_error(*old(self), contributor, milestone_id) == Some(e)
                && *final(self) == *old(self),
            r matches Ok(share) ==> {
                &&& share == refund_share(*old(self), contributor, milestone_id)
                &&& final(self).milestone_refunds@ == old(self).milestone_refunds@.insert(pair_key(milestone_id, contributor))
                &&& final(self).total_raised == old(self).total_raised - share
                &&& *final(self) == (Campaign {
                    milestone_refunds: final(self).milestone_refunds,
                    total_raised: final(self).total_raised,
                    ..*old(self)
                })
            },
            r matches Ok(share) ==> claim_step(*old(self), *final(self), contributor, milestone_id, share),
    {
        let found = find_milestone_index(&self.milestones, milestone_id);
        proof {
            lemma_index_is_id(self.milestones@, self.milestone_basis, milestone_id, found);
        }
        let idx = match found {
            Some(i) => i,
            None => return Err(ContractError::MilestoneNotFound),
        };
        let m = &self.milestones[idx];
        if m.status != MilestoneStatus::Rejected {
            return Err(ContractError::MilestoneNotRejected);
        }
        if self.claimed_milestone_refund(milestone_id, contributor) {
            return Err(ContractError::NothingToRefund);
        }
        let weight = self.contribution(contributor);
        if weight == 0 {
            return Err(ContractError::NoContributionWeight);
        }
        let basis = self.milestone_basis.unwrap();
        proof {
            lemma_sum_positive(self.milestones@);
        }
        let product = match m.amount.checked_mul(weight) {
            Some(v) => v,
            None => return Err(ContractError::Overflow),
        };
        proof {
            let p = product as int;
            let d = basis as int;
            assert(0 <= (if p >= 0 { p } else { -p }) / d <= (if p >= 0 { p } else { -p })) by (nonlinear_arith)
                requires d > 0;
        }
        let share = match product.checked_div(basis) {
            Some(v) => v,
            None => return Err(ContractError::Overflow),
        };
        if share == 0 {
            return Err(ContractError::NothingToRefund);
        }
        let new_total = match self.total_raised.checked_sub(share) {
            Some(v) => v,
            None => return Err(ContractError::Overflow),
        };
        let key = make_pair_key(milestone_id, contributor);
        self.milestone_refunds.insert(key);
        self.total_raised = new_total;
        Ok(share)
    }
}

// ── Frontend helpers ─────────────────────────────────────────────────────────

/// The message shown for a milestone-related error code.
pub open spec fn milestone_error_message(code: u32) -> &'static str {
    if code == 19 {
        "A milestone schedule has already been proposed for this campaign"
    } else if code == 20 {
        "Milestone schedule is invalid: check amounts and descriptions, and confirm they sum exactly to the raised total"
    } else if code == 21 {
        "No milestone exists with that id"
    } else if code == 22 {
        "This milestone isn't open for voting (already resolved, or its voting window has closed)"
    } else if code == 23 {
        "This milestone hasn't been approved yet"
    } else if code == 24 {
        "You've already voted on this milestone"
    } else if code == 25 {
        "Only backers with a recorded contribution can vote or claim a refund"
    } else if code == 26 {
        "This campaign uses milestone-gated release; use the milestone actions instead"
    } else if code == 27 {
        "This milestone wasn't rejected, so there's no refund to claim"
    } else {
        "Unknown milestone error"
    }
}

/// Maps a milestone-related error code to a human-readable message.
pub fn describe_milestone_error(code: u32) -> (r: &'static str)
    ensures
        r == milestone_error_message(code),
{
    match code {
        19 => "A milestone schedule has already been proposed for this campaign",
        20 => "Milestone schedule is invalid: check amounts and descriptions, and confirm they sum exactly to the raised total",
        21 => "No milestone exists with that id",
        22 => "This milestone isn't open for voting (already resolved, or its voting window has closed)",
        23 => "This milestone hasn't been approved yet",
        24 => "You've already voted on this milestone",
        25 => "Only backers with a recorded contribution can vote or claim a refund",
        26 => "This campaign uses milestone-gated release; use the milestone actions instead",
        27 => "This milestone wasn't rejected, so there's no refund to claim",
        _ => "Unknown milestone error",
    }
}

/// Returns `true` for errors the caller can retry after adjusting input or
/// waiting: an invalid schedule, a closed vote, a repeated vote, a missing
/// contribution, a milestone that was not rejected.
pub fn is_milestone_error_retryable(code: u32) -> (r: bool)
    ensures
        r == (code == 20 || code == 22 || code == 24 || code == 25 || code == 27),
{
    code == 20 || code == 22 || code == 24 || code == 25 || code == 27
}

// ── Laws ─────────────────────────────────────────────────────────────────────

/// A scan of acceptable items whose sum fits succeeds with that sum.
proof fn lemma_scan_of_valid(items: Seq<MilestoneInput>)
    requires
        forall|i: int| 0 <= i < items.len() ==> input_ok(#[trigger] items[i]),
        input_sum(items) <= i128::MAX,
    ensures
        schedule_scan(items) == Ok::<int, ContractError>(input_sum(items)),
    decreases items.len(),
{
    if items.len() > 0 {
        let t = items.drop_last();
        assert forall|i: int| 0 <= i < t.len() implies input_ok(#[trigger] t[i]) by {
            assert(t[i] == items[i]);
        }
        assert(input_ok(items[items.len() - 1]));
        assert(items.last() == items[items.len() - 1]);
        lemma_scan_of_valid(t);
    }
}

/// A schedule is accepted exactly when it has between one and
/// `MAX_MILESTONES - 1` milestones, each with a positive amount and a valid
/// description, and the amounts add up exactly to the raised total.
pub proof fn lemma_schedule_accepted_iff(items: Seq<MilestoneInput>, total_raised: i128)
    ensures
        schedule_check(items, total_raised) is Ok <==> {
            &&& 0 < items.len() < MAX_MILESTONES
            &&& forall|i: int| 0 <= i < items.len() ==> input_ok(#[trigger] items[i])
            &&& input_sum(items) == total_raised
        },
{
    if 0 < items.len() < MAX_MILESTONES {
        if schedule_scan(items) is Ok {
            lemma_scan_ok(items);
        }
        if (forall|i: int| 0 <= i < items.len() ==> input_ok(#[trigger] items[i])) && input_sum(items) == total_raised {
            lemma_scan_of_valid(items);
        }
    }
}

/// When every milestone has settled, the released and rejected amounts
/// together account for the whole schedule, that is, for the frozen basis.
pub proof fn lemma_settled_totals_cover_basis(s: Seq<Milestone>)
    requires
        all_settled(s),
    ensures
        milestone_sum_with(s, MilestoneStatus::Released) + milestone_sum_with(s, MilestoneStatus::Rejected)
            == milestone_sum(s),
    decreases s.len(),
{
    if s.len() > 0 {
        let t = s.drop_last();
        assert forall|i: int| 0 <= i < t.len() implies (#[trigger] t[i]).status == MilestoneStatus::Released
            || t[i].status == MilestoneStatus::Rejected by {
            assert(t[i] == s[i]);
        }
        lemma_settled_totals_cover_basis(t);
        assert(s.last() == s[s.len() - 1]);
    }
}

/// A backer votes at most once per milestone: once their vote is recorded,
/// every further vote of theirs on that milestone is refused.
pub proof fn lemma_one_vote_per_milestone(
    before: Campaign,
    after: Campaign,
    now: u64,
    voter: AccountId,
    milestone_id: u32,
    approve: bool,
)
    requires
        after.milestone_votes@ == before.milestone_votes@.insert(pair_key(milestone_id, voter)),
    ensures
        vote_error(after, now, voter, milestone_id, approve) is Some,
{
    assert(after.has_voted(milestone_id, voter));
}

/// A backer claims a rejected milestone's refund share at most once.
pub proof fn lemma_one_claim_per_milestone(before: Campaign, after: Campaign, contributor: AccountId, milestone_id: u32)
    requires
        after.milestone_refunds@ == before.milestone_refunds@.insert(pair_key(milestone_id, contributor)),
    ensures
        claim_error(after, contributor, milestone_id) is Some,
{
    assert(after.has_claimed(milestone_id, contributor));
}

/// Approval needs a strict majority of the basis in yes weight; rejection
/// needs at least half of it in no weight.
pub proof fn lemma_resolution_thresholds(yes_weight: i128, no_weight: i128, basis: i128)
    ensures
        vote_resolution(yes_weight, no_weight, basis) == Some(MilestoneStatus::Approved) ==> yes_weight * 2 > basis,
        vote_resolution(yes_weight, no_weight, basis) == Some(MilestoneStatus::Rejected) ==> no_weight * 2 >= basis
            && yes_weight * 2 <= basis,
{
}

/// Sum of the refund shares of milestone `id` owed to each of `claimants`.
pub open spec fn claim_total(c: Campaign, id: u32, claimants: Seq<AccountId>) -> int
    decreases claimants.len(),
{
    if claimants.len() == 0 {
        0
    } else {
        claim_total(c, id, claimants.drop_last()) + refund_share(c, claimants.last(), id)
    }
}

/// Sum of the contributions of `claimants`.
pub open spec fn weight_total(c: Campaign, claimants: Seq<AccountId>) -> int
    decreases claimants.len(),
{
    if claimants.len() == 0 {
        0
    } else {
        weight_total(c, claimants.drop_last()) + c.contribution_of(claimants.last())
    }
}

proof fn lemma_claim_total_scaled(c: Campaign, id: u32, claimants: Seq<AccountId>)
    requires
        c.milestone_basis matches Some(b) && b > 0,
        0 <= id < c.milestones@.len(),
        c.milestones@[id as int].amount >= 0,
        forall|i: int| 0 <= i < claimants.len() ==> c.contribution_of(#[trigger] claimants[i]) >= 0,
    ensures
        0 <= claim_total(c, id, claimants),
        claim_total(c, id, claimants) * (c.milestone_basis->0 as int) <= c.milestones@[id as int].amount
            * weight_total(c, claimants),
    decreases claimants.len(),
{
    if claimants.len() > 0 {
        let t = claimants.drop_last();
        assert forall|i: int| 0 <= i < t.len() implies c.contribution_of(#[trigger] t[i]) >= 0 by {
            assert(t[i] == claimants[i]);
        }
        lemma_claim_total_scaled(c, id, t);
        let who = claimants.last();
        assert(c.contribution_of(who) >= 0) by {
            assert(who == claimants[claimants.len() - 1]);
        }
        let a: int = c.milestones@[id as int].amount as int;
        let w: int = c.contribution_of(who) as int;
        let b: int = c.milestone_basis->0 as int;
        let s: int = claim_total(c, id, t);
        let ws: int = weight_total(c, t);
        let q: int = refund_share(c, who, id);
        assert(a * w >= 0) by (nonlinear_arith)
            requires
                a >= 0,
                w >= 0,
        ;
        assert(q == (a * w) / b);
        assert(0 <= q && q * b <= a * w) by (nonlinear_arith)
            requires
                a * w >= 0,
                b > 0,
                q == (a * w) / b,
        ;
        assert((s + q) * b <= a * (ws + w)) by (nonlinear_arith)
            requires
                s * b <= a * ws,
                q * b <= a * w,
        ;
    }
}

/// Backers can never be refunded more than a rejected milestone holds: when
/// the claimants' contributions add up to at most the basis, their pro-rata
/// shares add up to at most the milestone's amount; rounding down only
/// leaves dust behind.
pub proof fn lemma_claims_within_milestone(c: Campaign, id: u32, claimants: Seq<AccountId>)
    requires
        c.wf(),
        0 <= id < c.milestones@.len(),
        forall|i: int| 0 <= i < claimants.len() ==> c.contribution_of(#[trigger] claimants[i]) >= 0,
        weight_total(c, claimants) <= c.milestone_basis->0,
    ensures
        claim_total(c, id, claimants) <= c.milestones@[id as int].amount,
{
    lemma_sum_positive(c.milestones@);
    assert(c.milestones@[id as int].amount > 0);
    lemma_claim_total_scaled(c, id, claimants);
    let a: int = c.milestones@[id as int].amount as int;
    let b: int = c.milestone_basis->0 as int;
    let s: int = claim_total(c, id, claimants);
    let ws: int = weight_total(c, claimants);
    assert(s <= a) by (nonlinear_arith)
        requires
            s * b <= a * ws,
            ws <= b,
            a > 0,
            b > 0,
    ;
}

/// With a fee of at most 100%, the platform's share of a released milestone
/// lies between nothing and the whole amount, so the creator's payout
/// (`amount - fee`) is never negative.
pub proof fn lemma_fee_within_amount(amount: i128, config: Option<crate::campaign::PlatformConfig>)
    requires
        amount >= 0,
        config matches Some(cfg) ==> cfg.fee_bps <= 10_000,
    ensures
        0 <= platform_fee(amount, config) <= amount,
{
    if let Some(cfg) = config {
        let a: int = amount as int;
        let f: int = cfg.fee_bps as int;
        assert(0 <= (a * f) / 10_000 <= a) by (nonlinear_arith)
            requires
                a >= 0,
                0 <= f <= 10_000,
        ;
    }
}

/// Sum of the contributions (as they stood in `c`) of the votes on
/// milestone `k` for side `side`.
pub open spec fn vote_tally(c: Campaign, votes: Seq<(AccountId, u32, bool)>, k: u32, side: bool) -> int
    decreases votes.len(),
{
    if votes.len() == 0 {
        0
    } else {
        vote_tally(c, votes.drop_last(), k, side) + if votes.last().1 == k && votes.last().2 == side {
            c.contribution_of(votes.last().0) as int
        } else {
            0
        }
    }
}

/// `states` runs through the successful votes `votes` (voter, milestone,
/// approve), cast at `times`, one after the other.
pub open spec fn vote_run(states: Seq<Campaign>, times: Seq<u64>, votes: Seq<(AccountId, u32, bool)>) -> bool {
    &&& states.len() == votes.len() + 1
    &&& times.len() == votes.len()
    &&& forall|i: int|
        0 <= i < votes.len() ==> vote_step(#[trigger] states[i], states[i + 1], times[i], votes[i].0, votes[i].1, votes[i].2)
}

/// Over any run of votes, each tally is its starting value plus the weights
/// of the votes cast for that side, every backer voting at most once per
/// milestone; contributions do not change meanwhile.
pub proof fn lemma_tally_is_sum_of_distinct_votes(
    states: Seq<Campaign>,
    times: Seq<u64>,
    votes: Seq<(AccountId, u32, bool)>,
    k: u32,
)
    requires
        vote_run(states, times, votes),
        0 <= k < states[0].milestones@.len(),
    ensures
        states.last().milestones@.len() == states[0].milestones@.len(),
        states.last().contributions@ == states[0].contributions@,
        states.last().milestones@[k as int].yes_weight == states[0].milestones@[k as int].yes_weight
            + vote_tally(states[0], votes, k, true),
        states.last().milestones@[k as int].no_weight == states[0].milestones@[k as int].no_weight
            + vote_tally(states[0], votes, k, false),
        forall|i: int| 0 <= i < votes.len() ==> states.last().has_voted(#[trigger] votes[i].1, votes[i].0),
        forall|i: int, j: int|
            0 <= i < j < votes.len() && #[trigger] votes[i].1 == #[trigger] votes[j].1 ==> votes[i].0 != votes[j].0,
    decreases votes.len(),
{
    let n = votes.len();
    if n == 0 {
        assert(states.last() == states[0]);
    } else {
        let s2 = states.drop_last();
        let t2 = times.drop_last();
        let v2 = votes.drop_last();
        assert forall|i: int| 0 <= i < v2.len() implies vote_step(
            #[trigger] s2[i],
            s2[i + 1],
            t2[i],
            v2[i].0,
            v2[i].1,
            v2[i].2,
        ) by {
            assert(s2[i] == states[i] && s2[i + 1] == states[i + 1] && t2[i] == times[i] && v2[i] == votes[i]);
            assert(vote_step(states[i], states[i + 1], times[i], votes[i].0, votes[i].1, votes[i].2));
        }
        lemma_tally_is_sum_of_distinct_votes(s2, t2, v2, k);
        let before = states[n - 1];
        let after = states[n as int];
        assert(before == s2.last());
        assert(after == states.last());
        let (voter, id, approve) = votes[n - 1];
        assert(vote_step(before, after, times[n - 1], voter, id, approve));
        assert(before.contribution_of(voter) == states[0].contribution_of(voter));
        assert(votes.last() == votes[n - 1]);
        assert(v2 =~= votes.drop_last());
        assert forall|i: int| 0 <= i < votes.len() implies after.has_voted(#[trigger] votes[i].1, votes[i].0) by {
            if i < n - 1 {
                assert(v2[i] == votes[i]);
                assert(before.has_voted(v2[i].1, v2[i].0));
            }
        }
        assert forall|i: int, j: int|
            0 <= i < j < votes.len() && #[trigger] votes[i].1 == #[trigger] votes[j].1 implies votes[i].0
                != votes[j].0 by {
            if j < n - 1 {
                assert(v2[i] == votes[i] && v2[j] == votes[j]);
            } else {
                assert(v2[i] == votes[i]);
                assert(before.has_voted(v2[i].1, v2[i].0));
            }
        }
    }
}

/// The accounts that claimed a share of milestone `k`, in claim order.
pub open spec fn claimers_on(claims: Seq<(AccountId, u32)>, k: u32) -> Seq<AccountId>
    decreases claims.len(),
{
    if claims.len() == 0 {
        Seq::empty()
    } else if claims.last().1 == k {
        claimers_on(claims.drop_last(), k).push(claims.last().0)
    } else {
        claimers_on(claims.drop_last(), k)
    }
}

/// Total paid out for milestone `k` by the claims.
pub open spec fn paid_on(claims: Seq<(AccountId, u32)>, shares: Seq<i128>, k: u32) -> int
    decreases claims.len(),
{
    if claims.len() == 0 || shares.len() == 0 {
        0
    } else {
        paid_on(claims.drop_last(), shares.drop_last(), k) + if claims.last().1 == k {
            shares.last() as int
        } else {
            0
        }
    }
}

/// `states` runs through the successful claims `claims` (contributor,
/// milestone), which paid `shares`, one after the other.
pub open spec fn claim_run(states: Seq<Campaign>, claims: Seq<(AccountId, u32)>, shares: Seq<i128>) -> bool {
    &&& states.len() == claims.len() + 1
    &&& shares.len() == claims.len()
    &&& forall|i: int|
        0 <= i < claims.len() ==> claim_step(#[trigger] states[i], states[i + 1], claims[i].0, claims[i].1, shares[i])
}

/// Removing one entry takes its contribution off the weight total.
proof fn lemma_weight_remove(c: Campaign, t: Seq<AccountId>, i: int)
    requires
        0 <= i < t.len(),
    ensures
        weight_total(c, t) == weight_total(c, t.remove(i)) + c.contribution_of(t[i]),
    decreases t.len(),
{
    if i == t.len() - 1 {
        assert(t.remove(i) =~= t.drop_last());
    } else {
        let d = t.drop_last();
        lemma_weight_remove(c, d, i);
        assert(t.remove(i).drop_last() =~= d.remove(i));
        assert(t.remove(i).last() == t.last());
        assert(d[i] == t[i]);
    }
}

/// Distinct accounts drawn from a list of non-negative contributions weigh
/// at most the whole list.
proof fn lemma_weight_subset(c: Campaign, s: Seq<AccountId>, t: Seq<AccountId>)
    requires
        s.no_duplicates(),
        t.no_duplicates(),
        forall|x: AccountId| s.contains(x) ==> t.contains(x),
        forall|i: int| 0 <= i < t.len() ==> c.contribution_of(#[trigger] t[i]) >= 0,
    ensures
        weight_total(c, s) <= weight_total(c, t),
    decreases s.len(),
{
    if s.len() == 0 {
        lemma_weight_nonneg(c, t);
    } else {
        let x = s.last();
        assert(s.contains(x)) by {
            assert(s[s.len() - 1] == x);
        }
        let i = t.index_of(x);
        let t2 = t.remove(i);
        let s2 = s.drop_last();
        lemma_weight_remove(c, t, i);
        assert forall|y: AccountId| s2.contains(y) implies t2.contains(y) by {
            let j = choose|j: int| 0 <= j < s2.len() && s2[j] == y;
            assert(s[j] == y);
            assert(y != x) by {
                assert(s[s.len() - 1] == x);
            }
            assert(t.contains(y));
            let k = t.index_of(y);
            assert(k != i);
            if k < i {
                assert(t2[k] == y);
            } else {
                assert(t2[k - 1] == y);
            }
        }
        assert forall|a: int, b: int| 0 <= a < b < t2.len() implies t2[a] != t2[b] by {
            let ia = if a < i { a } else { a + 1 };
            let ib = if b < i { b } else { b + 1 };
            assert(t2[a] == t[ia] && t2[b] == t[ib]);
        }
        assert forall|a: int, b: int| 0 <= a < b < s2.len() implies s2[a] != s2[b] by {
            assert(s2[a] == s[a] && s2[b] == s[b]);
        }
        assert forall|a: int| 0 <= a < t2.len() implies c.contribution_of(#[trigger] t2[a]) >= 0 by {
            let ia = if a < i { a } else { a + 1 };
            assert(t2[a] == t[ia]);
        }
        lemma_weight_subset(c, s2, t2);
        assert(c.contribution_of(t[i]) >= 0);
    }
}

proof fn lemma_weight_nonneg(c: Campaign, t: Seq<AccountId>)
    requires
        forall|i: int| 0 <= i < t.len() ==> c.contribution_of(#[trigger] t[i]) >= 0,
    ensures
        weight_total(c, t) >= 0,
    decreases t.len(),
{
    if t.len() > 0 {
        let d = t.drop_last();
        assert forall|i: int| 0 <= i < d.len() implies c.contribution_of(#[trigger] d[i]) >= 0 by {
            assert(d[i] == t[i]);
        }
        lemma_weight_nonneg(c, d);
        assert(t.last() == t[t.len() - 1]);
    }
}

/// What a run of claims keeps and what it pays for milestone `k`.
proof fn lemma_claim_run_facts(states: Seq<Campaign>, claims: Seq<(AccountId, u32)>, shares: Seq<i128>, k: u32)
    requires
        claim_run(states, claims, shares),
    ensures
        states.last().milestones == states[0].milestones,
        states.last().milestone_basis == states[0].milestone_basis,
        states.last().contributions == states[0].contributions,
        paid_on(claims, shares, k) == claim_total(states[0], k, claimers_on(claims, k)),
        claimers_on(claims, k).no_duplicates(),
        forall|x: AccountId| claimers_on(claims, k).contains(x) ==> states.last().has_claimed(k, x),
        forall|x: AccountId| claimers_on(claims, k).contains(x) ==> states[0].contribution_of(x) != 0,
    decreases claims.len(),
{
    let n = claims.len();
    if n == 0 {
        assert(states.last() == states[0]);
        assert(claimers_on(claims, k) =~= Seq::<AccountId>::empty());
    } else {
        let s2 = states.drop_last();
        let c2 = claims.drop_last();
        let h2 = shares.drop_last();
        assert forall|i: int| 0 <= i < c2.len() implies claim_step(
            #[trigger] s2[i],
            s2[i + 1],
            c2[i].0,
            c2[i].1,
            h2[i],
        ) by {
            assert(s2[i] == states[i] && s2[i + 1] == states[i + 1] && c2[i] == claims[i] && h2[i] == shares[i]);
            assert(claim_step(states[i], states[i + 1], claims[i].0, claims[i].1, shares[i]));
        }
        lemma_claim_run_facts(s2, c2, h2, k);
        let before = states[n - 1];
        let after = states[n as int];
        assert(before == s2.last());
        assert(after == states.last());
        let (who, id) = claims[n - 1];
        assert(claims.last() == claims[n - 1]);
        assert(shares.last() == shares[n - 1]);
        assert(claim_step(before, after, who, id, shares[n - 1]));
        let p2 = claimers_on(c2, k);
        assert(c2 =~= claims.drop_last());
        assert(h2 =~= shares.drop_last());
        if id == k {
            assert(claimers_on(claims, k) == p2.push(who));
            assert(refund_share(before, who, k) == refund_share(states[0], who, k));
            assert(p2.push(who).drop_last() =~= p2);
            assert(!p2.contains(who)) by {
                if p2.contains(who) {
                    assert(before.has_claimed(k, who));
                }
            }
            let q = p2.push(who);
            assert forall|a: int, b: int| 0 <= a < b < q.len() implies q[a] != q[b] by {
                if b < p2.len() {
                    assert(q[a] == p2[a] && q[b] == p2[b]);
                } else {
                    assert(q[a] == p2[a]);
                    assert(p2.contains(p2[a]));
                }
            }
            assert forall|x: AccountId| q.contains(x) implies after.has_claimed(k, x) && states[0].contribution_of(x)
                != 0 by {
                let j = choose|j: int| 0 <= j < q.len() && q[j] == x;
                if j < p2.len() {
                    assert(p2[j] == x);
                    assert(p2.contains(x));
                } else {
                    assert(x == who);
                }
            }
        } else {
            assert(claimers_on(claims, k) == p2);
        }
    }
}

/// Over any run of refund claims, a rejected milestone never pays out more
/// than its amount: as long as the contributions (all non-negative, every
/// contributing account listed once in `all`) add up to at most the frozen
/// basis, each backer claims once and the shares paid for milestone `k` add
/// up to at most that milestone's amount.
pub proof fn lemma_claims_over_time_within_milestone(
    states: Seq<Campaign>,
    claims: Seq<(AccountId, u32)>,
    shares: Seq<i128>,
    k: u32,
    all: Seq<AccountId>,
)
    requires
        claim_run(states, claims, shares),
        states[0].wf(),
        0 <= k < states[0].milestones@.len(),
        all.no_duplicates(),
        forall|a: AccountId| states[0].contribution_of(a) != 0 ==> all.contains(a),
        forall|i: int| 0 <= i < all.len() ==> states[0].contribution_of(#[trigger] all[i]) >= 0,
        weight_total(states[0], all) <= states[0].milestone_basis->0,
    ensures
        claimers_on(claims, k).no_duplicates(),
        paid_on(claims, shares, k) <= states[0].milestones@[k as int].amount,
{
    let c0 = states[0];
    lemma_claim_run_facts(states, claims, shares, k);
    let who = claimers_on(claims, k);
    assert forall|x: AccountId| who.contains(x) implies all.contains(x) by {
        assert(c0.contribution_of(x) != 0);
    }
    lemma_weight_subset(c0, who, all);
    assert forall|i: int| 0 <= i < who.len() implies c0.contribution_of(#[trigger] who[i]) >= 0 by {
        assert(who.contains(who[i]));
        assert(all.contains(who[i]));
        let j = all.index_of(who[i]);
        assert(all[j] == who[i]);
    }
    lemma_claims_within_milestone(c0, k, who);
}

/// The voting rule on the weights themselves: a tally whose doubled yes
/// weight exceeds the basis is approved, whatever the no weight; one whose
/// doubled yes weight stays within the basis while its doubled no weight
/// reaches it is rejected, whatever the yes weight; any other tally (a
/// doubled weight that leaves the `i128` range included) is undecided.
pub proof fn lemma_resolution_rule(yes_weight: i128, no_weight: i128, basis: i128)
    ensures
        !out_of_range(yes_weight * 2) && yes_weight * 2 > basis ==> vote_resolution(yes_weight, no_weight, basis)
            == Some(MilestoneStatus::Approved),
        !out_of_range(yes_weight * 2) && !out_of_range(no_weight * 2) && yes_weight * 2 <= basis && no_weight * 2
            >= basis ==> vote_resolution(yes_weight, no_weight, basis) == Some(MilestoneStatus::Rejected),
        !out_of_range(yes_weight * 2) && !out_of_range(no_weight * 2) && yes_weight * 2 <= basis && no_weight * 2
            < basis ==> vote_resolution(yes_weight, no_weight, basis) is None,
        out_of_range(yes_weight * 2) ==> vote_resolution(yes_weight, no_weight, basis) is None,
{
}

/// Finalizing approves a milestone exactly when its doubled yes weight
/// exceeds the basis; every other tally, an undecided one included, ends
/// rejected.
pub proof fn lemma_finalize_rule(m: Milestone, basis: i128)
    ensures
        finalized_status(m, basis) == MilestoneStatus::Approved <==> !out_of_range(m.yes_weight * 2) && m.yes_weight
            * 2 > basis,
        finalized_status(m, basis) != MilestoneStatus::Approved ==> finalized_status(m, basis)
            == MilestoneStatus::Rejected,
{
}

/// The platform fee is the amount times the fee rate in basis points,
/// divided by 10 000 and rounded down; nothing without a configuration.
pub proof fn lemma_fee_is_floor(amount: i128, config: Option<crate::campaign::PlatformConfig>)
    ensures
        config is None ==> platform_fee(amount, config) == 0,
        config matches Some(cfg) ==> platform_fee(amount, config) * 10_000 <= amount * cfg.fee_bps < (platform_fee(
            amount,
            config,
        ) + 1) * 10_000,
{
    if let Some(cfg) = config {
        let p: int = amount * cfg.fee_bps;
        let q: int = p / 10_000;
        assert(q * 10_000 <= p < (q + 1) * 10_000) by (nonlinear_arith)
            requires
                q == p / 10_000,
        ;
    }
}

} // verus!
