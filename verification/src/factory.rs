//! The campaign factory's registry: an append-only log of deployed campaigns,
//! a platform moderator, and per-campaign moderation status.
//!
//! Deploying and initializing the campaign contract happens in the host; the
//! registry records the result. Refusals the factory signals by panicking
//! (already initialized, not initialized, wrong moderator, unregistered
//! campaign) are preconditions here; the entry points check them first.
use std::collections::HashMap;
use vstd::prelude::*;
use crate::batch::vec_contains;
use crate::campaign::AccountId;
use crate::initialize::InitParams;

verus! {

broadcast use vstd::std_specs::hash::group_hash_axioms;

/// The minimum contribution of campaigns the factory deploys.
pub const FACTORY_MIN_CONTRIBUTION: i128 = 1_000;

/// The parameters the factory initializes a freshly deployed campaign with:
/// the creator is also its admin, the minimum contribution is
/// `FACTORY_MIN_CONTRIBUTION`, and no platform fee or bonus goal is set.
pub fn create_campaign_params(creator: AccountId, token: AccountId, goal: i128, deadline: u64) -> (r: InitParams)
    ensures
        r == (InitParams {
            admin: creator,
            creator,
            token,
            goal,
            deadline,
            min_contribution: FACTORY_MIN_CONTRIBUTION,
            platform_config: None,
            bonus_goal: None,
            bonus_goal_description: None,
        }),
{
    InitParams {
        admin: creator,
        creator,
        token,
        goal,
        deadline,
        min_contribution: FACTORY_MIN_CONTRIBUTION,
        platform_config: None,
        bonus_goal: None,
        bonus_goal_description: None,
    }
}

/// Moderation status of a registered campaign.
#[derive(Clone, Copy, Debug, PartialEq, Eq, Structural)]
pub enum CampaignStatus {
    Active,
    Cancelled,
    Expired,
    Flagged,
}

/// The factory's state.
pub struct FactoryContract {
    /// Every deployed campaign, in deployment order; never shrinks.
    pub campaigns: Vec<AccountId>,
    /// The platform moderator, once initialized.
    pub admin: Option<AccountId>,
    /// Moderation status per campaign; absent means `Active`.
    pub statuses: HashMap<AccountId, CampaignStatus>,
}

/// The status recorded for `campaign`, `Active` when none is.
pub open spec fn status_in(statuses: Map<AccountId, CampaignStatus>, campaign: AccountId) -> CampaignStatus {
    if statuses.contains_key(campaign) { statuses[campaign] } else { CampaignStatus::Active }
}

/// The predicate selecting active campaigns.
pub open spec fn is_active(statuses: Map<AccountId, CampaignStatus>) -> spec_fn(AccountId) -> bool {
    |c: AccountId| status_in(statuses, c) == CampaignStatus::Active
}

/// The smaller of two integers.
pub open spec fn min_int(a: int, b: int) -> int {
    if a <= b { a } else { b }
}

/// Elements `offset .. offset + limit` of `s`, clamped to its bounds; empty
/// when `offset` is past the end or `limit` is zero.
pub open spec fn page(s: Seq<AccountId>, offset: int, limit: int) -> Seq<AccountId> {
    if offset >= s.len() || limit == 0 {
        Seq::empty()
    } else {
        s.subrange(offset, min_int(offset + limit, s.len() as int))
    }
}

/// Returns elements `offset .. offset + limit` of `items`, clamped to its
/// bounds, or nothing when `offset` is past the end or `limit` is zero.
pub fn bounded_slice(items: &Vec<AccountId>, offset: u32, limit: u32) -> (r: Vec<AccountId>)
    requires
        items@.len() <= u32::MAX,
    ensures
        r@ == page(items@, offset as int, limit as int),
{
    let len = items.len() as u32;
    let mut out: Vec<AccountId> = Vec::new();
    if offset >= len || limit == 0 {
        return out;
    }
    let end = if offset.saturating_add(limit) < len { offset.saturating_add(limit) } else { len };
    let mut i = offset;
    while i < end
        invariant
            offset <= i <= end,
            end as int == min_int(offset + limit, items@.len() as int),
            end <= items@.len(),
            out@ == items@.subrange(offset as int, i as int),
        decreases end - i,
    {
        out.push(items[i as usize]);
        assert(items@.subrange(offset as int, i + 1) =~= items@.subrange(offset as int, i as int).push(
            items@[i as int],
        ));
        i = i + 1;
    }
    out
}

/// Once the filtered prefix holds a full page past `offset`, the rest of the
/// list does not change that page.
proof fn lemma_page_settled(all: Seq<AccountId>, i: int, pred: spec_fn(AccountId) -> bool, offset: int, limit: int)
    requires
        0 <= i <= all.len(),
        0 <= offset,
        0 < limit,
        all.take(i).filter(pred).len() == offset + limit,
    ensures
        all.take(i).filter(pred).subrange(offset, offset + limit) == all.filter(pred).subrange(offset, offset + limit),
{
    let a = all.take(i);
    let b = all.skip(i);
    assert(all =~= a + b);
    Seq::filter_distributes_over_add(a, b, pred);
    assert(a.filter(pred).subrange(offset, offset + limit) =~= all.filter(pred).subrange(offset, offset + limit));
}

impl FactoryContract {
    /// An empty registry with no moderator.
    pub fn new() -> (r: FactoryContract)
        ensures
            r.campaigns@.len() == 0,
            r.admin is None,
            r.statuses@ == Map::<AccountId, CampaignStatus>::empty(),
    {
        FactoryContract { campaigns: Vec::new(), admin: None, statuses: HashMap::new() }
    }

    /// The active campaigns, in deployment order.
    pub open spec fn active(&self) -> Seq<AccountId> {
        self.campaigns@.filter(is_active(self.statuses@))
    }

    /// Appends a freshly deployed campaign to the registry.
    pub fn register_campaign(&mut self, campaign: AccountId)
        requires
            old(self).campaigns@.len() < u32::MAX,
        ensures
            final(self).campaigns@ == old(self).campaigns@.push(campaign),
            final(self).admin == old(self).admin,
            final(self).statuses == old(self).statuses,
    {
        self.campaigns.push(campaign);
    }

    /// The full, unfiltered registry.
    pub fn campaigns(&self) -> (r: Vec<AccountId>)
        ensures
            r@ == self.campaigns@,
    {
        let r = self.campaigns.clone();
        assert(r@ =~= self.campaigns@);
        r
    }

    /// The number of registered campaigns, flagged ones included.
    pub fn campaign_count(&self) -> (r: u32)
        requires
            self.campaigns@.len() <= u32::MAX,
        ensures
            r == self.campaigns@.len(),
    {
        self.campaigns.len() as u32
    }

    /// A page of the raw registry.
    pub fn campaigns_page(&self, offset: u32, limit: u32) -> (r: Vec<AccountId>)
        requires
            self.campaigns@.len() <= u32::MAX,
        ensures
            r@ == page(self.campaigns@, offset as int, limit as int),
    {
        bounded_slice(&self.campaigns, offset, limit)
    }

    /// The status of `campaign`, `Active` when it was never flagged.
    pub fn status_of(&self, campaign: AccountId) -> (r: CampaignStatus)
        ensures
            r == status_in(self.statuses@, campaign),
    {
        match self.statuses.get(&campaign) {
            Some(s) => *s,
            None => CampaignStatus::Active,
        }
    }

    /// A page of the active campaigns only: `offset` and `limit` count active
    /// campaigns, so flagging a campaign never shifts later page boundaries
    /// over an inactive entry.
    pub fn active_campaigns_page(&self, offset: u32, limit: u32) -> (r: Vec<AccountId>)
        ensures
            r@ == (if limit == 0 {
                Seq::<AccountId>::empty()
            } else {
                self.active().subrange(
                    min_int(offset as int, self.active().len() as int),
                    min_int(offset + limit, self.active().len() as int),
                )
            }),
    {
        let mut result: Vec<AccountId> = Vec::new();
        if limit == 0 {
            return result;
        }
        let ghost all = self.campaigns@;
        let ghost pred = is_active(self.statuses@);
        let n = self.campaigns.len();
        let mut skipped: u32 = 0;
        let mut i: usize = 0;
        while i < n
            invariant
                n == all.len(),
                all == self.campaigns@,
                pred == is_active(self.statuses@),
                limit > 0,
                i <= n,
                skipped as int == min_int(offset as int, all.take(i as int).filter(pred).len() as int),
                result@ == all.take(i as int).filter(pred).subrange(
                    skipped as int,
                    all.take(i as int).filter(pred).len() as int,
                ),
                result@.len() < limit,
            decreases n - i,
        {
            let campaign = self.campaigns[i];
            proof {
                reveal_with_fuel(Seq::<AccountId>::filter, 1);
                assert(all.take(i + 1).drop_last() =~= all.take(i as int));
                assert(all.take(i + 1).last() == campaign);
            }
            let ghost f = all.take(i as int).filter(pred);
            let ghost f2 = all.take(i + 1).filter(pred);
            if self.status_of(campaign) != CampaignStatus::Active {
                i = i + 1;
                continue;
            }
            assert(f2 == f.push(campaign));
            if skipped < offset {
                skipped = skipped + 1;
                i = i + 1;
                assert(result@ =~= f2.subrange(skipped as int, f2.len() as int));
                continue;
            }
            result.push(campaign);
            assert(result@ =~= f2.subrange(skipped as int, f2.len() as int));
            i = i + 1;
            if result.len() >= limit as usize {
                proof {
                    lemma_page_settled(all, i as int, pred, offset as int, limit as int);
                    assert(skipped == offset);
                    assert(all.filter(pred).len() >= offset + limit) by {
                        Seq::filter_distributes_over_add(all.take(i as int), all.skip(i as int), pred);
                        assert(all =~= all.take(i as int) + all.skip(i as int));
                    }
                }
                return result;
            }
        }
        assert(all.take(n as int) =~= all);
        result
    }

    /// Whether `campaign` is registered with this factory.
    pub fn is_registered(&self, campaign: AccountId) -> (r: bool)
        ensures
            r == self.campaigns@.contains(campaign),
    {
        vec_contains(&self.campaigns, campaign)
    }

    /// The moderation status of a registered campaign.
    pub fn campaign_status(&self, campaign: AccountId) -> (r: CampaignStatus)
        requires
            self.campaigns@.contains(campaign),
        ensures
            r == status_in(self.statuses@, campaign),
    {
        self.status_of(campaign)
    }

    /// Sets the platform moderator, once.
    pub fn initialize(&mut self, admin: AccountId)
        requires
            old(self).admin is None,
        ensures
            final(self).admin == Some(admin),
            final(self).campaigns == old(self).campaigns,
            final(self).statuses == old(self).statuses,
    {
        self.admin = Some(admin);
    }

    /// The platform moderator.
    pub fn admin(&self) -> (r: AccountId)
        requires
            self.admin is Some,
        ensures
            Some(r) == self.admin,
    {
        self.admin.unwrap()
    }

    /// Sets the moderation status of a registered campaign; `admin` is the
    /// moderator. The registry log itself is not touched.
    pub fn set_campaign_status(&mut self, admin: AccountId, campaign: AccountId, status: CampaignStatus)
        requires
            old(self).admin == Some(admin),
            old(self).campaigns@.contains(campaign),
        ensures
            final(self).statuses@ == old(self).statuses@.insert(campaign, status),
            final(self).campaigns == old(self).campaigns,
            final(self).admin == old(self).admin,
    {
        self.statuses.insert(campaign, status);
    }
}

/// Consecutive pages tile the list: a page of `l1` followed by the next page
/// of `l2` is the page of `l1 + l2`.
pub proof fn lemma_pages_tile(s: Seq<AccountId>, offset: int, l1: int, l2: int)
    requires
        0 <= offset,
        0 <= l1,
        0 <= l2,
    ensures
        page(s, offset, l1) + page(s, offset + l1, l2) == page(s, offset, l1 + l2),
{
    assert(page(s, offset, l1) + page(s, offset + l1, l2) =~= page(s, offset, l1 + l2));
}

/// Every campaign on an active page is registered and active.
pub proof fn lemma_active_page_members(f: FactoryContract, offset: int, limit: int, k: int)
    requires
        0 <= offset,
        0 < limit,
        0 <= k < f.active().subrange(
            min_int(offset, f.active().len() as int),
            min_int(offset + limit, f.active().len() as int),
        ).len(),
    ensures
        ({
            let p = f.active().subrange(
                min_int(offset, f.active().len() as int),
                min_int(offset + limit, f.active().len() as int),
            );
            f.campaigns@.contains(p[k]) && status_in(f.statuses@, p[k]) == CampaignStatus::Active
        }),
{
    broadcast use vstd::seq_lib::group_filter_ensures;
    let a = f.active();
    let lo = min_int(offset, a.len() as int);
    let x = a[lo + k];
    assert(is_active(f.statuses@)(x));
    assert(a.contains(x));
    f.campaigns@.lemma_filter_contains_rev(is_active(f.statuses@), x);
}

} // verus!
