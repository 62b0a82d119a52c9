//! Contributing to several campaigns at once, and reading several balances.
use vstd::prelude::*;
use crate::campaign::{AccountId, Campaign};

verus! {

broadcast use vstd::std_specs::hash::group_hash_axioms;

/// A campaign and the amount to contribute to it.
#[derive(Clone, Copy, Debug, PartialEq, Eq, Structural)]
pub struct CampaignRef {
    pub campaign: AccountId,
    pub amount: i128,
}

/// A contributor's recorded balance in a campaign.
#[derive(Clone, Copy, Debug, PartialEq, Eq, Structural)]
pub struct ContributionRecord {
    pub campaign: AccountId,
    pub amount: i128,
}

/// Sum of the amounts of a batch.
pub open spec fn batch_total(entries: Seq<CampaignRef>) -> int
    decreases entries.len(),
{
    if entries.len() == 0 { 0 } else { batch_total(entries.drop_last()) + entries.last().amount }
}

/// Every amount of the batch is positive.
pub open spec fn batch_amounts_positive(entries: Seq<CampaignRef>) -> bool {
    forall|i: int| 0 <= i < entries.len() ==> (#[trigger] entries[i]).amount > 0
}

/// A prefix of a batch of positive amounts sums to at most the whole, and
/// to more than nothing when it is not empty.
proof fn lemma_batch_prefix(entries: Seq<CampaignRef>, k: int)
    requires
        0 <= k <= entries.len(),
        batch_amounts_positive(entries),
    ensures
        0 <= batch_total(entries.take(k)) <= batch_total(entries),
    decreases entries.len(),
{
    if k == entries.len() {
        assert(entries.take(k) =~= entries);
        lemma_batch_nonneg(entries);
    } else {
        let t = entries.drop_last();
        assert forall|i: int| 0 <= i < t.len() implies (#[trigger] t[i]).amount > 0 by {
            assert(t[i] == entries[i]);
        }
        lemma_batch_prefix(t, k);
        assert(t.take(k) =~= entries.take(k));
        assert(entries.last() == entries[entries.len() - 1]);
    }
}

proof fn lemma_batch_nonneg(entries: Seq<CampaignRef>)
    requires
        batch_amounts_positive(entries),
    ensures
        0 <= batch_total(entries),
    decreases entries.len(),
{
    if entries.len() > 0 {
        let t = entries.drop_last();
        assert forall|i: int| 0 <= i < t.len() implies (#[trigger] t[i]).amount > 0 by {
            assert(t[i] == entries[i]);
        }
        lemma_batch_nonneg(t);
        assert(entries.last() == entries[entries.len() - 1]);
    }
}

impl Campaign {
    /// Records a batch of contributions by `contributor`: their running total
    /// and the raised total grow by the batch total, and they join the
    /// contributor list if new. The caller transfers each entry's amount from
    /// the contributor to the entry's campaign.
    pub fn batch_contribute(&mut self, contributor: AccountId, contributions: &Vec<CampaignRef>)
        requires
            contributions@.len() > 0,
            batch_amounts_positive(contributions@),
            old(self).contribution_of(contributor) + batch_total(contributions@) <= i128::MAX,
            old(self).total_raised + batch_total(contributions@) <= i128::MAX,
        ensures
            final(self).contributions@ == old(self).contributions@.insert(
                contributor,
                (old(self).contribution_of(contributor) + batch_total(contributions@)) as i128,
            ),
            final(self).total_raised == old(self).total_raised + batch_total(contributions@),
            final(self).contributors@ == if old(self).contributors@.contains(contributor) {
                old(self).contributors@
            } else {
                old(self).contributors@.push(contributor)
            },
            *final(self) == (Campaign {
                contributions: final(self).contributions,
                total_raised: final(self).total_raised,
                contributors: final(self).contributors,
                ..*old(self)
            }),
    {
        let ghost entries = contributions@;
        let ghost start = self.contribution_of(contributor);
        let ghost start_total = self.total_raised;
        let ghost start_contributions = self.contributions@;
        let ghost start_contributors = self.contributors@;
        let ghost c0 = *self;
        let n = contributions.len();
        let mut i: usize = 0;
        while i < n
            invariant
                n == entries.len(),
                entries == contributions@,
                i <= n,
                n > 0,
                batch_amounts_positive(entries),
                start + batch_total(entries) <= i128::MAX,
                start_total + batch_total(entries) <= i128::MAX,
                i > 0 ==> self.contributions@ == start_contributions.insert(
                    contributor,
                    (start + batch_total(entries.take(i as int))) as i128,
                ),
                i == 0 ==> self.contributions@ == start_contributions,
                i == 0 ==> self.contribution_of(contributor) == start,
                self.contribution_of(contributor) == start + batch_total(entries.take(i as int)),
                self.total_raised == start_total + batch_total(entries.take(i as int)),
                i > 0 ==> self.contributors@ == if start_contributors.contains(contributor) {
                    start_contributors
                } else {
                    start_contributors.push(contributor)
                },
                i == 0 ==> self.contributors@ == start_contributors,
                *self == (Campaign {
                    contributions: self.contributions,
                    total_raised: self.total_raised,
                    contributors: self.contributors,
                    ..c0
                }),
            decreases n - i,
        {
            let entry = contributions[i];
            proof {
                assert(entries.take(i + 1).drop_last() =~= entries.take(i as int));
                assert(entries.take(i + 1).last() == entries[i as int]);
                lemma_batch_prefix(entries, i + 1);
            }
            proof {
                if i > 0 && !start_contributors.contains(contributor) {
                    let pushed = start_contributors.push(contributor);
                    assert(pushed[start_contributors.len() as int] == contributor);
                    assert(pushed.contains(contributor));
                }
            }
            let prev = self.contribution(contributor);
            self.contributions.insert(contributor, prev + entry.amount);
            self.total_raised = self.total_raised + entry.amount;
            if !vec_contains(&self.contributors, contributor) {
                self.contributors.push(contributor);
            }
            proof {
                if start_contributors.contains(contributor) {
                    assert(self.contributors@ == start_contributors);
                }
                assert(self.contributions@ =~= start_contributions.insert(
                    contributor,
                    (start + batch_total(entries.take(i + 1))) as i128,
                ));
            }
            i = i + 1;
        }
        assert(entries.take(n as int) =~= entries);
    }

    /// Reads `contributor`'s balance for each listed campaign, in order.
    pub fn batch_get_contributions(&self, contributor: AccountId, campaigns: &Vec<AccountId>) -> (r: Vec<ContributionRecord>)
        ensures
            r@.len() == campaigns@.len(),
            forall|i: int| 0 <= i < r@.len() ==> (#[trigger] r@[i]) == (ContributionRecord {
                campaign: campaigns@[i],
                amount: self.contribution_of(contributor),
            }),
    {
        let mut results: Vec<ContributionRecord> = Vec::new();
        let mut i: usize = 0;
        while i < campaigns.len()
            invariant
                i <= campaigns@.len(),
                results@.len() == i,
                forall|j: int| 0 <= j < i ==> (#[trigger] results@[j]) == (ContributionRecord {
                    campaign: campaigns@[j],
                    amount: self.contribution_of(contributor),
                }),
            decreases campaigns@.len() - i,
        {
            let amount = self.contribution(contributor);
            results.push(ContributionRecord { campaign: campaigns[i], amount });
            i = i + 1;
        }
        results
    }

    /// Looks up `contributor`'s balance (zero when none is recorded).
    pub fn get_contribution_mapping(&self, contributor: AccountId) -> (r: i128)
        ensures
            r == self.contribution_of(contributor),
    {
        self.contribution(contributor)
    }

    /// Sets `contributor`'s balance to `amount`.
    pub fn set_contribution_mapping(&mut self, contributor: AccountId, amount: i128)
        ensures
            *final(self) == (Campaign {
                contributions: final(self).contributions,
                ..*old(self)
            }),
            final(self).contributions@ == old(self).contributions@.insert(contributor, amount),
    {
        self.contributions.insert(contributor, amount);
    }
}

/// Whether `v` holds `x`.
pub fn vec_contains(v: &Vec<AccountId>, x: AccountId) -> (r: bool)
    ensures
        r == v@.contains(x),
{
    let mut i: usize = 0;
    while i < v.len()
        invariant
            i <= v@.len(),
            forall|j: int| 0 <= j < i ==> v@[j] != x,
        decreases v@.len() - i,
    {
        if v[i] == x {
            assert(v@[i as int] == x);
            return true;
        }
        i = i + 1;
    }
    false
}

/// Contributing in a batch never lists a contributor twice.
pub proof fn lemma_batch_keeps_contributors_distinct(before: Seq<AccountId>, after: Seq<AccountId>, contributor: AccountId)
    requires
        before.no_duplicates(),
        after == if before.contains(contributor) { before } else { before.push(contributor) },
    ensures
        after.no_duplicates(),
{
    if !before.contains(contributor) {
        assert forall|i: int, j: int| 0 <= i < after.len() && 0 <= j < after.len() && i != j implies after[i]
            != after[j] by {
            if i < before.len() && j < before.len() {
                assert(after[i] == before[i] && after[j] == before[j]);
            } else if i < before.len() {
                assert(after[i] == before[i]);
                assert(before.contains(before[i]));
            } else {
                assert(after[j] == before[j]);
                assert(before.contains(before[j]));
            }
        }
    }
}

} // verus!
