//! Choosing which contributors receive a reward NFT.
use vstd::prelude::*;
use crate::campaign::{AccountId, Campaign};

verus! {

broadcast use vstd::std_specs::hash::group_hash_axioms;

/// Most NFTs minted by one batch; later contributors can be served by a
/// later batch.
pub const MAX_NFT_MINT_BATCH: u32 = 50;

/// A contributor is eligible for a reward NFT while their recorded
/// contribution is positive.
pub open spec fn nft_eligible(contributions: Map<AccountId, i128>) -> spec_fn(AccountId) -> bool {
    |a: AccountId| contributions.contains_key(a) && contributions[a] > 0
}

/// At most `MAX_NFT_MINT_BATCH` leading elements of `s`.
pub open spec fn batch_prefix(s: Seq<AccountId>) -> Seq<AccountId> {
    if s.len() > MAX_NFT_MINT_BATCH { s.take(MAX_NFT_MINT_BATCH as int) } else { s }
}

/// The recipients of one NFT batch: the first `MAX_NFT_MINT_BATCH` eligible
/// contributors in contribution order, or nobody when no NFT contract is set.
pub open spec fn nft_batch(
    contributors: Seq<AccountId>,
    contributions: Map<AccountId, i128>,
    nft_contract: Option<AccountId>,
) -> Seq<AccountId> {
    if nft_contract is None {
        Seq::empty()
    } else {
        batch_prefix(contributors.filter(nft_eligible(contributions)))
    }
}

/// Selects the contributors to receive a reward NFT from `nft_contract`, in
/// contributor order and at most `MAX_NFT_MINT_BATCH` of them; the caller mints
/// one NFT to each.
pub fn mint_nfts_in_batch(c: &Campaign, nft_contract: &Option<AccountId>) -> (r: Vec<AccountId>)
    ensures
        r@ == nft_batch(c.contributors@, c.contributions@, *nft_contract),
        r@.len() <= MAX_NFT_MINT_BATCH,
{
    let mut minted: Vec<AccountId> = Vec::new();
    if nft_contract.is_none() {
        return minted;
    }
    let ghost pred = nft_eligible(c.contributions@);
    let ghost all = c.contributors@;
    let n = c.contributors.len();
    let mut i: usize = 0;
    while i < n
        invariant
            n == all.len(),
            all == c.contributors@,
            nft_contract is Some,
            pred == nft_eligible(c.contributions@),
            i <= n,
            minted@ == batch_prefix(all.take(i as int).filter(pred)),
            minted@.len() <= MAX_NFT_MINT_BATCH,
        decreases n - i,
    {
        if minted.len() >= MAX_NFT_MINT_BATCH as usize {
            proof {
                lemma_full_batch_is_final(all, i as int, pred);
            }
            return minted;
        }
        let who = c.contributors[i];
        let amount = c.contribution(who);
        proof {
            reveal_with_fuel(Seq::<AccountId>::filter, 1);
            assert(all.take(i + 1).drop_last() =~= all.take(i as int));
            assert(all.take(i + 1).last() == who);
        }
        if amount > 0 {
            minted.push(who);
        }
        i = i + 1;
    }
    assert(all.take(n as int) =~= all);
    minted
}

/// Once a batch is full, later contributors no longer change it.
proof fn lemma_full_batch_is_final(all: Seq<AccountId>, i: int, pred: spec_fn(AccountId) -> bool)
    requires
        0 <= i <= all.len(),
        batch_prefix(all.take(i).filter(pred)).len() >= MAX_NFT_MINT_BATCH,
    ensures
        batch_prefix(all.take(i).filter(pred)) == batch_prefix(all.filter(pred)),
{
    let a = all.take(i);
    let b = all.skip(i);
    assert(all =~= a + b);
    Seq::filter_distributes_over_add(a, b, pred);
    let fa = a.filter(pred);
    let fall = all.filter(pred);
    assert(fall == fa + b.filter(pred));
    assert(fa.len() >= MAX_NFT_MINT_BATCH);
    assert(fa.take(MAX_NFT_MINT_BATCH as int) =~= fall.take(MAX_NFT_MINT_BATCH as int));
}

/// Every NFT recipient is a contributor with a positive recorded contribution.
pub proof fn lemma_recipients_are_eligible(
    contributors: Seq<AccountId>,
    contributions: Map<AccountId, i128>,
    nft_contract: Option<AccountId>,
    k: int,
)
    requires
        0 <= k < nft_batch(contributors, contributions, nft_contract).len(),
    ensures
        contributors.contains(nft_batch(contributors, contributions, nft_contract)[k]),
        contributions.contains_key(nft_batch(contributors, contributions, nft_contract)[k]),
        contributions[nft_batch(contributors, contributions, nft_contract)[k]] > 0,
{
    broadcast use vstd::seq_lib::group_filter_ensures;
    let f = contributors.filter(nft_eligible(contributions));
    let a = nft_batch(contributors, contributions, nft_contract)[k];
    assert(a == f[k]);
    assert(nft_eligible(contributions)(f[k]));
    assert(f.contains(a));
    contributors.lemma_filter_contains_rev(nft_eligible(contributions), a);
}

} // verus!
