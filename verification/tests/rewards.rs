use stellar_raise::batch::CampaignRef;
use stellar_raise::campaign::{AccountId, Campaign};
use stellar_raise::initialize::{execute_initialize, InitParams};
use stellar_raise::rewards::{mint_nfts_in_batch, MAX_NFT_MINT_BATCH};

const NFT: AccountId = 70;
const START: u64 = 1_000;

/// A campaign with `count` contributors (addresses 1000, 1001, ...), each
/// having contributed 10.
fn setup_with_contributors(count: u32) -> Campaign {
    let params = InitParams {
        admin: 1,
        creator: 2,
        token: 3,
        goal: 10,
        deadline: START + 3_600,
        min_contribution: 1,
        platform_config: None,
        bonus_goal: None,
        bonus_goal_description: None,
    };
    let mut c = execute_initialize(false, START, params).unwrap();
    c.nft_contract = Some(NFT);
    for i in 0..count {
        c.batch_contribute(1_000 + i as AccountId, &vec![CampaignRef { campaign: 500, amount: 10 }]);
    }
    c
}

#[test]
fn nft_batch_minted_event_data_matches_minted_count() {
    let c = setup_with_contributors(4);
    let minted = mint_nfts_in_batch(&c, &c.nft_contract);
    assert_eq!(minted.len() as u32, 4);
    assert_eq!(minted, vec![1_000, 1_001, 1_002, 1_003]);
}

#[test]
fn nft_minting_capped_at_max_batch() {
    let count = MAX_NFT_MINT_BATCH + 5;
    let c = setup_with_contributors(count);
    let minted = mint_nfts_in_batch(&c, &c.nft_contract);
    assert_eq!(minted.len() as u32, MAX_NFT_MINT_BATCH);
    let expected: Vec<AccountId> = (0..MAX_NFT_MINT_BATCH).map(|i| 1_000 + i as AccountId).collect();
    assert_eq!(minted, expected);
}

#[test]
fn nft_batch_minted_event_not_emitted_without_nft_contract() {
    let c = setup_with_contributors(3);
    assert!(mint_nfts_in_batch(&c, &None).is_empty());
}

#[test]
fn refunded_contributors_receive_no_nft() {
    let mut c = setup_with_contributors(3);
    c.contributions.insert(1_001, 0);
    let minted = mint_nfts_in_batch(&c, &c.nft_contract);
    assert_eq!(minted, vec![1_000, 1_002]);
}

#[test]
fn max_nft_mint_batch_value() {
    assert_eq!(MAX_NFT_MINT_BATCH, 50);
}

#[test]
fn nft_batch_minted_event_emitted_when_nft_contract_set() {
    let c = setup_with_contributors(2);
    let minted = mint_nfts_in_batch(&c, &Some(NFT));
    assert_eq!(minted, vec![1_000, 1_001]);
}
