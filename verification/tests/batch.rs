use stellar_raise::batch::{vec_contains, CampaignRef, ContributionRecord};
use stellar_raise::campaign::{AccountId, Campaign};
use stellar_raise::initialize::{execute_initialize, InitParams};

const ALICE: AccountId = 10;
const BOB: AccountId = 11;

fn campaign() -> Campaign {
    let params = InitParams {
        admin: 1,
        creator: 2,
        token: 3,
        goal: 1_000_000,
        deadline: 10_000,
        min_contribution: 1,
        platform_config: None,
        bonus_goal: None,
        bonus_goal_description: None,
    };
    execute_initialize(false, 1_000, params).unwrap()
}

#[test]
fn batch_adds_the_batch_total() {
    let mut c = campaign();
    let batch = vec![
        CampaignRef { campaign: 500, amount: 100 },
        CampaignRef { campaign: 501, amount: 250 },
        CampaignRef { campaign: 502, amount: 5 },
    ];
    c.batch_contribute(ALICE, &batch);
    assert_eq!(c.contribution(ALICE), 355);
    assert_eq!(c.total_raised, 355);
    assert_eq!(c.contributors, vec![ALICE]);
}

#[test]
fn repeated_batches_list_a_contributor_once() {
    let mut c = campaign();
    c.batch_contribute(ALICE, &vec![CampaignRef { campaign: 500, amount: 1 }]);
    c.batch_contribute(BOB, &vec![CampaignRef { campaign: 500, amount: 2 }]);
    c.batch_contribute(ALICE, &vec![CampaignRef { campaign: 500, amount: 3 }]);
    assert_eq!(c.contributors, vec![ALICE, BOB]);
    assert_eq!(c.contribution(ALICE), 4);
    assert_eq!(c.contribution(BOB), 2);
    assert_eq!(c.total_raised, 6);
}

#[test]
fn batch_get_contributions_reads_each_campaign() {
    let mut c = campaign();
    c.set_contribution_mapping(ALICE, 42);
    let records = c.batch_get_contributions(ALICE, &vec![500, 501]);
    assert_eq!(
        records,
        vec![ContributionRecord { campaign: 500, amount: 42 }, ContributionRecord { campaign: 501, amount: 42 }]
    );
    assert!(c.batch_get_contributions(ALICE, &Vec::new()).is_empty());
}

#[test]
fn contribution_mapping_round_trip() {
    let mut c = campaign();
    assert_eq!(c.get_contribution_mapping(BOB), 0);
    c.set_contribution_mapping(BOB, 77);
    assert_eq!(c.get_contribution_mapping(BOB), 77);
    c.set_contribution_mapping(BOB, 0);
    assert_eq!(c.get_contribution_mapping(BOB), 0);
}

#[test]
fn vec_contains_finds_members_only() {
    let v: Vec<AccountId> = vec![4, 8, 15];
    assert!(vec_contains(&v, 8));
    assert!(!vec_contains(&v, 16));
    assert!(!vec_contains(&Vec::new(), 1));
}
