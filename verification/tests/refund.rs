use stellar_raise::batch::CampaignRef;
use stellar_raise::campaign::{AccountId, Campaign, PlatformConfig};
use stellar_raise::errors::ContractError;
use stellar_raise::initialize::{execute_initialize, InitParams};

const CREATOR: AccountId = 2;
const TOKEN: AccountId = 3;
const ALICE: AccountId = 10;
const BOB: AccountId = 11;
const CAROL: AccountId = 12;
const STRANGER: AccountId = 13;
const START: u64 = 1_000;
const DEADLINE: u64 = START + 3_600;

fn init(goal: i128, platform_config: Option<PlatformConfig>) -> Campaign {
    let params = InitParams {
        admin: CREATOR,
        creator: CREATOR,
        token: TOKEN,
        goal,
        deadline: DEADLINE,
        min_contribution: 1_000,
        platform_config,
        bonus_goal: None,
        bonus_goal_description: None,
    };
    execute_initialize(false, START, params).unwrap()
}

fn contribute(c: &mut Campaign, who: AccountId, amount: i128) {
    c.batch_contribute(who, &vec![CampaignRef { campaign: 500, amount }]);
}

/// The refund entry point: checks the preconditions, then settles the state
/// and reports the amount to transfer.
fn refund_single(c: &mut Campaign, now: u64, who: AccountId) -> Result<i128, ContractError> {
    let amount = c.validate_refund_preconditions(now, who)?;
    c.execute_refund_single(who, amount)?;
    Ok(amount)
}

#[test]
fn test_validate_returns_amount_on_success() {
    let mut c = init(1_000_000, None);
    contribute(&mut c, ALICE, 50_000);
    assert_eq!(c.validate_refund_preconditions(DEADLINE + 1, ALICE), Ok(50_000));
}

#[test]
fn test_validate_before_deadline_returns_campaign_still_active() {
    let mut c = init(1_000_000, None);
    contribute(&mut c, ALICE, 50_000);
    assert_eq!(c.validate_refund_preconditions(START, ALICE), Err(ContractError::CampaignStillActive));
}

#[test]
fn test_validate_at_deadline_boundary_returns_campaign_still_active() {
    let mut c = init(1_000_000, None);
    contribute(&mut c, ALICE, 50_000);
    assert_eq!(c.validate_refund_preconditions(DEADLINE, ALICE), Err(ContractError::CampaignStillActive));
}

#[test]
fn test_validate_goal_met_returns_goal_reached() {
    let goal: i128 = 100_000;
    let mut c = init(goal, None);
    contribute(&mut c, ALICE, goal);
    assert_eq!(c.validate_refund_preconditions(DEADLINE + 1, ALICE), Err(ContractError::GoalReached));
}

#[test]
fn test_validate_goal_exceeded_returns_goal_reached() {
    let goal: i128 = 100_000;
    let mut c = init(goal, None);
    contribute(&mut c, ALICE, goal + 50_000);
    assert_eq!(c.validate_refund_preconditions(DEADLINE + 1, ALICE), Err(ContractError::GoalReached));
}

#[test]
fn test_validate_without_contribution_returns_nothing_to_refund() {
    let c = init(1_000_000, None);
    assert_eq!(c.validate_refund_preconditions(DEADLINE + 1, STRANGER), Err(ContractError::NothingToRefund));
}

#[test]
fn test_execute_transfers_tokens_and_updates_state() {
    let mut c = init(1_000_000, None);
    contribute(&mut c, ALICE, 75_000);
    contribute(&mut c, BOB, 25_000);
    assert_eq!(c.execute_refund_single(ALICE, 75_000), Ok(()));
    assert_eq!(c.contribution(ALICE), 0);
    assert_eq!(c.contribution(BOB), 25_000);
    assert_eq!(c.total_raised, 25_000);
}

#[test]
fn test_execute_large_amount_no_overflow() {
    let large_amount: i128 = 1_000_000_000_000;
    let mut c = init(large_amount * 2, None);
    contribute(&mut c, ALICE, large_amount);
    assert_eq!(c.execute_refund_single(ALICE, large_amount), Ok(()));
    assert_eq!(c.contribution(ALICE), 0);
    assert_eq!(c.total_raised, 0);
}

#[test]
fn test_execute_overflow_preserves_state_and_balance() {
    let mut c = init(1_000_000, None);
    contribute(&mut c, ALICE, 50_000);
    assert_eq!(c.execute_refund_single(ALICE, 75_000), Err(ContractError::Overflow));
    assert_eq!(c.contribution(ALICE), 50_000);
    assert_eq!(c.total_raised, 50_000);
}

#[test]
fn test_refund_single_multiple_contributors_claim_independently() {
    let mut c = init(1_000_000, None);
    contribute(&mut c, ALICE, 200_000);
    contribute(&mut c, BOB, 300_000);
    contribute(&mut c, CAROL, 100_000);
    let now = DEADLINE + 1;
    assert_eq!(refund_single(&mut c, now, ALICE), Ok(200_000));
    assert_eq!(refund_single(&mut c, now, BOB), Ok(300_000));
    assert_eq!(refund_single(&mut c, now, CAROL), Ok(100_000));
    assert_eq!(c.total_raised, 0);
}

#[test]
fn test_refund_single_accumulated_contributions() {
    let mut c = init(1_000_000, None);
    contribute(&mut c, ALICE, 300_000);
    contribute(&mut c, ALICE, 300_000);
    contribute(&mut c, ALICE, 300_000);
    assert_eq!(refund_single(&mut c, DEADLINE + 1, ALICE), Ok(900_000));
    assert_eq!(c.contribution(ALICE), 0);
}

#[test]
fn test_refund_single_double_claim_returns_nothing_to_refund() {
    let mut c = init(1_000_000, None);
    contribute(&mut c, ALICE, 500_000);
    let now = DEADLINE + 1;
    assert_eq!(refund_single(&mut c, now, ALICE), Ok(500_000));
    assert_eq!(refund_single(&mut c, now, ALICE), Err(ContractError::NothingToRefund));
}

#[test]
fn test_refund_single_ignores_platform_fee_configuration() {
    let platform = PlatformConfig { address: 77, fee_bps: 500 };
    let mut c = init(1_000_000, Some(platform));
    contribute(&mut c, ALICE, 500_000);
    assert_eq!(refund_single(&mut c, DEADLINE + 1, ALICE), Ok(500_000));
}

#[test]
fn refund_leaves_other_contributors_and_settings_untouched() {
    let mut c = init(1_000_000, None);
    contribute(&mut c, ALICE, 10_000);
    contribute(&mut c, BOB, 20_000);
    assert_eq!(refund_single(&mut c, DEADLINE + 1, ALICE), Ok(10_000));
    assert_eq!(c.contribution(BOB), 20_000);
    assert_eq!(c.contributors, vec![ALICE, BOB]);
    assert_eq!(c.goal, 1_000_000);
    assert_eq!(c.total_raised, 20_000);
}

#[test]
fn refund_before_deadline_changes_nothing() {
    let mut c = init(1_000_000, None);
    contribute(&mut c, ALICE, 10_000);
    assert_eq!(refund_single(&mut c, DEADLINE, ALICE), Err(ContractError::CampaignStillActive));
    assert_eq!(c.contribution(ALICE), 10_000);
    assert_eq!(c.total_raised, 10_000);
}
