use stellar_raise::campaign::{AccountId, Campaign, PlatformConfig, Status};
use stellar_raise::errors::ContractError;
use stellar_raise::initialize::{
    describe_init_error, execute_initialize, is_init_error_retryable, validate_bonus_goal, validate_init_params,
    InitParams,
};

const NOW: u64 = 1_000;
const CREATOR: AccountId = 2;
const TOKEN: AccountId = 3;

fn default_init_params() -> InitParams {
    InitParams {
        admin: CREATOR,
        creator: CREATOR,
        token: TOKEN,
        goal: 1_000_000,
        deadline: NOW + 3600,
        min_contribution: 1_000,
        platform_config: None,
        bonus_goal: None,
        bonus_goal_description: None,
    }
}

fn with(goal: i128, deadline: u64, min_contribution: i128) -> InitParams {
    InitParams { goal, deadline, min_contribution, ..default_init_params() }
}

fn init(params: InitParams) -> Result<Campaign, ContractError> {
    execute_initialize(false, NOW, params)
}

fn fee(fee_bps: u32) -> InitParams {
    InitParams { platform_config: Some(PlatformConfig { address: 40, fee_bps }), ..default_init_params() }
}

fn bonus(bonus_goal: i128) -> InitParams {
    InitParams { bonus_goal: Some(bonus_goal), ..default_init_params() }
}

#[test]
fn test_initialize_stores_all_fields() {
    let c = init(default_init_params()).unwrap();
    assert_eq!(c.goal, 1_000_000);
    assert_eq!(c.deadline, NOW + 3600);
    assert_eq!(c.min_contribution, 1_000);
    assert_eq!(c.total_raised, 0);
    assert_eq!(c.token, TOKEN);
}

#[test]
fn test_initialize_status_is_active() {
    let c = init(default_init_params()).unwrap();
    assert_eq!(c.status, Status::Active);
}

#[test]
fn test_initialize_contributors_list_is_empty() {
    let c = init(default_init_params()).unwrap();
    assert_eq!(c.contributors.len(), 0);
}

#[test]
fn test_initialize_roadmap_is_empty() {
    let c = init(default_init_params()).unwrap();
    assert_eq!(c.roadmap.len(), 0);
}

#[test]
fn test_initialize_total_raised_is_zero() {
    let c = init(default_init_params()).unwrap();
    assert_eq!(c.total_raised, 0);
}

#[test]
fn test_initialize_stores_admin_address() {
    let c = init(InitParams { admin: 77, ..default_init_params() }).unwrap();
    assert_eq!(c.admin, 77);
}

#[test]
fn test_initialize_stores_creator_address() {
    let c = init(InitParams { creator: 78, ..default_init_params() }).unwrap();
    assert_eq!(c.creator, 78);
    assert_eq!(c.admin, CREATOR);
}

#[test]
fn test_initialize_platform_fee_exact_max_accepted() {
    assert!(init(fee(10_000)).is_ok());
}

#[test]
fn test_initialize_platform_fee_zero_accepted() {
    assert!(init(fee(0)).is_ok());
}

#[test]
fn test_initialize_platform_fee_one_bps_accepted() {
    assert!(init(fee(1)).is_ok());
}

#[test]
fn test_initialize_platform_fee_over_max_returns_error() {
    assert_eq!(init(fee(10_001)).err(), Some(ContractError::InvalidPlatformFee));
}

#[test]
fn test_initialize_platform_fee_u32_max_returns_error() {
    assert_eq!(init(fee(u32::MAX)).err(), Some(ContractError::InvalidPlatformFee));
}

#[test]
fn test_initialize_with_bonus_goal_stores_values() {
    let desc = b"Unlock exclusive rewards".to_vec();
    let c = init(InitParams {
        bonus_goal: Some(2_000_000),
        bonus_goal_description: Some(desc.clone()),
        ..default_init_params()
    })
    .unwrap();
    assert_eq!(c.bonus_goal, Some(2_000_000));
    assert_eq!(c.bonus_goal_description, Some(desc));
    assert!(!c.bonus_goal_reached_emitted);
}

#[test]
fn test_initialize_bonus_goal_equal_to_goal_returns_error() {
    assert_eq!(init(bonus(1_000_000)).err(), Some(ContractError::InvalidBonusGoal));
}

#[test]
fn test_initialize_bonus_goal_less_than_goal_returns_error() {
    assert_eq!(init(bonus(500_000)).err(), Some(ContractError::InvalidBonusGoal));
}

#[test]
fn test_initialize_bonus_goal_one_above_goal_accepted() {
    let c = init(bonus(1_000_001)).unwrap();
    assert_eq!(c.bonus_goal, Some(1_000_001));
}

#[test]
fn test_initialize_bonus_goal_without_description() {
    let c = init(bonus(2_000_000)).unwrap();
    assert_eq!(c.bonus_goal, Some(2_000_000));
    assert_eq!(c.bonus_goal_description, None);
}

#[test]
fn test_initialize_bonus_goal_i128_max_accepted() {
    assert!(init(bonus(i128::MAX)).is_ok());
}

#[test]
fn test_initialize_twice_returns_already_initialized() {
    assert!(init(default_init_params()).is_ok());
    let second = execute_initialize(true, NOW, default_init_params());
    assert_eq!(second.err(), Some(ContractError::AlreadyInitialized));
}

#[test]
fn test_initialize_twice_different_params_still_errors() {
    let first = init(default_init_params()).unwrap();
    let second = execute_initialize(true, NOW, with(9_999_999, NOW + 3600 + 7200, 500));
    assert_eq!(second.err(), Some(ContractError::AlreadyInitialized));
    assert_eq!(first.goal, 1_000_000);
}

#[test]
fn test_initialize_twice_preserves_original_values() {
    let first = init(default_init_params()).unwrap();
    let _ = execute_initialize(true, NOW, with(9_999_999, NOW + 3600 + 7200, 500));
    assert_eq!(first.goal, 1_000_000);
    assert_eq!(first.deadline, NOW + 3600);
    assert_eq!(first.min_contribution, 1_000);
    assert_eq!(first.total_raised, 0);
}

#[test]
fn test_initialize_goal_minimum_accepted() {
    let c = init(with(1, NOW + 3600, 1)).unwrap();
    assert_eq!(c.goal, 1);
}

#[test]
fn test_initialize_goal_zero_returns_error() {
    assert_eq!(init(with(0, NOW + 3600, 1)).err(), Some(ContractError::InvalidGoal));
}

#[test]
fn test_initialize_goal_negative_returns_error() {
    assert_eq!(init(with(-1, NOW + 3600, 1)).err(), Some(ContractError::InvalidGoal));
}

#[test]
fn test_initialize_goal_i128_min_returns_error() {
    assert_eq!(init(with(i128::MIN, NOW + 3600, 1)).err(), Some(ContractError::InvalidGoal));
}

#[test]
fn test_initialize_goal_i128_max_accepted() {
    assert!(init(with(i128::MAX, NOW + 3600, 1)).is_ok());
}

#[test]
fn test_initialize_min_contribution_minimum_accepted() {
    let c = init(with(1_000_000, NOW + 3600, 1)).unwrap();
    assert_eq!(c.min_contribution, 1);
}

#[test]
fn test_initialize_min_contribution_zero_returns_error() {
    assert_eq!(init(with(1_000_000, NOW + 3600, 0)).err(), Some(ContractError::InvalidMinContribution));
}

#[test]
fn test_initialize_min_contribution_negative_returns_error() {
    assert_eq!(init(with(1_000_000, NOW + 3600, -1)).err(), Some(ContractError::InvalidMinContribution));
}

#[test]
fn test_initialize_deadline_exactly_60_seconds_accepted() {
    assert!(init(with(1_000_000, NOW + 60, 1_000)).is_ok());
}

#[test]
fn test_initialize_deadline_59_seconds_returns_error() {
    assert_eq!(init(with(1_000_000, NOW + 59, 1_000)).err(), Some(ContractError::DeadlineTooSoon));
}

#[test]
fn test_initialize_deadline_equal_to_now_returns_error() {
    assert_eq!(init(with(1_000_000, NOW, 1_000)).err(), Some(ContractError::DeadlineTooSoon));
}

#[test]
fn test_initialize_deadline_in_past_returns_error() {
    assert_eq!(init(with(1_000_000, NOW - 100, 1_000)).err(), Some(ContractError::DeadlineTooSoon));
}

#[test]
fn test_initialize_deadline_far_future_accepted() {
    let c = init(with(1_000_000, NOW + 100_000_000, 1_000)).unwrap();
    assert_eq!(c.deadline, NOW + 100_000_000);
}

#[test]
fn test_initialize_deadline_u64_max_accepted() {
    assert!(init(with(1_000_000, u64::MAX, 1_000)).is_ok());
}

#[test]
fn test_initialize_with_all_optional_params() {
    let c = init(InitParams {
        platform_config: Some(PlatformConfig { address: 40, fee_bps: 250 }),
        bonus_goal: Some(2_000_000),
        bonus_goal_description: Some(b"stretch".to_vec()),
        ..default_init_params()
    })
    .unwrap();
    assert_eq!(c.platform_config, Some(PlatformConfig { address: 40, fee_bps: 250 }));
    assert_eq!(c.bonus_goal, Some(2_000_000));
    assert_eq!(c.bonus_goal_description, Some(b"stretch".to_vec()));
}

#[test]
fn test_execute_initialize_stores_fields_directly() {
    let params = InitParams {
        goal: 5_000_000,
        deadline: NOW + 7200,
        min_contribution: 500,
        bonus_goal: Some(10_000_000),
        ..default_init_params()
    };
    let c = execute_initialize(false, NOW, params).unwrap();
    assert_eq!(c.goal, 5_000_000);
    assert_eq!(c.deadline, NOW + 7200);
    assert_eq!(c.min_contribution, 500);
    assert_eq!(c.bonus_goal, Some(10_000_000));
}

#[test]
fn test_execute_initialize_fails_if_already_initialized() {
    assert!(execute_initialize(false, NOW, default_init_params()).is_ok());
    let again = execute_initialize(true, NOW, with(2_000_000, NOW + 3600, 1000));
    assert_eq!(again.err(), Some(ContractError::AlreadyInitialized));
}

#[test]
fn test_initialize_bonus_goal_reached_flag_starts_false() {
    let c = init(bonus(2_000_000)).unwrap();
    assert!(!c.bonus_goal_reached_emitted);
}

#[test]
fn test_validate_bonus_goal_none_returns_ok() {
    let result = validate_bonus_goal(None, 1_000_000);
    assert!(result.is_ok());
}

#[test]
fn test_validate_bonus_goal_greater_than_goal_returns_ok() {
    let result = validate_bonus_goal(Some(2_000_000), 1_000_000);
    assert!(result.is_ok());
}

#[test]
fn test_validate_bonus_goal_equal_to_goal_returns_err() {
    let result = validate_bonus_goal(Some(1_000_000), 1_000_000);
    assert_eq!(result.unwrap_err(), ContractError::InvalidBonusGoal);
}

#[test]
fn test_validate_bonus_goal_less_than_goal_returns_err() {
    let result = validate_bonus_goal(Some(500_000), 1_000_000);
    assert_eq!(result.unwrap_err(), ContractError::InvalidBonusGoal);
}

#[test]
fn test_validate_bonus_goal_zero_vs_one_returns_err() {
    let result = validate_bonus_goal(Some(0), 1);
    assert_eq!(result.unwrap_err(), ContractError::InvalidBonusGoal);
}

#[test]
fn test_validate_init_params_valid() {
    let params = default_init_params();
    let result = validate_init_params(NOW, &params);
    assert!(result.is_ok());
}

#[test]
fn test_validate_init_params_invalid_goal() {
    let mut params = default_init_params();
    params.goal = 0;
    let result = validate_init_params(NOW, &params);
    assert_eq!(result.unwrap_err(), ContractError::InvalidGoal);
}

#[test]
fn validate_init_params_reports_first_failure() {
    let params = InitParams { goal: 0, min_contribution: 0, bonus_goal: Some(-5), ..default_init_params() };
    assert_eq!(validate_init_params(NOW, &params), Err(ContractError::InvalidGoal));
    let params = InitParams { min_contribution: 0, deadline: NOW, ..default_init_params() };
    assert_eq!(validate_init_params(NOW, &params), Err(ContractError::InvalidMinContribution));
    let params = InitParams { deadline: NOW, bonus_goal: Some(1), ..fee(20_000) };
    assert_eq!(validate_init_params(NOW, &params), Err(ContractError::DeadlineTooSoon));
    assert_eq!(validate_init_params(u64::MAX - 10, &with(1, u64::MAX, 1)), Ok(()));
}

#[test]
fn test_describe_init_error_already_initialized() {
    assert_eq!(describe_init_error(1), "Contract is already initialized");
}

#[test]
fn test_describe_init_error_invalid_goal() {
    assert_eq!(describe_init_error(8), "Campaign goal must be at least 1");
}

#[test]
fn test_describe_init_error_invalid_min_contribution() {
    assert_eq!(describe_init_error(9), "Minimum contribution must be at least 1");
}

#[test]
fn test_describe_init_error_deadline_too_soon() {
    assert_eq!(describe_init_error(10), "Deadline must be at least 60 seconds in the future");
}

#[test]
fn test_describe_init_error_invalid_platform_fee() {
    assert_eq!(describe_init_error(11), "Platform fee cannot exceed 100% (10,000 bps)");
}

#[test]
fn test_describe_init_error_invalid_bonus_goal() {
    assert_eq!(describe_init_error(12), "Bonus goal must be strictly greater than the primary goal");
}

#[test]
fn test_describe_init_error_unknown_code() {
    assert_eq!(describe_init_error(99), "Unknown initialization error");
}

#[test]
fn test_describe_init_error_zero_code() {
    assert_eq!(describe_init_error(0), "Unknown initialization error");
}

#[test]
fn test_is_init_error_retryable_already_initialized() {
    assert!(!is_init_error_retryable(1));
}

#[test]
fn test_is_init_error_retryable_input_errors() {
    assert!(is_init_error_retryable(8));
    assert!(is_init_error_retryable(9));
    assert!(is_init_error_retryable(10));
    assert!(is_init_error_retryable(11));
    assert!(is_init_error_retryable(12));
}

#[test]
fn test_is_init_error_retryable_unknown_code() {
    assert!(!is_init_error_retryable(99));
}

#[test]
fn test_initialize() {
    let params = InitParams { admin: 1, ..default_init_params() };
    let c = init(params).unwrap();
    assert_eq!(c.goal, 1_000_000);
    assert_eq!(c.deadline, NOW + 3600);
    assert_eq!(c.min_contribution, 1_000);
    assert_eq!(c.total_raised, 0);
}

#[test]
fn test_initialize_twice_returns_error() {
    assert!(init(default_init_params()).is_ok());
    assert!(execute_initialize(true, NOW, default_init_params()).is_err());
}

#[test]
fn test_initialize_with_platform_config_stores_fee() {
    let c = init(fee(500)).unwrap();
    assert_eq!(c.platform_config, Some(PlatformConfig { address: 40, fee_bps: 500 }));
}
