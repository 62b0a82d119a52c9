use stellar_raise::goal_minimum::{
    compute_progress_bps, validate_deadline, validate_goal, validate_min_contribution, validate_platform_fee,
    MAX_PLATFORM_FEE_BPS, MAX_PROGRESS_BPS, MIN_CONTRIBUTION_AMOUNT, MIN_DEADLINE_OFFSET, MIN_GOAL_AMOUNT,
    PROGRESS_BPS_SCALE,
};
use stellar_raise::token_minter::{deadline_offset_seconds, TEST_GOAL, TEST_MINT_AMOUNT, TEST_MIN_CONTRIBUTION};
use stellar_raise::{LEDGER_BUMP_AMOUNT, LEDGER_THRESHOLD};

#[test]
fn test_ttl_constants_invariant() {
    assert!(
        LEDGER_BUMP_AMOUNT > LEDGER_THRESHOLD,
        "LEDGER_BUMP_AMOUNT ({}) must be greater than LEDGER_THRESHOLD ({}) \
         to ensure each bump provides a net TTL increase",
        LEDGER_BUMP_AMOUNT,
        LEDGER_THRESHOLD
    );
}

#[test]
fn goal_minimum_constants() {
    assert_eq!(MIN_GOAL_AMOUNT, 1);
    assert_eq!(MIN_CONTRIBUTION_AMOUNT, 1);
    assert_eq!(MAX_PLATFORM_FEE_BPS, 10_000);
    assert_eq!(PROGRESS_BPS_SCALE, 10_000);
    assert_eq!(MIN_DEADLINE_OFFSET, 60);
    assert_eq!(MAX_PROGRESS_BPS, 10_000);
}

#[test]
fn token_scenario_fixture_values() {
    assert_eq!(TEST_GOAL, 1_000_000);
    assert_eq!(TEST_MIN_CONTRIBUTION, 1_000);
    assert_eq!(TEST_MINT_AMOUNT, 10_000_000);
    assert_eq!(deadline_offset_seconds(), 3_600);
}

#[test]
fn validate_goal_boundaries() {
    assert_eq!(validate_goal(1), Ok(()));
    assert_eq!(validate_goal(i128::MAX), Ok(()));
    assert_eq!(validate_goal(0), Err("goal must be at least MIN_GOAL_AMOUNT"));
    assert_eq!(validate_goal(-1), Err("goal must be at least MIN_GOAL_AMOUNT"));
    assert_eq!(validate_goal(i128::MIN), Err("goal must be at least MIN_GOAL_AMOUNT"));
}

#[test]
fn validate_min_contribution_boundaries() {
    assert_eq!(validate_min_contribution(1), Ok(()));
    assert_eq!(
        validate_min_contribution(0),
        Err("min_contribution must be at least MIN_CONTRIBUTION_AMOUNT")
    );
}

#[test]
fn validate_deadline_boundaries() {
    let msg = "deadline must be at least MIN_DEADLINE_OFFSET seconds in the future";
    assert_eq!(validate_deadline(1_000, 1_060), Ok(()));
    assert_eq!(validate_deadline(1_000, 1_059), Err(msg));
    assert_eq!(validate_deadline(1_000, 1_000), Err(msg));
    assert_eq!(validate_deadline(1_000, 999), Err(msg));
    // Near the end of time the earliest deadline saturates at u64::MAX.
    assert_eq!(validate_deadline(u64::MAX - 10, u64::MAX), Ok(()));
    assert_eq!(validate_deadline(u64::MAX - 10, u64::MAX - 1), Err(msg));
}

#[test]
fn validate_platform_fee_boundaries() {
    assert_eq!(validate_platform_fee(0), Ok(()));
    assert_eq!(validate_platform_fee(10_000), Ok(()));
    assert_eq!(validate_platform_fee(10_001), Err("platform fee cannot exceed MAX_PLATFORM_FEE_BPS (100%)"));
}

#[test]
fn progress_bps_exact_values() {
    assert_eq!(compute_progress_bps(0, 1_000), 0);
    assert_eq!(compute_progress_bps(250, 1_000), 2_500);
    assert_eq!(compute_progress_bps(333, 1_000), 3_330);
    assert_eq!(compute_progress_bps(1, 3), 3_333);
    assert_eq!(compute_progress_bps(1_000, 1_000), 10_000);
    assert_eq!(compute_progress_bps(5_000, 1_000), 10_000);
}

#[test]
fn progress_bps_guards_non_positive_inputs() {
    assert_eq!(compute_progress_bps(-5, 1_000), 0);
    assert_eq!(compute_progress_bps(500, 0), 0);
    assert_eq!(compute_progress_bps(500, -1), 0);
}

#[test]
fn progress_bps_saturates_instead_of_overflowing() {
    assert_eq!(compute_progress_bps(i128::MAX, i128::MAX), 1);
    assert_eq!(compute_progress_bps(i128::MAX, 1), 10_000);
}

#[test]
fn progress_bps_is_monotone_in_total() {
    let goal = 7_777;
    let mut last = 0;
    for total in (0..20_000).step_by(37) {
        let p = compute_progress_bps(total, goal);
        assert!(p >= last);
        last = p;
    }
}
