//! Validated campaign initialization: every parameter is checked before the
//! campaign state is created.
use std::collections::{HashMap, HashSet};
use vstd::prelude::*;
use crate::campaign::{AccountId, Campaign, PlatformConfig, Status};
use crate::errors::ContractError;
use crate::goal_minimum::{
    earliest_deadline, validate_deadline, validate_goal, validate_min_contribution, validate_platform_fee,
    MAX_PLATFORM_FEE_BPS, MIN_CONTRIBUTION_AMOUNT, MIN_GOAL_AMOUNT,
};

verus! {

broadcast use vstd::std_specs::hash::group_hash_axioms;

/// The smallest goal `initialize` accepts.
pub const INIT_MIN_GOAL_AMOUNT: i128 = MIN_GOAL_AMOUNT;

/// All parameters required to initialize a crowdfund campaign.
pub struct InitParams {
    /// Admin authorized to upgrade the contract and configure the KYC gate.
    pub admin: AccountId,
    /// Campaign creator (must authorize the call).
    pub creator: AccountId,
    /// Token contract used for contributions.
    pub token: AccountId,
    /// Funding goal, at least `MIN_GOAL_AMOUNT`.
    pub goal: i128,
    /// Deadline, at least `MIN_DEADLINE_OFFSET` seconds after initialization.
    pub deadline: u64,
    /// Minimum contribution, at least `MIN_CONTRIBUTION_AMOUNT`.
    pub min_contribution: i128,
    /// Optional platform fee configuration (fee at most 100%).
    pub platform_config: Option<PlatformConfig>,
    /// Optional bonus goal, strictly above the goal when present.
    pub bonus_goal: Option<i128>,
    /// Optional description of the bonus goal.
    pub bonus_goal_description: Option<Vec<u8>>,
}

/// A bonus goal, when present, lies strictly above the goal.
pub open spec fn bonus_goal_ok(bonus_goal: Option<i128>, goal: i128) -> bool {
    bonus_goal matches Some(bg) ==> bg > goal
}

/// Validates that `bonus_goal`, when present, is strictly greater than `goal`.
pub fn validate_bonus_goal(bonus_goal: Option<i128>, goal: i128) -> (r: Result<(), ContractError>)
    ensures
        r is Ok <==> bonus_goal_ok(bonus_goal, goal),
        r is Err ==> r == Err::<(), ContractError>(ContractError::InvalidBonusGoal),
{
    if let Some(bg) = bonus_goal {
        if bg <= goal {
            return Err(ContractError::InvalidBonusGoal);
        }
    }
    Ok(())
}

/// The first parameter check that fails, in the order they are made.
pub open spec fn init_params_error(now: u64, p: InitParams) -> Option<ContractError> {
    if p.goal < MIN_GOAL_AMOUNT {
        Some(ContractError::InvalidGoal)
    } else if p.min_contribution < MIN_CONTRIBUTION_AMOUNT {
        Some(ContractError::InvalidMinContribution)
    } else if p.deadline < earliest_deadline(now) {
        Some(ContractError::DeadlineTooSoon)
    } else if p.platform_config matches Some(cfg) && cfg.fee_bps > MAX_PLATFORM_FEE_BPS {
        Some(ContractError::InvalidPlatformFee)
    } else if !bonus_goal_ok(p.bonus_goal, p.goal) {
        Some(ContractError::InvalidBonusGoal)
    } else {
        None
    }
}

/// Validates all initialization parameters at time `now`, reporting the first
/// failure.
pub fn validate_init_params(now: u64, params: &InitParams) -> (r: Result<(), ContractError>)
    ensures
        r is Err <==> init_params_error(now, *params) is Some,
        r matches Err(e) ==> init_params_error(now, *params) == Some(e),
{
    if validate_goal(params.goal).is_err() {
        return Err(ContractError::InvalidGoal);
    }
    if validate_min_contribution(params.min_contribution).is_err() {
        return Err(ContractError::InvalidMinContribution);
    }
    if validate_deadline(now, params.deadline).is_err() {
        return Err(ContractError::DeadlineTooSoon);
    }
    if let Some(config) = params.platform_config {
        if validate_platform_fee(config.fee_bps).is_err() {
            return Err(ContractError::InvalidPlatformFee);
        }
    }
    validate_bonus_goal(params.bonus_goal, params.goal)
}

/// Creates the state of a new campaign at time `now`: refused when the
/// contract already holds a campaign or a parameter is invalid.
pub fn execute_initialize(already_initialized: bool, now: u64, params: InitParams) -> (r: Result<Campaign, ContractError>)
    ensures
        r is Err <==> already_initialized || init_params_error(now, params) is Some,
        r matches Err(e) ==> if already_initialized {
            e == ContractError::AlreadyInitialized
        } else {
            init_params_error(now, params) == Some(e)
        },
        r matches Ok(c) ==> {
            &&& c.wf()
            &&& c.admin == params.admin
            &&& c.creator == params.creator
            &&& c.token == params.token
            &&& c.goal == params.goal
            &&& c.deadline == params.deadline
            &&& c.min_contribution == params.min_contribution
            &&& c.total_raised == 0
            &&& c.status == Status::Active
            &&& c.platform_config == params.platform_config
            &&& c.bonus_goal == params.bonus_goal
            &&& c.bonus_goal_description == params.bonus_goal_description
            &&& !c.bonus_goal_reached_emitted
            &&& c.nft_contract is None
            &&& c.roadmap@.len() == 0
            &&& c.contributors@.len() == 0
            &&& c.contributions@ == Map::<AccountId, i128>::empty()
            &&& c.pledges@ == Map::<AccountId, i128>::empty()
            &&& c.kyc_gate is None
            &&& c.milestones@.len() == 0
            &&& c.milestone_basis is None
            &&& c.milestone_votes@ == Set::<u128>::empty()
            &&& c.milestone_refunds@ == Set::<u128>::empty()
        },
{
    if already_initialized {
        return Err(ContractError::AlreadyInitialized);
    }
    match validate_init_params(now, &params) {
        Err(e) => return Err(e),
        Ok(()) => {},
    }
    Ok(Campaign {
        admin: params.admin,
        creator: params.creator,
        token: params.token,
        goal: params.goal,
        deadline: params.deadline,
        min_contribution: params.min_contribution,
        total_raised: 0,
        status: Status::Active,
        platform_config: params.platform_config,
        bonus_goal: params.bonus_goal,
        bonus_goal_description: params.bonus_goal_description,
        bonus_goal_reached_emitted: false,
        nft_contract: None,
        roadmap: Vec::new(),
        contributors: Vec::new(),
        contributions: HashMap::new(),
        pledges: HashMap::new(),
        kyc_gate: None,
        milestones: Vec::new(),
        milestone_basis: None,
        milestone_votes: HashSet::new(),
        milestone_refunds: HashSet::new(),
    })
}

/// The message shown for an `initialize()` error code.
pub open spec fn init_error_message(code: u32) -> &'static str {
    if code == 1 {
        "Contract is already initialized"
    } else if code == 8 {
        "Campaign goal must be at least 1"
    } else if code == 9 {
        "Minimum contribution must be at least 1"
    } else if code == 10 {
        "Deadline must be at least 60 seconds in the future"
    } else if code == 11 {
        "Platform fee cannot exceed 100% (10,000 bps)"
    } else if code == 12 {
        "Bonus goal must be strictly greater than the primary goal"
    } else {
        "Unknown initialization error"
    }
}

/// Returns a human-readable description of an `initialize()` error code.
pub fn describe_init_error(code: u32) -> (r: &'static str)
    ensures
        r == init_error_message(code),
{
    match code {
        1 => "Contract is already initialized",
        8 => "Campaign goal must be at least 1",
        9 => "Minimum contribution must be at least 1",
        10 => "Deadline must be at least 60 seconds in the future",
        11 => "Platform fee cannot exceed 100% (10,000 bps)",
        12 => "Bonus goal must be strictly greater than the primary goal",
        _ => "Unknown initialization error",
    }
}

/// Returns `true` for the error codes of correctable input errors.
pub fn is_init_error_retryable(code: u32) -> (r: bool)
    ensures
        r == (8 <= code <= 12),
{
    8 <= code && code <= 12
}

} // verus!
