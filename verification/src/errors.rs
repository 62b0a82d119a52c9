use vstd::prelude::*;

verus! {

/// Typed errors returned by the crowdfund contract's entry points.
#[derive(Clone, Copy, Debug, PartialEq, Eq, Structural)]
pub enum ContractError {
    AlreadyInitialized,
    CampaignEnded,
    CampaignStillActive,
    GoalNotReached,
    GoalReached,
    Overflow,
    NothingToRefund,
    InvalidGoal,
    InvalidMinContribution,
    DeadlineTooSoon,
    InvalidPlatformFee,
    InvalidBonusGoal,
    CampaignNotActive,
    Unauthorized,
    ZeroAmount,
    BelowMinimum,
    FeeOverflow,
    InvalidParameter,
    KycRequired,
    KycGateNotConfigured,
    MilestonesAlreadyProposed,
    InvalidMilestoneSchedule,
    MilestoneNotFound,
    MilestoneNotPending,
    MilestoneNotApproved,
    AlreadyVoted,
    NoContributionWeight,
    MilestoneModeActive,
    MilestoneNotRejected,
}

} // verus!
