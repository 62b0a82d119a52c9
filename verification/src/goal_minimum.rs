//! Campaign goal minimum constants and validation helpers.
use vstd::prelude::*;

verus! {

pub const MIN_GOAL_AMOUNT: i128 = 1;
pub const MIN_CONTRIBUTION_AMOUNT: i128 = 1;
pub const MAX_PLATFORM_FEE_BPS: u32 = 10_000;
pub const PROGRESS_BPS_SCALE: i128 = 10_000;
pub const MIN_DEADLINE_OFFSET: u64 = 60;
pub const MAX_PROGRESS_BPS: u32 = 10_000;

/// Rejects goals below `MIN_GOAL_AMOUNT`.
pub fn validate_goal(goal: i128) -> (r: Result<(), &'static str>)
    ensures
        r.is_ok() <==> goal >= MIN_GOAL_AMOUNT,
        r.is_err() ==> r == Err::<(), &'static str>("goal must be at least MIN_GOAL_AMOUNT"),
{
    if goal < MIN_GOAL_AMOUNT {
        return Err("goal must be at least MIN_GOAL_AMOUNT");
    }
    Ok(())
}

/// Rejects minimum contributions below `MIN_CONTRIBUTION_AMOUNT`.
pub fn validate_min_contribution(min_contribution: i128) -> (r: Result<(), &'static str>)
    ensures
        r.is_ok() <==> min_contribution >= MIN_CONTRIBUTION_AMOUNT,
        r.is_err() ==> r == Err::<(), &'static str>("min_contribution must be at least MIN_CONTRIBUTION_AMOUNT"),
{
    if min_contribution < MIN_CONTRIBUTION_AMOUNT {
        return Err("min_contribution must be at least MIN_CONTRIBUTION_AMOUNT");
    }
    Ok(())
}

/// The earliest deadline accepted at time `now`: `now + MIN_DEADLINE_OFFSET`,
/// saturating at `u64::MAX`.
pub open spec fn earliest_deadline(now: u64) -> int {
    if now + MIN_DEADLINE_OFFSET > u64::MAX { u64::MAX as int } else { now + MIN_DEADLINE_OFFSET }
}

/// Rejects deadlines less than `MIN_DEADLINE_OFFSET` seconds after `now`.
pub fn validate_deadline(now: u64, deadline: u64) -> (r: Result<(), &'static str>)
    ensures
        r.is_ok() <==> deadline >= earliest_deadline(now),
        r.is_err() ==> r == Err::<(), &'static str>("deadline must be at least MIN_DEADLINE_OFFSET seconds in the future"),
{
    if deadline < now.saturating_add(MIN_DEADLINE_OFFSET) {
        return Err("deadline must be at least MIN_DEADLINE_OFFSET seconds in the future");
    }
    Ok(())
}

/// Rejects platform fees above 100% (`MAX_PLATFORM_FEE_BPS`).
pub fn validate_platform_fee(fee_bps: u32) -> (r: Result<(), &'static str>)
    ensures
        r.is_ok() <==> fee_bps <= MAX_PLATFORM_FEE_BPS,
        r.is_err() ==> r == Err::<(), &'static str>("platform fee cannot exceed MAX_PLATFORM_FEE_BPS (100%)"),
{
    if fee_bps > MAX_PLATFORM_FEE_BPS {
        return Err("platform fee cannot exceed MAX_PLATFORM_FEE_BPS (100%)");
    }
    Ok(())
}

/// Funding progress in basis points: `total_raised * 10_000 / goal`, where the
/// product saturates at `i128::MAX`, the quotient rounds down and the result is
/// capped at `MAX_PROGRESS_BPS`; zero when the goal or the total is not positive.
pub open spec fn progress_bps(total_raised: i128, goal: i128) -> int {
    if goal <= 0 || total_raised <= 0 {
        0
    } else {
        let scaled = if total_raised * PROGRESS_BPS_SCALE > i128::MAX {
            i128::MAX as int
        } else {
            total_raised * PROGRESS_BPS_SCALE
        };
        let raw = scaled / (goal as int);
        if raw >= PROGRESS_BPS_SCALE { MAX_PROGRESS_BPS as int } else { raw }
    }
}

/// Computes funding progress in basis points, safely for every input.
pub fn compute_progress_bps(total_raised: i128, goal: i128) -> (r: u32)
    ensures
        r == progress_bps(total_raised, goal),
        r <= MAX_PROGRESS_BPS,
{
    if goal <= 0 || total_raised <= 0 {
        return 0;
    }
    let scaled = match total_raised.checked_mul(PROGRESS_BPS_SCALE) {
        Some(v) => v,
        None => i128::MAX,
    };
    let raw = scaled / goal;
    if raw >= PROGRESS_BPS_SCALE {
        MAX_PROGRESS_BPS
    } else {
        raw as u32
    }
}

/// Progress never decreases as the raised total grows (for a fixed goal).
pub proof fn lemma_progress_monotone(t1: i128, t2: i128, goal: i128)
    requires
        t1 <= t2,
    ensures
        progress_bps(t1, goal) <= progress_bps(t2, goal),
{
    if goal > 0 && t1 > 0 {
        let s1: int = if t1 * 10_000 > i128::MAX { i128::MAX as int } else { t1 * 10_000 };
        let s2: int = if t2 * 10_000 > i128::MAX { i128::MAX as int } else { t2 * 10_000 };
        assert(t1 * 10_000 <= t2 * 10_000) by (nonlinear_arith)
            requires t1 <= t2;
        assert(s1 <= s2);
        assert(s1 / (goal as int) <= s2 / (goal as int)) by (nonlinear_arith)
            requires s1 <= s2, goal > 0;
    }
}

/// Progress reaches 100% only once the goal is met.
pub proof fn lemma_full_progress_needs_goal(total_raised: i128, goal: i128)
    requires
        goal > 0,
        progress_bps(total_raised, goal) == MAX_PROGRESS_BPS,
    ensures
        total_raised >= goal,
{
    if total_raised < goal {
        assert(total_raised > 0);
        let scaled: int = if total_raised * 10_000 > i128::MAX { i128::MAX as int } else { total_raised * 10_000 };
        assert(scaled < goal * 10_000) by (nonlinear_arith)
            requires
                0 < total_raised < goal,
                scaled == (if total_raised * 10_000 > i128::MAX { i128::MAX as int } else { total_raised * 10_000 }),
        ;
        assert(scaled / (goal as int) < 10_000) by (nonlinear_arith)
            requires scaled < goal * 10_000, goal > 0, scaled >= 0;
    }
}

/// Progress is 100% once the goal is met, as long as `total_raised * 10_000`
/// fits in an `i128`.
pub proof fn lemma_goal_met_full_progress(total_raised: i128, goal: i128)
    requires
        0 < goal <= total_raised,
        total_raised * PROGRESS_BPS_SCALE <= i128::MAX,
    ensures
        progress_bps(total_raised, goal) == MAX_PROGRESS_BPS,
{
    assert((total_raised * 10_000) / (goal as int) >= 10_000) by (nonlinear_arith)
        requires 0 < goal <= total_raised;
}

} // verus!
