//! Shared fixture values for token-funded campaign scenarios.
use vstd::prelude::*;

verus! {

/// Default campaign goal used in token scenarios.
pub const TEST_GOAL: i128 = 1_000_000;

/// Default minimum contribution used in token scenarios.
pub const TEST_MIN_CONTRIBUTION: i128 = 1_000;

/// Default amount minted to each funded account.
pub const TEST_MINT_AMOUNT: i128 = 10_000_000;

/// The deadline offset used by token scenarios: one hour.
pub fn deadline_offset_seconds() -> (r: u64)
    ensures
        r == 3_600,
{
    3_600
}

} // verus!
