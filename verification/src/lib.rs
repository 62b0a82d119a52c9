//! Verified core of the Stellar Raise crowdfunding contracts: campaign
//! parameter validation, milestone-gated fund release, the KYC gate, refunds,
//! batch contributions, role and admin management, and the campaign factory
//! registry. The Soroban host (storage, authorization, token transfers,
//! cross-contract calls, events) stays outside this crate; every decision the
//! contracts take is a function here.

pub mod access_control;
pub mod admin;
pub mod batch;
pub mod campaign;
pub mod errors;
pub mod factory;
pub mod goal_minimum;
pub mod initialize;
pub mod kyc_gate;
pub mod milestones;
pub mod privilege;
pub mod refund;
pub mod rewards;
pub mod state_size;
pub mod token_minter;

pub use campaign::{LEDGER_BUMP_AMOUNT, LEDGER_THRESHOLD};
