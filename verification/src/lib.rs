//! Time-locked asset staking: the withdrawal half of the ledger.
//!
//! A user who deposited a unique collectible asset into a lock may, after a
//! minimum holding period, withdraw it and receive reward points proportional
//! to the elapsed time. This crate holds the verified core of that unstake
//! operation: time-lock validation, reward accrual arithmetic, per-user
//! balance mutation, and the ordered protocol for releasing the asset's lock
//! through the external custody service.

pub mod custody;
pub mod ids;
pub mod ledger;
pub mod math;
pub mod state;
pub mod unstake;
