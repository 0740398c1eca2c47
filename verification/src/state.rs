//! The record types of the staking ledger.
//!
//! A `StakeRecord` is the durable fact that one asset is currently locked by
//! one user; a `UserAccount` aggregates that user's reward points and staked
//! count; `StakeConfig` holds the global parameters; `CollectionInfo` holds
//! the structural token from which the collection-scoped delegated authority
//! is derived.

use vstd::prelude::*;
use crate::ids::AccountId;

verus! {

/// Global, read-only staking parameters.
#[derive(Clone, Copy, Debug)]
pub struct StakeConfig {
    /// Reward points earned per staked asset per whole elapsed day.
    pub points_per_stake: u8,
    /// Minimum holding period, in days, before an asset may be withdrawn.
    pub freeze_period: u32,
    /// Structural authority token of the configuration record itself.
    pub bump: u8,
}

/// Per-user aggregate: reward points and the count of staked assets.
#[derive(Clone, Copy, Debug)]
pub struct UserAccount {
    /// Accumulated reward points; clamped at the counter's maximum.
    pub points: u32,
    /// Number of assets this user currently has locked.
    pub amount_staked: u8,
    /// Structural authority token of the user record.
    pub bump: u8,
}

/// One asset currently locked: who staked it, which asset, and when.
#[derive(Clone, Copy, Debug)]
pub struct StakeRecord {
    /// The user who deposited the asset.
    pub owner: AccountId,
    /// The locked asset.
    pub asset: AccountId,
    /// Timestamp of the deposit.
    pub staked_at: i64,
    /// Structural authority token of the record.
    pub bump: u8,
}

/// Per-collection record holding the structural token of the derived
/// delegated authority over assets of that collection.
#[derive(Clone, Copy, Debug)]
pub struct CollectionInfo {
    /// Structural authority token used to re-derive the collection authority.
    pub bump: u8,
}

/// A user account together with the identity it belongs to.
#[derive(Clone, Copy, Debug)]
pub struct UserEntry {
    pub user: AccountId,
    pub account: UserAccount,
}

/// A collection record together with the collection it belongs to.
#[derive(Clone, Copy, Debug)]
pub struct CollectionEntry {
    pub collection: AccountId,
    pub info: CollectionInfo,
}

} // verus!
