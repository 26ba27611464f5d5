//! The log entries that the operations hand back for emission.

use crate::pubkey::Pubkey;
use vstd::prelude::*;

verus! {

/// A pool was created.
#[derive(Clone, Copy, Debug, PartialEq, Eq)]
pub struct PoolInitialized {
    pub pool: Pubkey,
    pub staking_mint: Pubkey,
    pub reward_mint: Pubkey,
    pub reward_rate: u64,
    pub lock_period: i64,
    pub min_stake_amount: u64,
}

/// A deposit was made.
#[derive(Clone, Copy, Debug, PartialEq, Eq)]
pub struct StakeEvent {
    pub user: Pubkey,
    pub pool: Pubkey,
    pub amount: u64,
    /// The position's balance after the deposit.
    pub total_staked: u64,
    pub timestamp: i64,
}

/// A withdrawal was made.
#[derive(Clone, Copy, Debug, PartialEq, Eq)]
pub struct UnstakeEvent {
    pub user: Pubkey,
    pub pool: Pubkey,
    pub amount: u64,
    /// The position's balance after the withdrawal.
    pub remaining_stake: u64,
    pub timestamp: i64,
}

/// Rewards were paid out.
#[derive(Clone, Copy, Debug, PartialEq, Eq)]
pub struct ClaimEvent {
    pub user: Pubkey,
    pub pool: Pubkey,
    pub amount: u64,
    pub timestamp: i64,
}

/// The reward rate was changed.
#[derive(Clone, Copy, Debug, PartialEq, Eq)]
pub struct RewardRateUpdated {
    pub pool: Pubkey,
    pub old_rate: u64,
    pub new_rate: u64,
}

/// The pool was paused or resumed.
#[derive(Clone, Copy, Debug, PartialEq, Eq)]
pub struct PoolPausedEvent {
    pub pool: Pubkey,
    pub paused: bool,
}

/// The reward reserve was topped up.
#[derive(Clone, Copy, Debug, PartialEq, Eq)]
pub struct RewardsFunded {
    pub pool: Pubkey,
    pub funder: Pubkey,
    pub amount: u64,
}

} // verus!
