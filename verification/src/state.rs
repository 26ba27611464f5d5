//! The persisted records: one per pool, and one per depositor in a pool.

use crate::pubkey::Pubkey;
use vstd::prelude::*;

verus! {

/// Configuration and aggregate state of one staking market.
#[derive(Clone, Copy, Debug, PartialEq, Eq)]
pub struct StakePool {
    /// Identity permitted to perform administrative operations.
    pub authority: Pubkey,
    /// Mint of the token that is staked.
    pub staking_mint: Pubkey,
    /// Mint of the token that rewards are paid in.
    pub reward_mint: Pubkey,
    /// Vault that holds the staked tokens.
    pub pool_vault: Pubkey,
    /// Vault that holds the reward reserve.
    pub reward_vault: Pubkey,
    /// Rewards per second per staked unit, scaled by `10^18`.
    pub reward_rate: u64,
    /// Seconds a position must stay staked before it may withdraw.
    pub lock_period: i64,
    /// Least balance a position may hold right after a deposit.
    pub min_stake_amount: u64,
    /// Sum of the staked amounts of all positions in the pool.
    pub total_staked: u64,
    /// Time of the latest operation that changed the pool.
    pub last_update_time: i64,
    /// While set, deposits are refused; withdrawals and claims go on.
    pub paused: bool,
    /// Bump seed of the pool's derived address.
    pub bump: u8,
}

/// One depositor's balance and reward state within a pool.
#[derive(Clone, Copy, Debug, PartialEq, Eq)]
pub struct UserStake {
    /// The depositor. All-zero until the first deposit.
    pub owner: Pubkey,
    /// The pool that the position belongs to.
    pub pool: Pubkey,
    /// Balance currently staked.
    pub staked_amount: u64,
    /// Rewards settled but not yet paid out.
    pub pending_rewards: u64,
    /// Checkpoint up to which rewards have been settled.
    pub last_stake_time: i64,
    /// Start of the current unbroken staking period; zero when nothing is
    /// staked.
    pub stake_start_time: i64,
    /// Rewards paid out over the position's lifetime.
    pub total_rewards_claimed: u64,
    /// Bump seed of the position's derived address.
    pub bump: u8,
}

impl Default for UserStake {
    /// The record of a position before its first deposit: nobody owns it
    /// and every counter is zero.
    fn default() -> (position: UserStake)
        ensures
            position.owner.is_zero(),
            position.pool.is_zero(),
            position.staked_amount == 0,
            position.pending_rewards == 0,
            position.last_stake_time == 0,
            position.stake_start_time == 0,
            position.total_rewards_claimed == 0,
            position.bump == 0,
    {
        UserStake {
            owner: Pubkey::default(),
            pool: Pubkey::default(),
            staked_amount: 0,
            pending_rewards: 0,
            last_stake_time: 0,
            stake_start_time: 0,
            total_rewards_claimed: 0,
            bump: 0,
        }
    }
}

} // verus!
