//! A token staking ledger: participants deposit a staking token into a shared
//! pool and earn a reward token in proportion to the amount staked and the
//! time elapsed, subject to a lock period before withdrawal.
//!
//! The crate holds the reward arithmetic and the state machine over the pool
//! and position records. Moving tokens, deriving addresses and reading the
//! clock are left to the caller: every operation takes the current time as an
//! argument and hands back the transfer that custody has to carry out.

pub mod accounts;
pub mod accrual;
pub mod custody;
pub mod error;
pub mod events;
pub mod laws;
pub mod operations;
pub mod pubkey;
pub mod state;

pub use accounts::{AdminAction, ClaimRewards, FundRewards, InitializePool, Stake, Unstake};
pub use accrual::{calculate_pending_rewards, REWARD_SCALE};
pub use custody::{Authorization, Mint, TokenAccount, TransferOrder};
pub use error::StakingError;
pub use events::{
    ClaimEvent, PoolInitialized, PoolPausedEvent, RewardRateUpdated, RewardsFunded, StakeEvent,
    UnstakeEvent,
};
pub use operations::{
    claim_rewards, fund_rewards, initialize_pool, set_paused, stake, unstake, update_reward_rate,
};
pub use pubkey::Pubkey;
pub use state::{StakePool, UserStake};
