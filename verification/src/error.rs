//! The ways in which an operation is refused.

use vstd::prelude::*;

verus! {

/// Why an operation was refused. A refused operation changes nothing.
#[derive(Clone, Copy, Debug, PartialEq, Eq, Structural)]
pub enum StakingError {
    /// An amount of zero where a positive amount is required.
    InvalidAmount,
    /// A withdrawal of more than the position holds.
    InsufficientStake,
    /// A withdrawal before the lock period has run out.
    StillLocked,
    /// A claim with nothing owed.
    NoRewards,
    /// A deposit into a paused pool.
    PoolPaused,
    /// A claim that the reward vault cannot pay in full.
    InsufficientRewardBalance,
    /// A balance or counter that would leave its 64 bits.
    MathOverflow,
    /// An administrative call by anyone but the pool's authority.
    Unauthorized,
    /// A token account or position that the caller does not own.
    InvalidOwner,
    /// A mint or token account of another asset than the pool's.
    InvalidMint,
    /// A deposit that leaves the position under the pool's minimum.
    BelowMinimumStake,
}

impl StakingError {
    /// The text that `message` returns.
    pub open spec fn message_text(self) -> Seq<char> {
        match self {
            StakingError::InvalidAmount => "Invalid stake amount - must be greater than 0"@,
            StakingError::InsufficientStake => "Insufficient staked balance"@,
            StakingError::StillLocked => "Tokens are still in lock period"@,
            StakingError::NoRewards => "No rewards available to claim"@,
            StakingError::PoolPaused => "Pool is currently paused"@,
            StakingError::InsufficientRewardBalance => "Insufficient reward tokens in vault"@,
            StakingError::MathOverflow => "Math overflow error"@,
            StakingError::Unauthorized => "Unauthorized - admin only"@,
            StakingError::InvalidOwner => "Invalid token account owner"@,
            StakingError::InvalidMint => "Invalid token mint"@,
            StakingError::BelowMinimumStake => "Stake amount below minimum required"@,
        }
    }

    /// A sentence for the caller that says what went wrong.
    pub fn message(&self) -> (text: &'static str)
        ensures
            text@ == self.message_text(),
    {
        match self {
            StakingError::InvalidAmount => "Invalid stake amount - must be greater than 0",
            StakingError::InsufficientStake => "Insufficient staked balance",
            StakingError::StillLocked => "Tokens are still in lock period",
            StakingError::NoRewards => "No rewards available to claim",
            StakingError::PoolPaused => "Pool is currently paused",
            StakingError::InsufficientRewardBalance => "Insufficient reward tokens in vault",
            StakingError::MathOverflow => "Math overflow error",
            StakingError::Unauthorized => "Unauthorized - admin only",
            StakingError::InvalidOwner => "Invalid token account owner",
            StakingError::InvalidMint => "Invalid token mint",
            StakingError::BelowMinimumStake => "Stake amount below minimum required",
        }
    }
}

} // verus!
