//! The accounts that each operation works on, and the bindings between them
//! that must hold before the operation looks at anything else.
//!
//! Each structure carries the records that the operation may change (the
//! pool, the caller's position) next to what it only reads: the caller's
//! identity, as the signature check established it, and what custody reports
//! of the mints and token accounts involved.

use crate::custody::{Mint, TokenAccount};
use crate::error::StakingError;
use crate::pubkey::Pubkey;
use crate::state::{StakePool, UserStake};
use vstd::prelude::*;

verus! {

/// Accounts for creating a pool.
#[derive(Clone, Copy, Debug, PartialEq, Eq)]
pub struct InitializePool {
    /// The creator, who becomes the pool's authority.
    pub authority: Pubkey,
    /// Address of the pool record.
    pub pool_address: Pubkey,
    /// Bump seed of `pool_address`.
    pub pool_bump: u8,
    /// The pool record, to be filled in.
    pub pool: StakePool,
    pub staking_mint: Mint,
    pub reward_mint: Mint,
    pub pool_vault: TokenAccount,
    pub reward_vault: TokenAccount,
}

/// Accounts for a deposit.
#[derive(Clone, Copy, Debug, PartialEq, Eq)]
pub struct Stake {
    /// The depositor.
    pub user: Pubkey,
    /// Address of the pool record.
    pub pool_address: Pubkey,
    pub pool: StakePool,
    /// The depositor's position; all-zero before the first deposit.
    pub user_stake: UserStake,
    /// Bump seed of the position's address.
    pub user_stake_bump: u8,
    pub staking_mint: Mint,
    /// The account that the deposit is taken from.
    pub user_token_account: TokenAccount,
    pub pool_vault: TokenAccount,
}

/// Accounts for a withdrawal.
#[derive(Clone, Copy, Debug, PartialEq, Eq)]
pub struct Unstake {
    /// The withdrawer.
    pub user: Pubkey,
    /// Address of the pool record.
    pub pool_address: Pubkey,
    pub pool: StakePool,
    pub user_stake: UserStake,
    pub staking_mint: Mint,
    /// The account that the withdrawal is paid into.
    pub user_token_account: TokenAccount,
    pub pool_vault: TokenAccount,
}

/// Accounts for a claim.
#[derive(Clone, Copy, Debug, PartialEq, Eq)]
pub struct ClaimRewards {
    /// The claimant.
    pub user: Pubkey,
    /// Address of the pool record.
    pub pool_address: Pubkey,
    pub pool: StakePool,
    pub user_stake: UserStake,
    /// The account that the rewards are paid into.
    pub user_reward_account: TokenAccount,
    pub reward_vault: TokenAccount,
}

/// Accounts for an administrative operation.
#[derive(Clone, Copy, Debug, PartialEq, Eq)]
pub struct AdminAction {
    /// The caller.
    pub authority: Pubkey,
    /// Address of the pool record.
    pub pool_address: Pubkey,
    pub pool: StakePool,
}

/// Accounts for topping up the reward reserve.
#[derive(Clone, Copy, Debug, PartialEq, Eq)]
pub struct FundRewards {
    /// The funder.
    pub funder: Pubkey,
    /// Address of the pool record.
    pub pool_address: Pubkey,
    pub pool: StakePool,
    /// The account that the top-up is taken from.
    pub funder_token_account: TokenAccount,
    pub reward_vault: TokenAccount,
}

/// The result that reports `fault`, if there is one.
pub open spec fn refusal(fault: Option<StakingError>) -> Result<(), StakingError> {
    match fault {
        Some(e) => Err(e),
        None => Ok(()),
    }
}

impl Stake {
    /// The first binding that does not hold: the mint is the pool's staking
    /// mint, and the source account is the depositor's and holds that mint.
    pub open spec fn binding_fault(&self) -> Option<StakingError> {
        if self.staking_mint.address != self.pool.staking_mint {
            Some(StakingError::InvalidMint)
        } else if self.user_token_account.owner != self.user {
            Some(StakingError::InvalidOwner)
        } else if self.user_token_account.mint != self.pool.staking_mint {
            Some(StakingError::InvalidMint)
        } else {
            None
        }
    }

    /// Checks the bindings between the accounts.
    pub fn validate(&self) -> (result: Result<(), StakingError>)
        ensures
            result == refusal(self.binding_fault()),
    {
        if self.staking_mint.address != self.pool.staking_mint {
            return Err(StakingError::InvalidMint);
        }
        if self.user_token_account.owner != self.user {
            return Err(StakingError::InvalidOwner);
        }
        if self.user_token_account.mint != self.pool.staking_mint {
            return Err(StakingError::InvalidMint);
        }
        Ok(())
    }
}

impl Unstake {
    /// The first binding that does not hold: the position is the
    /// withdrawer's, the mint is the pool's staking mint, and the
    /// destination account is the withdrawer's and holds that mint.
    pub open spec fn binding_fault(&self) -> Option<StakingError> {
        if self.user_stake.owner != self.user {
            Some(StakingError::InvalidOwner)
        } else if self.staking_mint.address != self.pool.staking_mint {
            Some(StakingError::InvalidMint)
        } else if self.user_token_account.owner != self.user {
            Some(StakingError::InvalidOwner)
        } else if self.user_token_account.mint != self.pool.staking_mint {
            Some(StakingError::InvalidMint)
        } else {
            None
        }
    }

    /// Checks the bindings between the accounts.
    pub fn validate(&self) -> (result: Result<(), StakingError>)
        ensures
            result == refusal(self.binding_fault()),
    {
        if self.user_stake.owner != self.user {
            return Err(StakingError::InvalidOwner);
        }
        if self.staking_mint.address != self.pool.staking_mint {
            return Err(StakingError::InvalidMint);
        }
        if self.user_token_account.owner != self.user {
            return Err(StakingError::InvalidOwner);
        }
        if self.user_token_account.mint != self.pool.staking_mint {
            return Err(StakingError::InvalidMint);
        }
        Ok(())
    }
}

impl ClaimRewards {
    /// The first binding that does not hold: the position is the
    /// claimant's, and the destination account is the claimant's and holds
    /// the pool's reward mint.
    pub open spec fn binding_fault(&self) -> Option<StakingError> {
        if self.user_stake.owner != self.user {
            Some(StakingError::InvalidOwner)
        } else if self.user_reward_account.owner != self.user {
            Some(StakingError::InvalidOwner)
        } else if self.user_reward_account.mint != self.pool.reward_mint {
            Some(StakingError::InvalidMint)
        } else {
            None
        }
    }

    /// Checks the bindings between the accounts.
    pub fn validate(&self) -> (result: Result<(), StakingError>)
        ensures
            result == refusal(self.binding_fault()),
    {
        if self.user_stake.owner != self.user {
            return Err(StakingError::InvalidOwner);
        }
        if self.user_reward_account.owner != self.user {
            return Err(StakingError::InvalidOwner);
        }
        if self.user_reward_account.mint != self.pool.reward_mint {
            return Err(StakingError::InvalidMint);
        }
        Ok(())
    }
}

impl AdminAction {
    /// The binding that does not hold, if any: the caller is the pool's
    /// authority.
    pub open spec fn binding_fault(&self) -> Option<StakingError> {
        if self.authority != self.pool.authority {
            Some(StakingError::Unauthorized)
        } else {
            None
        }
    }

    /// Checks that the caller is the pool's authority.
    pub fn validate(&self) -> (result: Result<(), StakingError>)
        ensures
            result == refusal(self.binding_fault()),
    {
        if self.authority != self.pool.authority {
            return Err(StakingError::Unauthorized);
        }
        Ok(())
    }
}

impl FundRewards {
    /// The first binding that does not hold: the source account is the
    /// funder's and holds the pool's reward mint.
    pub open spec fn binding_fault(&self) -> Option<StakingError> {
        if self.funder_token_account.owner != self.funder {
            Some(StakingError::InvalidOwner)
        } else if self.funder_token_account.mint != self.pool.reward_mint {
            Some(StakingError::InvalidMint)
        } else {
            None
        }
    }

    /// Checks the bindings between the accounts.
    pub fn validate(&self) -> (result: Result<(), StakingError>)
        ensures
            result == refusal(self.binding_fault()),
    {
        if self.funder_token_account.owner != self.funder {
            return Err(StakingError::InvalidOwner);
        }
        if self.funder_token_account.mint != self.pool.reward_mint {
            return Err(StakingError::InvalidMint);
        }
        Ok(())
    }
}

} // verus!
