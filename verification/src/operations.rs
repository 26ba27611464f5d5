//! The operations of the ledger.
//!
//! Every operation is all or nothing: it either returns `Ok` and leaves the
//! records in the state that its contract describes, or returns the first
//! failure in the order of its checks and leaves them untouched. The current
//! time is an argument, and the accrual tolerates a clock that has not moved
//! or has moved backwards.
//!
//! An operation that moves tokens returns the transfer for custody to carry
//! out. The new state stands only if custody accepts that transfer. Every
//! check is made before the transfer is handed back, so that custody is never
//! asked to move tokens that the records cannot follow.

use crate::accounts::{AdminAction, ClaimRewards, FundRewards, InitializePool, Stake, Unstake};
use crate::accrual::{accrued_rewards, calculate_pending_rewards};
use crate::custody::{Authorization, TransferOrder};
use crate::error::StakingError;
use crate::events::{
    ClaimEvent, PoolInitialized, PoolPausedEvent, RewardRateUpdated, RewardsFunded, StakeEvent,
    UnstakeEvent,
};
use crate::state::{StakePool, UserStake};
use vstd::prelude::*;

verus! {

/// What the position is owed at `now`: the rewards already settled plus
/// those accrued since its checkpoint at the pool's current rate.
///
/// The current rate is applied to the whole interval since the checkpoint,
/// also to the part of it that passed under an earlier rate.
pub open spec fn rewards_owed(pool: StakePool, position: UserStake, now: i64) -> int {
    position.pending_rewards + accrued_rewards(
        position.staked_amount,
        position.last_stake_time,
        now,
        pool.reward_rate,
    )
}

/// What a deposit settles into the position's pending rewards at `now`: the
/// rewards owed where something was staked, and the pending rewards as they
/// are where nothing was.
pub open spec fn stake_settlement(ctx: Stake, now: i64) -> int {
    if ctx.user_stake.staked_amount > 0 {
        rewards_owed(ctx.pool, ctx.user_stake, now)
    } else {
        ctx.user_stake.pending_rewards as int
    }
}

/// Why a deposit of `amount` at `now` is refused, if it is: the first
/// failure in the order of the checks.
///
/// The minimum applies to the balance after the deposit, so a position at or
/// above it may be topped up by any positive amount.
pub open spec fn stake_fault(ctx: Stake, amount: u64, now: i64) -> Option<StakingError> {
    if ctx.binding_fault() is Some {
        ctx.binding_fault()
    } else if amount == 0 {
        Some(StakingError::InvalidAmount)
    } else if ctx.pool.paused {
        Some(StakingError::PoolPaused)
    } else if ctx.user_stake.staked_amount + amount > u64::MAX {
        Some(StakingError::MathOverflow)
    } else if ctx.user_stake.staked_amount + amount < ctx.pool.min_stake_amount {
        Some(StakingError::BelowMinimumStake)
    } else if stake_settlement(ctx, now) > u64::MAX {
        Some(StakingError::MathOverflow)
    } else if ctx.pool.total_staked + amount > u64::MAX {
        Some(StakingError::MathOverflow)
    } else {
        None
    }
}

/// The accounts after a deposit of `amount` at `now` that is not refused.
///
/// A position that nobody owns yet is bound to the depositor and the pool.
/// The rewards earned on the balance before the deposit are settled, the
/// checkpoint moves to `now`, and the lock clock starts at `now` unless it is
/// already running.
pub open spec fn stake_applied(ctx: Stake, amount: u64, now: i64) -> Stake {
    let unowned = ctx.user_stake.owner.is_zero();
    Stake {
        pool: StakePool {
            total_staked: (ctx.pool.total_staked + amount) as u64,
            last_update_time: now,
            ..ctx.pool
        },
        user_stake: UserStake {
            owner: if unowned {
                ctx.user
            } else {
                ctx.user_stake.owner
            },
            pool: if unowned {
                ctx.pool_address
            } else {
                ctx.user_stake.pool
            },
            bump: if unowned {
                ctx.user_stake_bump
            } else {
                ctx.user_stake.bump
            },
            staked_amount: (ctx.user_stake.staked_amount + amount) as u64,
            pending_rewards: stake_settlement(ctx, now) as u64,
            last_stake_time: now,
            stake_start_time: if ctx.user_stake.stake_start_time == 0 {
                now
            } else {
                ctx.user_stake.stake_start_time
            },
            ..ctx.user_stake
        },
        ..ctx
    }
}

/// The transfer that a deposit takes in: from the depositor to the pool's
/// vault, on the depositor's signature.
pub open spec fn stake_transfer(ctx: Stake, amount: u64) -> TransferOrder {
    TransferOrder {
        from: ctx.user_token_account.address,
        to: ctx.pool_vault.address,
        authority: ctx.user,
        authorization: Authorization::Owner,
        mint: Some(ctx.staking_mint),
        amount,
    }
}

/// The log entry of a deposit.
pub open spec fn stake_event(ctx: Stake, amount: u64, now: i64) -> StakeEvent {
    StakeEvent {
        user: ctx.user,
        pool: ctx.pool_address,
        amount,
        total_staked: (ctx.user_stake.staked_amount + amount) as u64,
        timestamp: now,
    }
}

/// Deposits `amount` into the caller's position at time `now`.
pub fn stake(ctx: &mut Stake, amount: u64, now: i64) -> (result: Result<
    (TransferOrder, StakeEvent),
    StakingError,
>)
    ensures
        match result {
            Ok((transfer, event)) => {
                &&& stake_fault(*old(ctx), amount, now) is None
                &&& *final(ctx) == stake_applied(*old(ctx), amount, now)
                &&& transfer == stake_transfer(*old(ctx), amount)
                &&& event == stake_event(*old(ctx), amount, now)
            },
            Err(e) => {
                &&& stake_fault(*old(ctx), amount, now) == Some(e)
                &&& *final(ctx) == *old(ctx)
            },
        },
{
    match ctx.validate() {
        Err(e) => {
            return Err(e);
        },
        Ok(_) => {},
    }
    if amount == 0 {
        return Err(StakingError::InvalidAmount);
    }
    if ctx.pool.paused {
        return Err(StakingError::PoolPaused);
    }
    let new_total: u64 = match ctx.user_stake.staked_amount.checked_add(amount) {
        Some(t) => t,
        None => {
            return Err(StakingError::MathOverflow);
        },
    };
    if new_total < ctx.pool.min_stake_amount {
        return Err(StakingError::BelowMinimumStake);
    }
    let mut settled: u64 = ctx.user_stake.pending_rewards;
    if ctx.user_stake.staked_amount > 0 {
        let pending: u64 = calculate_pending_rewards(
            ctx.user_stake.staked_amount,
            ctx.user_stake.last_stake_time,
            now,
            ctx.pool.reward_rate,
        );
        match ctx.user_stake.pending_rewards.checked_add(pending) {
            Some(s) => {
                settled = s;
            },
            None => {
                return Err(StakingError::MathOverflow);
            },
        }
    }
    let total_staked: u64 = match ctx.pool.total_staked.checked_add(amount) {
        Some(t) => t,
        None => {
            return Err(StakingError::MathOverflow);
        },
    };
    let transfer = TransferOrder {
        from: ctx.user_token_account.address,
        to: ctx.pool_vault.address,
        authority: ctx.user,
        authorization: Authorization::Owner,
        mint: Some(ctx.staking_mint),
        amount,
    };

    if ctx.user_stake.owner.is_unset() {
        ctx.user_stake.owner = ctx.user;
        ctx.user_stake.pool = ctx.pool_address;
        ctx.user_stake.bump = ctx.user_stake_bump;
    }
    ctx.user_stake.pending_rewards = settled;
    ctx.user_stake.staked_amount = new_total;
    ctx.user_stake.last_stake_time = now;
    if ctx.user_stake.stake_start_time == 0 {
        ctx.user_stake.stake_start_time = now;
    }
    ctx.pool.total_staked = total_staked;
    ctx.pool.last_update_time = now;

    let event = StakeEvent {
        user: ctx.user,
        pool: ctx.pool_address,
        amount,
        total_staked: new_total,
        timestamp: now,
    };
    Ok((transfer, event))
}

/// Why a withdrawal of `amount` at `now` is refused, if it is: the first
/// failure in the order of the checks.
pub open spec fn unstake_fault(ctx: Unstake, amount: u64, now: i64) -> Option<StakingError> {
    if ctx.binding_fault() is Some {
        ctx.binding_fault()
    } else if amount == 0 {
        Some(StakingError::InvalidAmount)
    } else if ctx.user_stake.staked_amount < amount {
        Some(StakingError::InsufficientStake)
    } else if !(i64::MIN <= now - ctx.user_stake.stake_start_time <= i64::MAX) {
        Some(StakingError::MathOverflow)
    } else if now - ctx.user_stake.stake_start_time < ctx.pool.lock_period {
        Some(StakingError::StillLocked)
    } else if rewards_owed(ctx.pool, ctx.user_stake, now) > u64::MAX {
        Some(StakingError::MathOverflow)
    } else if ctx.pool.total_staked < amount {
        Some(StakingError::MathOverflow)
    } else {
        None
    }
}

/// The accounts after a withdrawal of `amount` at `now` that is not refused.
///
/// The rewards earned on the balance before the withdrawal are settled, the
/// checkpoint moves to `now`, and the lock clock is disarmed once nothing is
/// left.
pub open spec fn unstake_applied(ctx: Unstake, amount: u64, now: i64) -> Unstake {
    let remaining = (ctx.user_stake.staked_amount - amount) as u64;
    Unstake {
        pool: StakePool {
            total_staked: (ctx.pool.total_staked - amount) as u64,
            last_update_time: now,
            ..ctx.pool
        },
        user_stake: UserStake {
            staked_amount: remaining,
            pending_rewards: rewards_owed(ctx.pool, ctx.user_stake, now) as u64,
            last_stake_time: now,
            stake_start_time: if remaining == 0 {
                0
            } else {
                ctx.user_stake.stake_start_time
            },
            ..ctx.user_stake
        },
        ..ctx
    }
}

/// The transfer that pays a withdrawal out: from the pool's vault to the
/// withdrawer, on the pool's own authority.
pub open spec fn unstake_transfer(ctx: Unstake, amount: u64) -> TransferOrder {
    TransferOrder {
        from: ctx.pool_vault.address,
        to: ctx.user_token_account.address,
        authority: ctx.pool_address,
        authorization: Authorization::Pool,
        mint: Some(ctx.staking_mint),
        amount,
    }
}

/// The log entry of a withdrawal.
pub open spec fn unstake_event(ctx: Unstake, amount: u64, now: i64) -> UnstakeEvent {
    UnstakeEvent {
        user: ctx.user,
        pool: ctx.pool_address,
        amount,
        remaining_stake: (ctx.user_stake.staked_amount - amount) as u64,
        timestamp: now,
    }
}

/// Withdraws `amount` from the caller's position at time `now`.
pub fn unstake(ctx: &mut Unstake, amount: u64, now: i64) -> (result: Result<
    (TransferOrder, UnstakeEvent),
    StakingError,
>)
    ensures
        match result {
            Ok((transfer, event)) => {
                &&& unstake_fault(*old(ctx), amount, now) is None
                &&& *final(ctx) == unstake_applied(*old(ctx), amount, now)
                &&& transfer == unstake_transfer(*old(ctx), amount)
                &&& event == unstake_event(*old(ctx), amount, now)
            },
            Err(e) => {
                &&& unstake_fault(*old(ctx), amount, now) == Some(e)
                &&& *final(ctx) == *old(ctx)
            },
        },
{
    match ctx.validate() {
        Err(e) => {
            return Err(e);
        },
        Ok(_) => {},
    }
    if amount == 0 {
        return Err(StakingError::InvalidAmount);
    }
    if ctx.user_stake.staked_amount < amount {
        return Err(StakingError::InsufficientStake);
    }
    let time_staked: i64 = match now.checked_sub(ctx.user_stake.stake_start_time) {
        Some(t) => t,
        None => {
            return Err(StakingError::MathOverflow);
        },
    };
    if time_staked < ctx.pool.lock_period {
        return Err(StakingError::StillLocked);
    }
    let pending: u64 = calculate_pending_rewards(
        ctx.user_stake.staked_amount,
        ctx.user_stake.last_stake_time,
        now,
        ctx.pool.reward_rate,
    );
    let settled: u64 = match ctx.user_stake.pending_rewards.checked_add(pending) {
        Some(s) => s,
        None => {
            return Err(StakingError::MathOverflow);
        },
    };
    let remaining: u64 = ctx.user_stake.staked_amount - amount;
    let total_staked: u64 = match ctx.pool.total_staked.checked_sub(amount) {
        Some(t) => t,
        None => {
            return Err(StakingError::MathOverflow);
        },
    };
    let transfer = TransferOrder {
        from: ctx.pool_vault.address,
        to: ctx.user_token_account.address,
        authority: ctx.pool_address,
        authorization: Authorization::Pool,
        mint: Some(ctx.staking_mint),
        amount,
    };

    ctx.user_stake.pending_rewards = settled;
    ctx.user_stake.staked_amount = remaining;
    ctx.user_stake.last_stake_time = now;
    if remaining == 0 {
        ctx.user_stake.stake_start_time = 0;
    }
    ctx.pool.total_staked = total_staked;
    ctx.pool.last_update_time = now;

    let event = UnstakeEvent {
        user: ctx.user,
        pool: ctx.pool_address,
        amount,
        remaining_stake: remaining,
        timestamp: now,
    };
    Ok((transfer, event))
}

/// Why a claim at `now` is refused, if it is: the first failure in the order
/// of the checks.
///
/// A claim is paid in full or not at all: where the reward vault holds less
/// than is owed, the claim is refused.
pub open spec fn claim_fault(ctx: ClaimRewards, now: i64) -> Option<StakingError> {
    let owed = rewards_owed(ctx.pool, ctx.user_stake, now);
    if ctx.binding_fault() is Some {
        ctx.binding_fault()
    } else if owed > u64::MAX {
        Some(StakingError::MathOverflow)
    } else if owed == 0 {
        Some(StakingError::NoRewards)
    } else if ctx.reward_vault.amount < owed {
        Some(StakingError::InsufficientRewardBalance)
    } else if ctx.user_stake.total_rewards_claimed + owed > u64::MAX {
        Some(StakingError::MathOverflow)
    } else {
        None
    }
}

/// The accounts after a claim at `now` that is not refused.
///
/// Everything owed is paid: nothing stays pending, the checkpoint moves to
/// `now` so that the paid interval is not counted again, and the lifetime
/// counter grows by the payment. The staked balance, the lock clock and the
/// pool are not touched.
pub open spec fn claim_applied(ctx: ClaimRewards, now: i64) -> ClaimRewards {
    let owed = rewards_owed(ctx.pool, ctx.user_stake, now);
    ClaimRewards {
        user_stake: UserStake {
            pending_rewards: 0,
            last_stake_time: now,
            total_rewards_claimed: (ctx.user_stake.total_rewards_claimed + owed) as u64,
            ..ctx.user_stake
        },
        ..ctx
    }
}

/// The transfer that pays a claim out: from the reward vault to the
/// claimant, on the pool's own authority.
pub open spec fn claim_transfer(ctx: ClaimRewards, now: i64) -> TransferOrder {
    TransferOrder {
        from: ctx.reward_vault.address,
        to: ctx.user_reward_account.address,
        authority: ctx.pool_address,
        authorization: Authorization::Pool,
        mint: None,
        amount: rewards_owed(ctx.pool, ctx.user_stake, now) as u64,
    }
}

/// The log entry of a claim.
pub open spec fn claim_event(ctx: ClaimRewards, now: i64) -> ClaimEvent {
    ClaimEvent {
        user: ctx.user,
        pool: ctx.pool_address,
        amount: rewards_owed(ctx.pool, ctx.user_stake, now) as u64,
        timestamp: now,
    }
}

/// Pays out everything that the caller's position is owed at time `now`.
pub fn claim_rewards(ctx: &mut ClaimRewards, now: i64) -> (result: Result<
    (TransferOrder, ClaimEvent),
    StakingError,
>)
    ensures
        match result {
            Ok((transfer, event)) => {
                &&& claim_fault(*old(ctx), now) is None
                &&& *final(ctx) == claim_applied(*old(ctx), now)
                &&& transfer == claim_transfer(*old(ctx), now)
                &&& event == claim_event(*old(ctx), now)
            },
            Err(e) => {
                &&& claim_fault(*old(ctx), now) == Some(e)
                &&& *final(ctx) == *old(ctx)
            },
        },
{
    match ctx.validate() {
        Err(e) => {
            return Err(e);
        },
        Ok(_) => {},
    }
    let pending: u64 = calculate_pending_rewards(
        ctx.user_stake.staked_amount,
        ctx.user_stake.last_stake_time,
        now,
        ctx.pool.reward_rate,
    );
    let total_rewards: u64 = match ctx.user_stake.pending_rewards.checked_add(pending) {
        Some(t) => t,
        None => {
            return Err(StakingError::MathOverflow);
        },
    };
    if total_rewards == 0 {
        return Err(StakingError::NoRewards);
    }
    if ctx.reward_vault.amount < total_rewards {
        return Err(StakingError::InsufficientRewardBalance);
    }
    let total_claimed: u64 = match ctx.user_stake.total_rewards_claimed.checked_add(
        total_rewards,
    ) {
        Some(t) => t,
        None => {
            return Err(StakingError::MathOverflow);
        },
    };
    let transfer = TransferOrder {
        from: ctx.reward_vault.address,
        to: ctx.user_reward_account.address,
        authority: ctx.pool_address,
        authorization: Authorization::Pool,
        mint: None,
        amount: total_rewards,
    };

    ctx.user_stake.pending_rewards = 0;
    ctx.user_stake.last_stake_time = now;
    ctx.user_stake.total_rewards_claimed = total_claimed;

    let event = ClaimEvent {
        user: ctx.user,
        pool: ctx.pool_address,
        amount: total_rewards,
        timestamp: now,
    };
    Ok((transfer, event))
}

/// The accounts after the pool's authority has set the reward rate to
/// `new_rate` at `now`.
///
/// The new rate applies to every settlement from here on, for the whole
/// interval since the position's checkpoint: rewards are not split at the
/// moment of the change.
pub open spec fn rate_applied(ctx: AdminAction, new_rate: u64, now: i64) -> AdminAction {
    AdminAction {
        pool: StakePool { reward_rate: new_rate, last_update_time: now, ..ctx.pool },
        ..ctx
    }
}

/// Sets the pool's reward rate. Only the pool's authority may do so.
pub fn update_reward_rate(ctx: &mut AdminAction, new_rate: u64, now: i64) -> (result: Result<
    RewardRateUpdated,
    StakingError,
>)
    ensures
        match result {
            Ok(event) => {
                &&& old(ctx).binding_fault() is None
                &&& *final(ctx) == rate_applied(*old(ctx), new_rate, now)
                &&& event == (RewardRateUpdated {
                    pool: old(ctx).pool_address,
                    old_rate: old(ctx).pool.reward_rate,
                    new_rate,
                })
            },
            Err(e) => {
                &&& old(ctx).binding_fault() == Some(e)
                &&& *final(ctx) == *old(ctx)
            },
        },
{
    match ctx.validate() {
        Err(e) => {
            return Err(e);
        },
        Ok(_) => {},
    }
    let old_rate: u64 = ctx.pool.reward_rate;
    ctx.pool.reward_rate = new_rate;
    ctx.pool.last_update_time = now;
    Ok(RewardRateUpdated { pool: ctx.pool_address, old_rate, new_rate })
}

/// The accounts after the pool's authority has set the pause flag.
pub open spec fn pause_applied(ctx: AdminAction, paused: bool) -> AdminAction {
    AdminAction { pool: StakePool { paused, ..ctx.pool }, ..ctx }
}

/// Pauses or resumes deposits. Only the pool's authority may do so.
pub fn set_paused(ctx: &mut AdminAction, paused: bool) -> (result: Result<
    PoolPausedEvent,
    StakingError,
>)
    ensures
        match result {
            Ok(event) => {
                &&& old(ctx).binding_fault() is None
                &&& *final(ctx) == pause_applied(*old(ctx), paused)
                &&& event == (PoolPausedEvent { pool: old(ctx).pool_address, paused })
            },
            Err(e) => {
                &&& old(ctx).binding_fault() == Some(e)
                &&& *final(ctx) == *old(ctx)
            },
        },
{
    match ctx.validate() {
        Err(e) => {
            return Err(e);
        },
        Ok(_) => {},
    }
    ctx.pool.paused = paused;
    Ok(PoolPausedEvent { pool: ctx.pool_address, paused })
}

/// Why a top-up of `amount` is refused, if it is.
pub open spec fn fund_fault(ctx: FundRewards, amount: u64) -> Option<StakingError> {
    if ctx.binding_fault() is Some {
        ctx.binding_fault()
    } else if amount == 0 {
        Some(StakingError::InvalidAmount)
    } else {
        None
    }
}

/// The transfer that a top-up takes in: from the funder to the reward
/// vault, on the funder's signature.
pub open spec fn fund_transfer(ctx: FundRewards, amount: u64) -> TransferOrder {
    TransferOrder {
        from: ctx.funder_token_account.address,
        to: ctx.reward_vault.address,
        authority: ctx.funder,
        authorization: Authorization::Owner,
        mint: None,
        amount,
    }
}

/// Tops the reward reserve up by `amount`. Anyone may do so. No record of
/// the ledger changes.
pub fn fund_rewards(ctx: &FundRewards, amount: u64) -> (result: Result<
    (TransferOrder, RewardsFunded),
    StakingError,
>)
    ensures
        match result {
            Ok((transfer, event)) => {
                &&& fund_fault(*ctx, amount) is None
                &&& transfer == fund_transfer(*ctx, amount)
                &&& event == (RewardsFunded {
                    pool: ctx.pool_address,
                    funder: ctx.funder,
                    amount,
                })
            },
            Err(e) => fund_fault(*ctx, amount) == Some(e),
        },
{
    match ctx.validate() {
        Err(e) => {
            return Err(e);
        },
        Ok(_) => {},
    }
    if amount == 0 {
        return Err(StakingError::InvalidAmount);
    }
    let transfer = TransferOrder {
        from: ctx.funder_token_account.address,
        to: ctx.reward_vault.address,
        authority: ctx.funder,
        authorization: Authorization::Owner,
        mint: None,
        amount,
    };
    Ok((transfer, RewardsFunded { pool: ctx.pool_address, funder: ctx.funder, amount }))
}

/// The pool record that creation writes.
pub open spec fn initial_pool(
    ctx: InitializePool,
    reward_rate: u64,
    lock_period: i64,
    min_stake_amount: u64,
    now: i64,
) -> StakePool {
    StakePool {
        authority: ctx.authority,
        staking_mint: ctx.staking_mint.address,
        reward_mint: ctx.reward_mint.address,
        pool_vault: ctx.pool_vault.address,
        reward_vault: ctx.reward_vault.address,
        reward_rate,
        lock_period,
        min_stake_amount,
        total_staked: 0,
        last_update_time: now,
        paused: false,
        bump: ctx.pool_bump,
    }
}

/// Creates a pool at time `now`, with the caller as its authority.
///
/// Nothing is staked yet and the pool is not paused. No value of the three
/// parameters is refused; a lock period of zero or less locks nothing.
pub fn initialize_pool(
    ctx: &mut InitializePool,
    reward_rate: u64,
    lock_period: i64,
    min_stake_amount: u64,
    now: i64,
) -> (result: Result<PoolInitialized, StakingError>)
    ensures
        *final(ctx) == (InitializePool {
            pool: initial_pool(*old(ctx), reward_rate, lock_period, min_stake_amount, now),
            ..*old(ctx)
        }),
        result == Ok::<PoolInitialized, StakingError>(
            PoolInitialized {
                pool: old(ctx).pool_address,
                staking_mint: old(ctx).staking_mint.address,
                reward_mint: old(ctx).reward_mint.address,
                reward_rate,
                lock_period,
                min_stake_amount,
            },
        ),
{
    ctx.pool.authority = ctx.authority;
    ctx.pool.staking_mint = ctx.staking_mint.address;
    ctx.pool.reward_mint = ctx.reward_mint.address;
    ctx.pool.pool_vault = ctx.pool_vault.address;
    ctx.pool.reward_vault = ctx.reward_vault.address;
    ctx.pool.reward_rate = reward_rate;
    ctx.pool.lock_period = lock_period;
    ctx.pool.min_stake_amount = min_stake_amount;
    ctx.pool.total_staked = 0;
    ctx.pool.last_update_time = now;
    ctx.pool.paused = false;
    ctx.pool.bump = ctx.pool_bump;
    Ok(
        PoolInitialized {
            pool: ctx.pool_address,
            staking_mint: ctx.staking_mint.address,
            reward_mint: ctx.reward_mint.address,
            reward_rate,
            lock_period,
            min_stake_amount,
        },
    )
}

} // verus!
