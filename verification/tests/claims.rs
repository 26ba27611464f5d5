use memecoin_staking::{
    claim_rewards, Authorization, ClaimEvent, ClaimRewards, Pubkey, StakePool, StakingError,
    TokenAccount, TransferOrder, UserStake,
};

const ONE: u64 = 1_000_000_000_000_000_000;

fn key(tag: u8) -> Pubkey {
    Pubkey::new_from_array([tag; 32])
}

fn claim(staked_amount: u64, pending_rewards: u64, vault_balance: u64) -> ClaimRewards {
    ClaimRewards {
        user: key(10),
        pool_address: key(9),
        pool: StakePool {
            authority: key(1),
            staking_mint: key(2),
            reward_mint: key(3),
            pool_vault: key(4),
            reward_vault: key(5),
            reward_rate: ONE,
            lock_period: 3_600,
            min_stake_amount: 1,
            total_staked: staked_amount,
            last_update_time: 0,
            paused: false,
            bump: 254,
        },
        user_stake: UserStake {
            owner: key(10),
            pool: key(9),
            staked_amount,
            pending_rewards,
            last_stake_time: 100,
            stake_start_time: 50,
            total_rewards_claimed: 5,
            bump: 253,
        },
        user_reward_account: TokenAccount {
            address: key(13),
            owner: key(10),
            mint: key(3),
            amount: 0,
        },
        reward_vault: TokenAccount {
            address: key(5),
            owner: key(9),
            mint: key(3),
            amount: vault_balance,
        },
    }
}

#[test]
fn claim_pays_pending_and_accrued() {
    let mut ctx: ClaimRewards = claim(100, 40, 10_000);
    let before: ClaimRewards = ctx;
    let (transfer, event): (TransferOrder, ClaimEvent) = claim_rewards(&mut ctx, 110).unwrap();

    // 40 pending and 100 * 10 accrued
    assert_eq!(
        transfer,
        TransferOrder {
            from: key(5),
            to: key(13),
            authority: key(9),
            authorization: Authorization::Pool,
            mint: None,
            amount: 1_040,
        }
    );
    assert_eq!(
        event,
        ClaimEvent { user: key(10), pool: key(9), amount: 1_040, timestamp: 110 }
    );
    assert_eq!(
        ctx.user_stake,
        UserStake {
            pending_rewards: 0,
            last_stake_time: 110,
            total_rewards_claimed: 1_045,
            ..before.user_stake
        }
    );
    assert_eq!(ctx.pool, before.pool);
    assert_eq!(ctx.reward_vault, before.reward_vault);
}

#[test]
fn claim_leaves_stake_and_lock_clock_alone() {
    let mut ctx: ClaimRewards = claim(100, 0, 10_000);
    claim_rewards(&mut ctx, 110).unwrap();
    assert_eq!(ctx.user_stake.staked_amount, 100);
    assert_eq!(ctx.user_stake.stake_start_time, 50);
    assert_eq!(ctx.pool.total_staked, 100);
    assert_eq!(ctx.pool.last_update_time, 0);
}

#[test]
fn claim_during_the_lock_period_is_paid() {
    let mut ctx: ClaimRewards = claim(100, 0, 10_000);
    assert!(claim_rewards(&mut ctx, 101).is_ok());
    assert_eq!(ctx.user_stake.total_rewards_claimed, 105);
}

#[test]
fn claim_from_paused_pool_goes_on() {
    let mut ctx: ClaimRewards = claim(100, 0, 10_000);
    ctx.pool.paused = true;
    assert!(claim_rewards(&mut ctx, 110).is_ok());
}

#[test]
fn claim_of_settled_rewards_without_stake() {
    let mut ctx: ClaimRewards = claim(0, 77, 77);
    let (transfer, _): (TransferOrder, ClaimEvent) = claim_rewards(&mut ctx, 1_000_000).unwrap();
    assert_eq!(transfer.amount, 77);
    assert_eq!(ctx.user_stake.pending_rewards, 0);
}

#[test]
fn claim_with_nothing_owed_is_refused() {
    let mut ctx: ClaimRewards = claim(100, 0, 10_000);
    let before: ClaimRewards = ctx;
    assert_eq!(claim_rewards(&mut ctx, 100), Err(StakingError::NoRewards));
    assert_eq!(ctx, before);
    assert_eq!(claim_rewards(&mut ctx, 99), Err(StakingError::NoRewards));
    let mut empty: ClaimRewards = claim(0, 0, 10_000);
    assert_eq!(claim_rewards(&mut empty, 5_000), Err(StakingError::NoRewards));
}

#[test]
fn second_claim_at_the_same_instant_finds_nothing() {
    let mut ctx: ClaimRewards = claim(100, 40, 10_000);
    claim_rewards(&mut ctx, 110).unwrap();
    let after_first: ClaimRewards = ctx;
    assert_eq!(claim_rewards(&mut ctx, 110), Err(StakingError::NoRewards));
    assert_eq!(ctx, after_first);
    assert_eq!(ctx.user_stake.total_rewards_claimed, 1_045);
}

#[test]
fn claim_from_underfunded_vault_is_refused() {
    let mut ctx: ClaimRewards = claim(100, 40, 1_039);
    let before: ClaimRewards = ctx;
    assert_eq!(claim_rewards(&mut ctx, 110), Err(StakingError::InsufficientRewardBalance));
    assert_eq!(ctx.user_stake.pending_rewards, 40);
    assert_eq!(ctx, before);
}

#[test]
fn claim_that_empties_the_vault_is_paid() {
    let mut ctx: ClaimRewards = claim(100, 40, 1_040);
    assert!(claim_rewards(&mut ctx, 110).is_ok());
}

#[test]
fn claim_that_overflows_what_is_owed_is_refused() {
    let mut ctx: ClaimRewards = claim(100, u64::MAX - 999, u64::MAX);
    let before: ClaimRewards = ctx;
    assert_eq!(claim_rewards(&mut ctx, 110), Err(StakingError::MathOverflow));
    assert_eq!(ctx, before);
}

#[test]
fn claim_that_overflows_the_lifetime_counter_is_refused() {
    let mut ctx: ClaimRewards = claim(100, 0, u64::MAX);
    ctx.user_stake.total_rewards_claimed = u64::MAX - 999;
    let before: ClaimRewards = ctx;
    assert_eq!(claim_rewards(&mut ctx, 110), Err(StakingError::MathOverflow));
    assert_eq!(ctx, before);
    assert!(claim_rewards(&mut ctx, 109).is_ok());
    assert_eq!(ctx.user_stake.total_rewards_claimed, u64::MAX - 99);
}

#[test]
fn claim_with_accrual_out_of_range_pays_only_what_is_pending() {
    // the accrued part does not fit in 64 bits and counts as zero
    let mut ctx: ClaimRewards = claim(u64::MAX, 12, 1_000);
    let (transfer, _): (TransferOrder, ClaimEvent) = claim_rewards(&mut ctx, 102).unwrap();
    assert_eq!(transfer.amount, 12);
}

#[test]
fn claim_by_someone_else_is_refused() {
    let mut ctx: ClaimRewards = claim(100, 40, 10_000);
    ctx.user = key(12);
    ctx.user_reward_account.owner = key(12);
    let before: ClaimRewards = ctx;
    assert_eq!(claim_rewards(&mut ctx, 110), Err(StakingError::InvalidOwner));
    assert_eq!(ctx, before);
}

#[test]
fn claim_into_someone_elses_account_is_refused() {
    let mut ctx: ClaimRewards = claim(100, 40, 10_000);
    ctx.user_reward_account.owner = key(12);
    assert_eq!(claim_rewards(&mut ctx, 110), Err(StakingError::InvalidOwner));
    assert_eq!(ctx.validate(), Err(StakingError::InvalidOwner));
}

#[test]
fn claim_into_account_of_another_asset_is_refused() {
    let mut ctx: ClaimRewards = claim(100, 40, 10_000);
    ctx.user_reward_account.mint = key(2);
    assert_eq!(claim_rewards(&mut ctx, 110), Err(StakingError::InvalidMint));
    assert_eq!(ctx.validate(), Err(StakingError::InvalidMint));
}

#[test]
fn claim_accounts_in_order_validate() {
    let ctx: ClaimRewards = claim(100, 40, 10_000);
    assert_eq!(ctx.validate(), Ok(()));
}
