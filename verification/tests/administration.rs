use memecoin_staking::{
    fund_rewards, initialize_pool, set_paused, update_reward_rate, AdminAction, Authorization,
    FundRewards, InitializePool, Mint, PoolInitialized, PoolPausedEvent, Pubkey,
    RewardRateUpdated, RewardsFunded, StakePool, StakingError, TokenAccount, TransferOrder,
};

const ONE: u64 = 1_000_000_000_000_000_000;

fn key(tag: u8) -> Pubkey {
    Pubkey::new_from_array([tag; 32])
}

fn blank_pool() -> StakePool {
    StakePool {
        authority: Pubkey::default(),
        staking_mint: Pubkey::default(),
        reward_mint: Pubkey::default(),
        pool_vault: Pubkey::default(),
        reward_vault: Pubkey::default(),
        reward_rate: 0,
        lock_period: 0,
        min_stake_amount: 0,
        total_staked: 0,
        last_update_time: 0,
        paused: false,
        bump: 0,
    }
}

fn creation(pool: StakePool) -> InitializePool {
    InitializePool {
        authority: key(1),
        pool_address: key(9),
        pool_bump: 254,
        pool,
        staking_mint: Mint { address: key(2), decimals: 6 },
        reward_mint: Mint { address: key(3), decimals: 6 },
        pool_vault: TokenAccount { address: key(4), owner: key(9), mint: key(2), amount: 0 },
        reward_vault: TokenAccount { address: key(5), owner: key(9), mint: key(3), amount: 0 },
    }
}

fn running_pool() -> StakePool {
    StakePool {
        authority: key(1),
        staking_mint: key(2),
        reward_mint: key(3),
        pool_vault: key(4),
        reward_vault: key(5),
        reward_rate: ONE,
        lock_period: 3_600,
        min_stake_amount: 10,
        total_staked: 12_345,
        last_update_time: 500,
        paused: false,
        bump: 254,
    }
}

fn top_up() -> FundRewards {
    FundRewards {
        funder: key(20),
        pool_address: key(9),
        pool: running_pool(),
        funder_token_account: TokenAccount {
            address: key(21),
            owner: key(20),
            mint: key(3),
            amount: 1_000,
        },
        reward_vault: TokenAccount { address: key(5), owner: key(9), mint: key(3), amount: 0 },
    }
}

#[test]
fn creation_fills_the_pool_record() {
    let mut ctx: InitializePool = creation(blank_pool());
    let before: InitializePool = ctx;
    let event: PoolInitialized = initialize_pool(&mut ctx, ONE, 86_400, 1_000, 1_700_000_000).unwrap();

    assert_eq!(
        ctx.pool,
        StakePool {
            authority: key(1),
            staking_mint: key(2),
            reward_mint: key(3),
            pool_vault: key(4),
            reward_vault: key(5),
            reward_rate: ONE,
            lock_period: 86_400,
            min_stake_amount: 1_000,
            total_staked: 0,
            last_update_time: 1_700_000_000,
            paused: false,
            bump: 254,
        }
    );
    assert_eq!(ctx, InitializePool { pool: ctx.pool, ..before });
    assert_eq!(
        event,
        PoolInitialized {
            pool: key(9),
            staking_mint: key(2),
            reward_mint: key(3),
            reward_rate: ONE,
            lock_period: 86_400,
            min_stake_amount: 1_000,
        }
    );
}

#[test]
fn creation_overwrites_whatever_the_record_held() {
    let mut dirty: StakePool = running_pool();
    dirty.paused = true;
    dirty.authority = key(77);
    let mut ctx: InitializePool = creation(dirty);
    initialize_pool(&mut ctx, 5, 6, 7, 8).unwrap();
    assert_eq!(ctx.pool.authority, key(1));
    assert_eq!(ctx.pool.total_staked, 0);
    assert!(!ctx.pool.paused);
    assert_eq!(ctx.pool.reward_rate, 5);
    assert_eq!(ctx.pool.lock_period, 6);
    assert_eq!(ctx.pool.min_stake_amount, 7);
    assert_eq!(ctx.pool.last_update_time, 8);
}

#[test]
fn creation_accepts_any_parameters() {
    let mut ctx: InitializePool = creation(blank_pool());
    assert!(initialize_pool(&mut ctx, 0, 0, 0, 0).is_ok());
    let mut ctx: InitializePool = creation(blank_pool());
    assert!(initialize_pool(&mut ctx, u64::MAX, i64::MIN, u64::MAX, i64::MIN).is_ok());
    assert_eq!(ctx.pool.lock_period, i64::MIN);
    let mut ctx: InitializePool = creation(blank_pool());
    assert!(initialize_pool(&mut ctx, 1, -1, 1, -1).is_ok());
    assert_eq!(ctx.pool.lock_period, -1);
}

#[test]
fn authority_changes_the_rate() {
    let mut ctx: AdminAction =
        AdminAction { authority: key(1), pool_address: key(9), pool: running_pool() };
    let event: RewardRateUpdated = update_reward_rate(&mut ctx, 3 * ONE, 900).unwrap();
    assert_eq!(
        ctx.pool,
        StakePool { reward_rate: 3 * ONE, last_update_time: 900, ..running_pool() }
    );
    assert_eq!(event, RewardRateUpdated { pool: key(9), old_rate: ONE, new_rate: 3 * ONE });
    assert_eq!(ctx.authority, key(1));
    assert_eq!(ctx.pool_address, key(9));
}

#[test]
fn stranger_cannot_change_the_rate() {
    let mut ctx: AdminAction =
        AdminAction { authority: key(66), pool_address: key(9), pool: running_pool() };
    let before: AdminAction = ctx;
    assert_eq!(update_reward_rate(&mut ctx, 0, 900), Err(StakingError::Unauthorized));
    assert_eq!(ctx, before);
    assert_eq!(ctx.validate(), Err(StakingError::Unauthorized));
}

#[test]
fn authority_pauses_and_resumes() {
    let mut ctx: AdminAction =
        AdminAction { authority: key(1), pool_address: key(9), pool: running_pool() };
    let event: PoolPausedEvent = set_paused(&mut ctx, true).unwrap();
    assert_eq!(ctx.pool, StakePool { paused: true, ..running_pool() });
    assert_eq!(event, PoolPausedEvent { pool: key(9), paused: true });

    let event: PoolPausedEvent = set_paused(&mut ctx, true).unwrap();
    assert!(ctx.pool.paused);
    assert_eq!(event, PoolPausedEvent { pool: key(9), paused: true });

    let event: PoolPausedEvent = set_paused(&mut ctx, false).unwrap();
    assert_eq!(ctx.pool, running_pool());
    assert_eq!(event, PoolPausedEvent { pool: key(9), paused: false });
    assert_eq!(ctx.validate(), Ok(()));
}

#[test]
fn stranger_cannot_pause() {
    let mut ctx: AdminAction =
        AdminAction { authority: key(66), pool_address: key(9), pool: running_pool() };
    let before: AdminAction = ctx;
    assert_eq!(set_paused(&mut ctx, true), Err(StakingError::Unauthorized));
    assert_eq!(ctx, before);
}

#[test]
fn authority_differing_in_one_byte_is_a_stranger() {
    let mut bytes: [u8; 32] = [1; 32];
    bytes[31] = 2;
    let mut ctx: AdminAction = AdminAction {
        authority: Pubkey::new_from_array(bytes),
        pool_address: key(9),
        pool: running_pool(),
    };
    assert_eq!(set_paused(&mut ctx, true), Err(StakingError::Unauthorized));
}

#[test]
fn anyone_may_fund_the_reserve() {
    let ctx: FundRewards = top_up();
    let (transfer, event): (TransferOrder, RewardsFunded) = fund_rewards(&ctx, 250).unwrap();
    assert_eq!(
        transfer,
        TransferOrder {
            from: key(21),
            to: key(5),
            authority: key(20),
            authorization: Authorization::Owner,
            mint: None,
            amount: 250,
        }
    );
    assert_eq!(event, RewardsFunded { pool: key(9), funder: key(20), amount: 250 });
    assert_eq!(ctx.validate(), Ok(()));
}

#[test]
fn funding_is_not_limited_by_what_the_ledger_sees() {
    // whether the funder can pay is for custody to say
    let ctx: FundRewards = top_up();
    let (transfer, _): (TransferOrder, RewardsFunded) = fund_rewards(&ctx, u64::MAX).unwrap();
    assert_eq!(transfer.amount, u64::MAX);
}

#[test]
fn funding_a_paused_pool_goes_on() {
    let mut ctx: FundRewards = top_up();
    ctx.pool.paused = true;
    assert!(fund_rewards(&ctx, 1).is_ok());
}

#[test]
fn funding_with_zero_is_invalid() {
    assert_eq!(fund_rewards(&top_up(), 0), Err(StakingError::InvalidAmount));
}

#[test]
fn funding_from_someone_elses_account_is_refused() {
    let mut ctx: FundRewards = top_up();
    ctx.funder_token_account.owner = key(22);
    assert_eq!(fund_rewards(&ctx, 250), Err(StakingError::InvalidOwner));
    assert_eq!(fund_rewards(&ctx, 0), Err(StakingError::InvalidOwner));
    assert_eq!(ctx.validate(), Err(StakingError::InvalidOwner));
}

#[test]
fn funding_with_another_asset_is_refused() {
    let mut ctx: FundRewards = top_up();
    ctx.funder_token_account.mint = key(2);
    assert_eq!(fund_rewards(&ctx, 250), Err(StakingError::InvalidMint));
    ctx.funder_token_account.owner = key(22);
    assert_eq!(fund_rewards(&ctx, 250), Err(StakingError::InvalidOwner));
}
