//! What holds of the ledger across operations.
//!
//! The operations work on one position at a time. The laws here speak of a
//! pool together with all of its positions, and of one operation following
//! another.

use crate::accounts::{AdminAction, ClaimRewards, InitializePool, Stake, Unstake};
use crate::custody::TokenAccount;
use crate::error::StakingError;
use crate::operations::{
    claim_applied, claim_fault, initial_pool, pause_applied, rate_applied, rewards_owed,
    stake_applied, stake_fault, stake_settlement, unstake_applied, unstake_fault,
};
use crate::state::{StakePool, UserStake};
use vstd::prelude::*;

verus! {

/// A pool together with all of its positions.
pub struct Ledger {
    pub pool: StakePool,
    pub positions: Seq<UserStake>,
}

/// One operation on a ledger. `slot` says which position it works on. Of the
/// accounts that come with it, the pool and the position are taken from the
/// ledger; the rest is the caller's.
pub enum Step {
    Deposit { slot: int, deposit: Stake, amount: u64, now: i64 },
    Withdrawal { slot: int, withdrawal: Unstake, amount: u64, now: i64 },
    Claim { slot: int, claim: ClaimRewards, now: i64 },
    RateChange { admin: AdminAction, new_rate: u64, now: i64 },
    Pause { admin: AdminAction, paused: bool },
}

/// The sum of the staked amounts of `positions`.
pub open spec fn sum_staked(positions: Seq<UserStake>) -> int
    decreases positions.len(),
{
    if positions.len() == 0 {
        0
    } else {
        sum_staked(positions.drop_last()) + positions.last().staked_amount
    }
}

impl Ledger {
    /// Whether the pool's total is the sum over its positions.
    pub open spec fn balanced(self) -> bool {
        self.pool.total_staked == sum_staked(self.positions)
    }

    /// The ledger with the pool and the position at `slot` replaced.
    pub open spec fn with(self, pool: StakePool, slot: int, position: UserStake) -> Ledger {
        Ledger { pool, positions: self.positions.update(slot, position) }
    }

    /// The ledger after one operation. An operation that is refused, or
    /// that names a position that is not there, changes nothing.
    pub open spec fn after(self, step: Step) -> Ledger {
        match step {
            Step::Deposit { slot, deposit, amount, now } => {
                let ctx = Stake { pool: self.pool, user_stake: self.positions[slot], ..deposit };
                if 0 <= slot < self.positions.len() && stake_fault(ctx, amount, now) is None {
                    let done = stake_applied(ctx, amount, now);
                    self.with(done.pool, slot, done.user_stake)
                } else {
                    self
                }
            },
            Step::Withdrawal { slot, withdrawal, amount, now } => {
                let ctx = Unstake {
                    pool: self.pool,
                    user_stake: self.positions[slot],
                    ..withdrawal
                };
                if 0 <= slot < self.positions.len() && unstake_fault(ctx, amount, now) is None {
                    let done = unstake_applied(ctx, amount, now);
                    self.with(done.pool, slot, done.user_stake)
                } else {
                    self
                }
            },
            Step::Claim { slot, claim, now } => {
                let ctx = ClaimRewards {
                    pool: self.pool,
                    user_stake: self.positions[slot],
                    ..claim
                };
                if 0 <= slot < self.positions.len() && claim_fault(ctx, now) is None {
                    let done = claim_applied(ctx, now);
                    self.with(done.pool, slot, done.user_stake)
                } else {
                    self
                }
            },
            Step::RateChange { admin, new_rate, now } => {
                let ctx = AdminAction { pool: self.pool, ..admin };
                if ctx.binding_fault() is None {
                    Ledger { pool: rate_applied(ctx, new_rate, now).pool, ..self }
                } else {
                    self
                }
            },
            Step::Pause { admin, paused } => {
                let ctx = AdminAction { pool: self.pool, ..admin };
                if ctx.binding_fault() is None {
                    Ledger { pool: pause_applied(ctx, paused).pool, ..self }
                } else {
                    self
                }
            },
        }
    }

    /// The ledger after a sequence of operations, first to last.
    pub open spec fn after_all(self, steps: Seq<Step>) -> Ledger
        decreases steps.len(),
    {
        if steps.len() == 0 {
            self
        } else {
            self.after_all(steps.drop_last()).after(steps.last())
        }
    }
}

/// A pool that was just created, with no positions yet, is balanced.
pub proof fn lemma_new_pool_is_balanced(
    ctx: InitializePool,
    reward_rate: u64,
    lock_period: i64,
    min_stake_amount: u64,
    now: i64,
)
    ensures
        (Ledger {
            pool: initial_pool(ctx, reward_rate, lock_period, min_stake_amount, now),
            positions: Seq::empty(),
        }).balanced(),
{
}

/// One operation keeps a balanced ledger balanced, whether it goes through
/// or is refused.
pub proof fn lemma_step_keeps_balance(ledger: Ledger, step: Step)
    requires
        ledger.balanced(),
    ensures
        ledger.after(step).balanced(),
{
    match step {
        Step::Deposit { slot, deposit, amount, now } => {
            if 0 <= slot < ledger.positions.len() {
                let ctx = Stake {
                    pool: ledger.pool,
                    user_stake: ledger.positions[slot],
                    ..deposit
                };
                lemma_sum_after_update(
                    ledger.positions,
                    slot,
                    stake_applied(ctx, amount, now).user_stake,
                );
            }
        },
        Step::Withdrawal { slot, withdrawal, amount, now } => {
            if 0 <= slot < ledger.positions.len() {
                let ctx = Unstake {
                    pool: ledger.pool,
                    user_stake: ledger.positions[slot],
                    ..withdrawal
                };
                lemma_sum_after_update(
                    ledger.positions,
                    slot,
                    unstake_applied(ctx, amount, now).user_stake,
                );
            }
        },
        Step::Claim { slot, claim, now } => {
            if 0 <= slot < ledger.positions.len() {
                let ctx = ClaimRewards {
                    pool: ledger.pool,
                    user_stake: ledger.positions[slot],
                    ..claim
                };
                lemma_sum_after_update(ledger.positions, slot, claim_applied(ctx, now).user_stake);
            }
        },
        Step::RateChange { admin, new_rate, now } => {},
        Step::Pause { admin, paused } => {},
    }
}

/// After every sequence of deposits, withdrawals, claims and administrative
/// changes on a balanced ledger, the pool's total is the sum of the staked
/// amounts of its positions.
pub proof fn lemma_total_staked_is_sum_of_positions(ledger: Ledger, steps: Seq<Step>)
    requires
        ledger.balanced(),
    ensures
        ledger.after_all(steps).balanced(),
    decreases steps.len(),
{
    if steps.len() > 0 {
        lemma_total_staked_is_sum_of_positions(ledger, steps.drop_last());
        lemma_step_keeps_balance(ledger.after_all(steps.drop_last()), steps.last());
    }
}

/// Whether `later` has everything that a pool is created with for good:
/// its authority, mints, vaults, lock period, minimum stake and bump.
pub open spec fn same_terms(earlier: StakePool, later: StakePool) -> bool {
    &&& later.authority == earlier.authority
    &&& later.staking_mint == earlier.staking_mint
    &&& later.reward_mint == earlier.reward_mint
    &&& later.pool_vault == earlier.pool_vault
    &&& later.reward_vault == earlier.reward_vault
    &&& later.lock_period == earlier.lock_period
    &&& later.min_stake_amount == earlier.min_stake_amount
    &&& later.bump == earlier.bump
}

/// Whether `later` can be a later state of the position `earlier`: a
/// position that has an owner keeps it, with the pool and the bump that it
/// was bound with, and the rewards claimed over its lifetime never go down.
pub open spec fn same_holder(earlier: UserStake, later: UserStake) -> bool {
    &&& !earlier.owner.is_zero() ==> {
        &&& later.owner == earlier.owner
        &&& later.pool == earlier.pool
        &&& later.bump == earlier.bump
    }
    &&& later.total_rewards_claimed >= earlier.total_rewards_claimed
}

/// Whether `later` can be a later state of the ledger `earlier`: the pool
/// has the terms that it was created with, no position has come or gone,
/// and each position has the holder that it had.
pub open spec fn continues(earlier: Ledger, later: Ledger) -> bool {
    &&& same_terms(earlier.pool, later.pool)
    &&& later.positions.len() == earlier.positions.len()
    &&& forall|i: int|
        0 <= i < earlier.positions.len() ==> same_holder(
            #[trigger] earlier.positions[i],
            later.positions[i],
        )
}

/// No sequence of operations changes the terms that a pool was created
/// with, takes a position from its owner, or lowers a lifetime counter.
pub proof fn lemma_operations_keep_terms_and_holders(ledger: Ledger, steps: Seq<Step>)
    ensures
        continues(ledger, ledger.after_all(steps)),
    decreases steps.len(),
{
    if steps.len() > 0 {
        let so_far = ledger.after_all(steps.drop_last());
        lemma_operations_keep_terms_and_holders(ledger, steps.drop_last());
        let done = so_far.after(steps.last());
        assert forall|i: int| 0 <= i < ledger.positions.len() implies same_holder(
            #[trigger] ledger.positions[i],
            done.positions[i],
        ) by {
            assert(same_holder(ledger.positions[i], so_far.positions[i]));
            assert(same_holder(so_far.positions[i], done.positions[i]));
        }
    }
}

/// Right after a deposit, a withdrawal or a claim, the position has nothing
/// accrued that is not settled: an interval that was paid for is not
/// counted again.
pub proof fn lemma_settled_interval_is_not_counted_again(
    deposit: Stake,
    withdrawal: Unstake,
    claim: ClaimRewards,
    amount: u64,
    now: i64,
)
    ensures
        ({
            let done = stake_applied(deposit, amount, now);
            rewards_owed(done.pool, done.user_stake, now) == done.user_stake.pending_rewards
        }),
        ({
            let done = unstake_applied(withdrawal, amount, now);
            rewards_owed(done.pool, done.user_stake, now) == done.user_stake.pending_rewards
        }),
        ({
            let done = claim_applied(claim, now);
            rewards_owed(done.pool, done.user_stake, now) == 0
        }),
{
}

/// A second claim at the same instant finds nothing to pay and is refused
/// with `NoRewards`, whatever the reward vault holds by then.
pub proof fn lemma_second_claim_is_refused(ctx: ClaimRewards, now: i64, vault_balance: u64)
    requires
        claim_fault(ctx, now) is None,
    ensures
        ({
            let paid = claim_applied(ctx, now);
            let again = ClaimRewards {
                reward_vault: TokenAccount { amount: vault_balance, ..paid.reward_vault },
                ..paid
            };
            &&& rewards_owed(again.pool, again.user_stake, now) == 0
            &&& claim_fault(again, now) == Some(StakingError::NoRewards)
        }),
{
}

/// One second before the lock period has passed, a withdrawal that is in
/// order otherwise (the accounts are bound, the amount is positive and
/// covered by the position) is refused with `StillLocked`.
///
/// The time staked has to be a 64-bit number of seconds for the lock to be
/// looked at, which leaves out the lock period of `i64::MIN`.
pub proof fn lemma_withdrawal_before_lock_end(ctx: Unstake, amount: u64, now: i64)
    requires
        ctx.binding_fault() is None,
        0 < amount <= ctx.user_stake.staked_amount,
        now - ctx.user_stake.stake_start_time == ctx.pool.lock_period - 1,
        ctx.pool.lock_period > i64::MIN,
    ensures
        unstake_fault(ctx, amount, now) == Some(StakingError::StillLocked),
{
}

/// At the second at which the lock period has passed, a withdrawal that is
/// in order otherwise goes through: the end of the lock is inclusive.
///
/// It still fails where a counter would leave its range: the rewards owed
/// must fit in 64 bits, and the pool's total must cover the amount, as it
/// does in a balanced ledger.
pub proof fn lemma_withdrawal_at_lock_end(ctx: Unstake, amount: u64, now: i64)
    requires
        ctx.binding_fault() is None,
        0 < amount <= ctx.user_stake.staked_amount,
        now - ctx.user_stake.stake_start_time == ctx.pool.lock_period,
        rewards_owed(ctx.pool, ctx.user_stake, now) <= u64::MAX,
        amount <= ctx.pool.total_staked,
    ensures
        unstake_fault(ctx, amount, now) is None,
{
}

/// A deposit that is in order otherwise (the accounts are bound, the amount
/// is positive, the pool is not paused) and leaves the position under the
/// pool's minimum is refused with `BelowMinimumStake`. The minimum applies
/// to the balance after the deposit, not to the amount.
pub proof fn lemma_deposit_below_minimum(ctx: Stake, amount: u64, now: i64)
    requires
        ctx.binding_fault() is None,
        0 < amount,
        !ctx.pool.paused,
        ctx.user_stake.staked_amount + amount < ctx.pool.min_stake_amount,
    ensures
        stake_fault(ctx, amount, now) == Some(StakingError::BelowMinimumStake),
{
}

/// A deposit that is in order otherwise and brings the position exactly to
/// the pool's minimum goes through.
///
/// It still fails where a counter would leave its range: the settled
/// rewards and the pool's new total must fit in 64 bits.
pub proof fn lemma_deposit_at_minimum(ctx: Stake, amount: u64, now: i64)
    requires
        ctx.binding_fault() is None,
        0 < amount,
        !ctx.pool.paused,
        ctx.user_stake.staked_amount + amount == ctx.pool.min_stake_amount,
        stake_settlement(ctx, now) <= u64::MAX,
        ctx.pool.total_staked + amount <= u64::MAX,
    ensures
        stake_fault(ctx, amount, now) is None,
{
}

/// A paused pool refuses every deposit of a positive amount from bound
/// accounts with `PoolPaused`, before it looks at any balance.
pub proof fn lemma_paused_pool_refuses_deposits(ctx: Stake, amount: u64, now: i64)
    requires
        ctx.binding_fault() is None,
        0 < amount,
        ctx.pool.paused,
    ensures
        stake_fault(ctx, amount, now) == Some(StakingError::PoolPaused),
{
}

/// Replacing one position changes the sum by the difference of the two
/// staked amounts.
proof fn lemma_sum_after_update(positions: Seq<UserStake>, slot: int, position: UserStake)
    requires
        0 <= slot < positions.len(),
    ensures
        sum_staked(positions.update(slot, position)) == sum_staked(positions)
            - positions[slot].staked_amount + position.staked_amount,
    decreases positions.len(),
{
    let updated = positions.update(slot, position);
    if slot == positions.len() - 1 {
        assert(updated.drop_last() =~= positions.drop_last());
    } else {
        assert(updated.drop_last() =~= positions.drop_last().update(slot, position));
        lemma_sum_after_update(positions.drop_last(), slot, position);
    }
}

} // verus!
