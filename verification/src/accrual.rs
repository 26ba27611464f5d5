//! Reward accrual: what a stake earns over an interval.
//!
//! The reward is `staked * rate * elapsed / 10^18`, rounded down. The rate is
//! a fixed-point number with eighteen decimals, in reward units per second
//! per staked unit.
//!
//! Accrual never fails. Where the exact quotient does not fit in 64 bits the
//! function pays nothing rather than halting the caller, so an extreme
//! configuration silently under-pays. Every other numeric path of the crate
//! treats overflow as an error; this one is a deliberate exception.

use vstd::arithmetic::div_mod::{
    lemma_div_is_ordered, lemma_div_multiples_vanish, lemma_div_pos_is_pos,
    lemma_fundamental_div_mod,
};
use vstd::arithmetic::mul::{lemma_mul_inequality, lemma_mul_nonnegative};
use vstd::prelude::*;

verus! {

/// Scaling factor of the reward rate: one reward unit per second per staked
/// unit is a rate of `10^18`.
pub const REWARD_SCALE: u128 = 1_000_000_000_000_000_000;

/// The exact reward of `staked` units at `rate` over `elapsed` seconds,
/// rounded down, with no limit on its size.
pub open spec fn reward_quotient(staked: int, rate: int, elapsed: int) -> int {
    (staked * rate * elapsed) / (REWARD_SCALE as int)
}

/// Whether the exact reward over `[last, now)` fits in 64 bits.
///
/// A product `staked * rate * elapsed` that exceeds 128 bits has a quotient
/// that exceeds 64 bits, so this one bound covers both ways in which the
/// computation can run out of room.
pub open spec fn accrual_fits(staked: u64, last: i64, now: i64, rate: u64) -> bool {
    reward_quotient(staked as int, rate as int, now - last) <= u64::MAX
}

/// The reward that `staked` units earn at `rate` over `[last, now)`.
///
/// Nothing is earned by an empty stake, nor when the clock has not moved
/// past the checkpoint, nor when the exact reward does not fit in 64 bits.
pub open spec fn accrued_rewards(staked: u64, last: i64, now: i64, rate: u64) -> int {
    if staked == 0 || now <= last {
        0
    } else if accrual_fits(staked, last, now, rate) {
        reward_quotient(staked as int, rate as int, now - last)
    } else {
        0
    }
}

/// The reward is never negative and always fits in 64 bits.
pub proof fn lemma_accrued_rewards_bounds(staked: u64, last: i64, now: i64, rate: u64)
    ensures
        0 <= accrued_rewards(staked, last, now, rate) <= u64::MAX,
{
    if staked != 0 && now > last {
        lemma_product_nonnegative(staked as int, rate as int, now - last);
        lemma_div_pos_is_pos(staked * rate * (now - last), REWARD_SCALE as int);
    }
}

/// The reward earned over `[last_stake_time, current_time)`.
pub fn calculate_pending_rewards(
    staked_amount: u64,
    last_stake_time: i64,
    current_time: i64,
    reward_rate: u64,
) -> (rewards: u64)
    ensures
        rewards == accrued_rewards(staked_amount, last_stake_time, current_time, reward_rate),
{
    if staked_amount == 0 || last_stake_time >= current_time {
        return 0;
    }
    let time_elapsed: u128 = (current_time as i128 - last_stake_time as i128) as u128;
    let staked: u128 = staked_amount as u128;
    let rate: u128 = reward_rate as u128;
    assert(staked * rate <= 0xffff_ffff_ffff_ffff * 0xffff_ffff_ffff_ffff) by (nonlinear_arith)
        requires
            staked <= 0xffff_ffff_ffff_ffff,
            rate <= 0xffff_ffff_ffff_ffff,
    ;
    let weighted: u128 = staked * rate;
    match weighted.checked_mul(time_elapsed) {
        Some(total) => {
            let whole: u128 = total / REWARD_SCALE;
            if whole > u64::MAX as u128 {
                0
            } else {
                whole as u64
            }
        },
        None => {
            proof {
                lemma_wide_product_has_wide_quotient(weighted * time_elapsed);
            }
            0
        },
    }
}

/// Accrual is a function of its inputs: whenever it is asked the same
/// question, it gives the same answer.
pub proof fn lemma_accrual_is_repeatable(
    staked: u64,
    last: i64,
    now: i64,
    rate: u64,
    first: u64,
    second: u64,
)
    requires
        call_ensures(calculate_pending_rewards, (staked, last, now, rate), first),
        call_ensures(calculate_pending_rewards, (staked, last, now, rate), second),
    ensures
        first == second,
{
}

/// Accrual is monotonic in elapsed time: a later reading never shows less
/// than an earlier one from the same checkpoint.
///
/// This cannot hold once the later reward outgrows 64 bits, since the
/// reading then drops to zero; the law leaves out exactly the inputs where
/// that happens while the earlier reading is positive.
pub proof fn lemma_accrual_monotonic_in_time(staked: u64, t0: i64, t1: i64, t2: i64, rate: u64)
    requires
        t0 <= t1 <= t2,
        accrual_fits(staked, t0, t2, rate) || accrued_rewards(staked, t0, t1, rate) == 0,
    ensures
        accrued_rewards(staked, t0, t1, rate) <= accrued_rewards(staked, t0, t2, rate),
{
    lemma_accrued_rewards_bounds(staked, t0, t2, rate);
    if staked != 0 && t0 < t1 && accrual_fits(staked, t0, t2, rate) {
        let weighted = staked as int * rate as int;
        lemma_mul_nonnegative(staked as int, rate as int);
        lemma_mul_inequality(t1 - t0, t2 - t0, weighted);
        assert(weighted * (t1 - t0) <= weighted * (t2 - t0)) by (nonlinear_arith)
            requires
                (t1 - t0) * weighted <= (t2 - t0) * weighted,
        ;
        lemma_div_is_ordered(weighted * (t1 - t0), weighted * (t2 - t0), REWARD_SCALE as int);
    }
}

/// Accrual is linear in the stake up to rounding: twice the stake earns
/// twice the reward, or one unit more.
///
/// This cannot hold once the doubled reward outgrows 64 bits, since the
/// reading then drops to zero; the law leaves out exactly the inputs where
/// that happens while the single reward is positive.
pub proof fn lemma_accrual_doubles_with_stake(staked: u64, last: i64, now: i64, rate: u64)
    requires
        2 * staked <= u64::MAX,
        accrual_fits((2 * staked) as u64, last, now, rate) || accrued_rewards(
            staked,
            last,
            now,
            rate,
        ) == 0,
    ensures
        2 * accrued_rewards(staked, last, now, rate) <= accrued_rewards(
            (2 * staked) as u64,
            last,
            now,
            rate,
        ) <= 2 * accrued_rewards(staked, last, now, rate) + 1,
{
    if staked != 0 && last < now {
        let product = staked as int * rate as int * (now - last);
        lemma_product_nonnegative(staked as int, rate as int, now - last);
        assert((2 * staked) * rate as int * (now - last) == 2 * product) by (nonlinear_arith)
            requires
                product == staked as int * rate as int * (now - last),
        ;
        lemma_double_quotient(product);
    }
}

/// Accrual is linear in the rate up to rounding: twice the rate earns twice
/// the reward, or one unit more.
///
/// This cannot hold once the doubled reward outgrows 64 bits, since the
/// reading then drops to zero; the law leaves out exactly the inputs where
/// that happens while the single reward is positive.
pub proof fn lemma_accrual_doubles_with_rate(staked: u64, last: i64, now: i64, rate: u64)
    requires
        2 * rate <= u64::MAX,
        accrual_fits(staked, last, now, (2 * rate) as u64) || accrued_rewards(
            staked,
            last,
            now,
            rate,
        ) == 0,
    ensures
        2 * accrued_rewards(staked, last, now, rate) <= accrued_rewards(
            staked,
            last,
            now,
            (2 * rate) as u64,
        ) <= 2 * accrued_rewards(staked, last, now, rate) + 1,
{
    if staked != 0 && last < now {
        let product = staked as int * rate as int * (now - last);
        lemma_product_nonnegative(staked as int, rate as int, now - last);
        assert(staked as int * (2 * rate) * (now - last) == 2 * product) by (nonlinear_arith)
            requires
                product == staked as int * rate as int * (now - last),
        ;
        lemma_double_quotient(product);
    }
}

proof fn lemma_product_nonnegative(staked: int, rate: int, elapsed: int)
    requires
        0 <= staked,
        0 <= rate,
        0 <= elapsed,
    ensures
        0 <= staked * rate * elapsed,
{
    lemma_mul_nonnegative(staked, rate);
    lemma_mul_nonnegative(staked * rate, elapsed);
}

/// A product that does not fit in 128 bits has a quotient that does not fit
/// in 64 bits.
proof fn lemma_wide_product_has_wide_quotient(product: int)
    requires
        product > u128::MAX,
    ensures
        product / (REWARD_SCALE as int) > u64::MAX,
{
    let scale = REWARD_SCALE as int;
    let floor = scale * 0x1_0000_0000_0000_0000;
    assert(floor <= product);
    lemma_div_multiples_vanish(0x1_0000_0000_0000_0000, scale);
    lemma_div_is_ordered(floor, product, scale);
}

/// Doubling a non-negative numerator doubles the quotient, or adds one more.
proof fn lemma_double_quotient(product: int)
    requires
        0 <= product,
    ensures
        2 * (product / (REWARD_SCALE as int)) <= (2 * product) / (REWARD_SCALE as int) <= 2 * (
        product / (REWARD_SCALE as int)) + 1,
{
    let scale = REWARD_SCALE as int;
    lemma_fundamental_div_mod(product, scale);
    lemma_fundamental_div_mod(2 * product, scale);
    let q = product / scale;
    let q2 = (2 * product) / scale;
    assert(scale * q2 - scale * (2 * q) == scale * (q2 - 2 * q)) by (nonlinear_arith);
    assert(2 * q <= q2 <= 2 * q + 1) by (nonlinear_arith)
        requires
            scale > 0,
            -scale < scale * (q2 - 2 * q) < 2 * scale,
    ;
}

} // verus!
