use vstd::prelude::*;

use crate::error::ErrorCode;
use crate::pool::{accrued, settle_ok, settled, update_user_rewards, Pool, User};

verus! {

/// The error `stake` rejects with, if any.
pub open spec fn stake_error(p: Pool, u: User, amount: u64, total_staked: u64, now: int) -> Option<
    ErrorCode,
> {
    if amount == 0 {
        Some(ErrorCode::AmountMustBeGreaterThanZero)
    } else if p.paused {
        Some(ErrorCode::PoolPaused)
    } else if !settle_ok(p, u, total_staked, now) || u.balance_staked + amount > u64::MAX || now
        + p.lock_period > u64::MAX {
        Some(ErrorCode::MathOverflow)
    } else {
        None
    }
}

/// The position after a stake: settled, grown by `amount`, and locked until
/// `now + lock_period`.
pub open spec fn staked(p: Pool, u: User, amount: u64, total_staked: u64, now: int) -> User {
    User {
        balance_staked: (u.balance_staked + amount) as u64,
        maturity_time: (now + p.lock_period) as u64,
        ..settled(p, u, total_staked, now)
    }
}

/// Deposits `amount` into the position. `total_staked` is the staking vault's
/// balance before the deposit. The rewards are settled first; every stake
/// restarts the lock of the whole position. On success the caller moves
/// `amount` from the depositor into the staking vault.
pub fn stake(pool: &mut Pool, user: &mut User, amount: u64, total_staked: u64, now: i64) -> (r:
    Result<(), ErrorCode>)
    requires
        now >= 0,
    ensures
        match stake_error(*old(pool), *old(user), amount, total_staked, now as int) {
            Some(e) => r == Err::<(), ErrorCode>(e) && *final(pool) == *old(pool) && *final(user)
                == *old(user),
            None => r is Ok && *final(pool) == accrued(*old(pool), total_staked, now as int)
                && *final(user) == staked(*old(pool), *old(user), amount, total_staked, now as int),
        },
{
    if amount == 0 {
        return Err(ErrorCode::AmountMustBeGreaterThanZero);
    }
    if pool.paused {
        return Err(ErrorCode::PoolPaused);
    }
    let mut p = *pool;
    let mut u = *user;
    update_user_rewards(&mut p, &mut u, total_staked, now)?;
    let balance = match u.balance_staked.checked_add(amount) {
        Some(v) => v,
        None => return Err(ErrorCode::MathOverflow),
    };
    let maturity = match (now as u64).checked_add(p.lock_period) {
        Some(v) => v,
        None => return Err(ErrorCode::MathOverflow),
    };
    u.balance_staked = balance;
    u.maturity_time = maturity;
    *pool = p;
    *user = u;
    Ok(())
}

/// The error `unstake` rejects with, if any.
pub open spec fn unstake_error(p: Pool, u: User, amount: u64, total_staked: u64, now: int) -> Option<
    ErrorCode,
> {
    if amount == 0 {
        Some(ErrorCode::AmountMustBeGreaterThanZero)
    } else if u.maturity_time > now {
        Some(ErrorCode::CannotStakeOrClaimBeforeMaturity)
    } else if u.balance_staked < amount {
        Some(ErrorCode::InsufficientFundUnstake)
    } else if !settle_ok(p, u, total_staked, now) {
        Some(ErrorCode::MathOverflow)
    } else {
        None
    }
}

/// The position after an unstake: settled and reduced by `amount`.
pub open spec fn unstaked(p: Pool, u: User, amount: u64, total_staked: u64, now: int) -> User {
    User {
        balance_staked: (u.balance_staked - amount) as u64,
        ..settled(p, u, total_staked, now)
    }
}

/// Withdraws `spt_amount` from a matured position, after settling its rewards.
/// On success the caller moves `spt_amount` from the staking vault back to the
/// owner.
pub fn unstake(pool: &mut Pool, user: &mut User, spt_amount: u64, total_staked: u64, now: i64) -> (r:
    Result<(), ErrorCode>)
    requires
        now >= 0,
    ensures
        match unstake_error(*old(pool), *old(user), spt_amount, total_staked, now as int) {
            Some(e) => r == Err::<(), ErrorCode>(e) && *final(pool) == *old(pool) && *final(user)
                == *old(user),
            None => r is Ok && *final(pool) == accrued(*old(pool), total_staked, now as int)
                && *final(user) == unstaked(
                *old(pool),
                *old(user),
                spt_amount,
                total_staked,
                now as int,
            ),
        },
{
    if spt_amount == 0 {
        return Err(ErrorCode::AmountMustBeGreaterThanZero);
    }
    if user.maturity_time > now as u64 {
        return Err(ErrorCode::CannotStakeOrClaimBeforeMaturity);
    }
    if user.balance_staked < spt_amount {
        return Err(ErrorCode::InsufficientFundUnstake);
    }
    update_user_rewards(pool, user, total_staked, now)?;
    user.balance_staked = user.balance_staked - spt_amount;
    Ok(())
}

/// The error `claim` rejects with, if any.
pub open spec fn claim_error(p: Pool, u: User, total_staked: u64, now: int) -> Option<ErrorCode> {
    if u.maturity_time > now {
        Some(ErrorCode::CannotStakeOrClaimBeforeMaturity)
    } else if !settle_ok(p, u, total_staked, now) {
        Some(ErrorCode::MathOverflow)
    } else {
        None
    }
}

/// What a claim pays: the pending reward, capped by what the reward vault holds.
pub open spec fn payout(pending: u64, vault_balance: u64) -> u64 {
    if vault_balance < pending {
        vault_balance
    } else {
        pending
    }
}

/// Settles a matured position and pays out its pending reward, at most what
/// the reward vault holds; the pending reward is cleared either way, so a
/// shortfall is forfeited. Returns the amount the caller moves from the reward
/// vault to the owner.
pub fn claim(
    pool: &mut Pool,
    user: &mut User,
    total_staked: u64,
    reward_vault_balance: u64,
    now: i64,
) -> (r: Result<u64, ErrorCode>)
    requires
        now >= 0,
    ensures
        match claim_error(*old(pool), *old(user), total_staked, now as int) {
            Some(e) => r == Err::<u64, ErrorCode>(e) && *final(pool) == *old(pool) && *final(user)
                == *old(user),
            None => r == Ok::<u64, ErrorCode>(
                payout(
                    settled(
                        *old(pool),
                        *old(user),
                        total_staked,
                        now as int,
                    ).reward_per_token_pending,
                    reward_vault_balance,
                ),
            ) && *final(pool) == accrued(*old(pool), total_staked, now as int) && *final(user) == (User {
                reward_per_token_pending: 0,
                ..settled(*old(pool), *old(user), total_staked, now as int)
            }),
        },
{
    if user.maturity_time > now as u64 {
        return Err(ErrorCode::CannotStakeOrClaimBeforeMaturity);
    }
    update_user_rewards(pool, user, total_staked, now)?;
    let mut reward_amount: u64 = 0;
    if user.reward_per_token_pending > 0 {
        reward_amount = user.reward_per_token_pending;
        user.reward_per_token_pending = 0;
        if reward_vault_balance < reward_amount {
            reward_amount = reward_vault_balance;
        }
    }
    Ok(reward_amount)
}

/// Closes an empty position and uncounts it.
pub fn close_user(pool: &mut Pool, user: &User) -> (r: Result<(), ErrorCode>)
    ensures
        user.balance_staked != 0 || user.reward_per_token_pending != 0 ==> r == Err::<
            (),
            ErrorCode,
        >(ErrorCode::PositionNotEmpty) && *final(pool) == *old(pool),
        user.balance_staked == 0 && user.reward_per_token_pending == 0 && old(pool).user_stake_count
            == 0 ==> r == Err::<(), ErrorCode>(ErrorCode::MathOverflow) && *final(pool) == *old(
            pool,
        ),
        user.balance_staked == 0 && user.reward_per_token_pending == 0 && old(pool).user_stake_count
            > 0 ==> r is Ok && *final(pool) == (Pool {
            user_stake_count: (old(pool).user_stake_count - 1) as u32,
            ..*old(pool)
        }),
{
    if user.balance_staked != 0 || user.reward_per_token_pending != 0 {
        return Err(ErrorCode::PositionNotEmpty);
    }
    if pool.user_stake_count == 0 {
        return Err(ErrorCode::MathOverflow);
    }
    pool.user_stake_count = pool.user_stake_count - 1;
    Ok(())
}

} // verus!
