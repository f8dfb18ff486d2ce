use vstd::prelude::*;

use crate::address::Address;
use crate::error::ErrorCode;
use crate::funders::{is_authorized_funder, may_fund};
use crate::pool::{accrue_ok, accrued, update_rewards, Pool};

verus! {

/// Whether the top-up arithmetic fits 64 bits: the carried-over reward, its sum
/// with the new amount, and the new window's end.
pub open spec fn fund_in_range(p: Pool, amount: u64, now: int) -> bool {
    (now >= p.reward_duration_end || ((p.reward_duration_end - now) * p.reward_rate <= u64::MAX
        && amount + (p.reward_duration_end - now) * p.reward_rate <= u64::MAX)) && now
        + p.reward_duration <= u64::MAX
}

/// The rate after funding: the new amount, plus what the current window has
/// left to distribute if it is still open, spread over a fresh window.
pub open spec fn funded_rate(p: Pool, amount: u64, now: int) -> int {
    if now >= p.reward_duration_end {
        amount as int / p.reward_duration as int
    } else {
        (amount + (p.reward_duration_end - now) * p.reward_rate) / (p.reward_duration as int)
    }
}

/// The error `fund` rejects with, if any.
pub open spec fn fund_error(p: Pool, funder: Address, amount: u64, total_staked: u64, now: int) -> Option<
    ErrorCode,
> {
    if p.paused {
        Some(ErrorCode::PoolPaused)
    } else if !may_fund(p, funder) {
        Some(ErrorCode::UnauthorizedFunder)
    } else if !accrue_ok(p, total_staked, now) || !fund_in_range(p, amount, now) {
        Some(ErrorCode::MathOverflow)
    } else {
        None
    }
}

/// The pool after funding: accrued at the old rate, then a fresh window that
/// starts now at the new rate.
pub open spec fn funded(p: Pool, amount: u64, total_staked: u64, now: int) -> Pool {
    Pool {
        reward_rate: funded_rate(p, amount, now) as u64,
        last_update_time: now as u64,
        reward_duration_end: (now + p.reward_duration) as u64,
        ..accrued(p, total_staked, now)
    }
}

/// Adds `amount` of reward and restarts the window at `now`. Pending accrual
/// is flushed at the old rate first; reward left in an open window carries
/// over. Only the authority or an allowlisted funder may fund an unpaused
/// pool; a zero amount only reconciles and restarts the window. On success the
/// caller moves `amount`, if positive, into the reward vault.
pub fn fund(pool: &mut Pool, funder: Address, amount: u64, total_staked: u64, now: i64) -> (r: Result<
    (),
    ErrorCode,
>)
    requires
        now >= 0,
        old(pool).wf(),
    ensures
        match fund_error(*old(pool), funder, amount, total_staked, now as int) {
            Some(e) => r == Err::<(), ErrorCode>(e) && *final(pool) == *old(pool),
            None => r is Ok && *final(pool) == funded(*old(pool), amount, total_staked, now as int),
        },
        final(pool).wf(),
{
    if pool.paused {
        return Err(ErrorCode::PoolPaused);
    }
    if !is_authorized_funder(pool, &funder) {
        return Err(ErrorCode::UnauthorizedFunder);
    }
    let mut p = *pool;
    update_rewards(&mut p, total_staked, now)?;
    let current_time = now as u64;
    let rate = if current_time >= p.reward_duration_end {
        amount / p.reward_duration
    } else {
        let remaining: u64 = p.reward_duration_end - current_time;
        let leftover = match remaining.checked_mul(p.reward_rate) {
            Some(v) => v,
            None => return Err(ErrorCode::MathOverflow),
        };
        let supply = match amount.checked_add(leftover) {
            Some(v) => v,
            None => return Err(ErrorCode::MathOverflow),
        };
        supply / p.reward_duration
    };
    let end = match current_time.checked_add(p.reward_duration) {
        Some(v) => v,
        None => return Err(ErrorCode::MathOverflow),
    };
    p.reward_rate = rate;
    p.last_update_time = current_time;
    p.reward_duration_end = end;
    *pool = p;
    Ok(())
}

} // verus!
