use vstd::prelude::*;

use crate::accrual::{
    applicable_time, earned, earned_ok, earned_value, last_time_reward_applicable,
    reward_per_token, reward_per_token_ok, reward_per_token_value, MIN_DURATION,
};
use crate::address::Address;
use crate::error::ErrorCode;

verus! {

/// Number of funder slots in a pool's allowlist.
pub const MAX_FUNDERS: usize = 5;

/// One staking pool: its configuration, its reward window and the global
/// per-token accumulator.
#[derive(Clone, Copy, Debug)]
pub struct Pool {
    /// Principal that administers the pool.
    pub authority: Address,
    /// Seed of the signer that holds custody of the vaults.
    pub nonce: u8,
    /// While set, staking, funding and new positions are refused.
    pub paused: bool,
    /// Asset that can be staked.
    pub staking_mint: Address,
    /// Vault that holds staked tokens.
    pub staking_vault: Address,
    /// Asset paid out as reward.
    pub reward_mint: Address,
    /// Vault that holds reward tokens.
    pub reward_vault: Address,
    /// Length in seconds of each reward window.
    pub reward_duration: u64,
    /// Timestamp at which the current reward window ends.
    pub reward_duration_end: u64,
    /// Seconds a stake stays locked.
    pub lock_period: u64,
    /// Timestamp of the last accrual checkpoint.
    pub last_update_time: u64,
    /// Reward units distributed per second.
    pub reward_rate: u64,
    /// Reward per staked unit since inception, scaled by `PRECISION`.
    pub reward_per_token_stored: u128,
    /// Number of open positions.
    pub user_stake_count: u32,
    /// Principals besides the authority that may fund; zero marks a free slot.
    pub funders: [Address; 5],
}

/// One participant's position in a pool.
#[derive(Clone, Copy, Debug)]
pub struct User {
    /// Pool this position belongs to.
    pub pool: Address,
    /// Owner of the position.
    pub owner: Address,
    /// Accumulator value at the position's last settlement.
    pub reward_per_token_complete: u128,
    /// Reward earned and not yet paid.
    pub reward_per_token_pending: u64,
    /// Staked units.
    pub balance_staked: u64,
    /// Timestamp before which unstake and claim are refused.
    pub maturity_time: u64,
    /// Seed of the position's address.
    pub nonce: u8,
}

impl Pool {
    /// The window is at least one day long, so the rate division is defined.
    pub open spec fn wf(&self) -> bool {
        self.reward_duration >= MIN_DURATION
    }
}

/// The window's applicable end for a pool at `now`.
pub open spec fn pool_applicable(p: Pool, now: int) -> int {
    applicable_time(p.reward_duration_end as int, now)
}

/// Whether bringing the accumulator up to `now` stays in range.
pub open spec fn accrue_ok(p: Pool, total_staked: u64, now: int) -> bool {
    reward_per_token_ok(
        total_staked as int,
        p.reward_per_token_stored as int,
        pool_applicable(p, now),
        p.last_update_time as int,
        p.reward_rate as int,
    )
}

/// The pool with its accumulator brought up to `now`.
pub open spec fn accrued(p: Pool, total_staked: u64, now: int) -> Pool {
    Pool {
        reward_per_token_stored: reward_per_token_value(
            total_staked as int,
            p.reward_per_token_stored as int,
            pool_applicable(p, now),
            p.last_update_time as int,
            p.reward_rate as int,
        ) as u128,
        last_update_time: pool_applicable(p, now) as u64,
        ..p
    }
}

/// Whether settling the user against the brought-up accumulator stays in range.
pub open spec fn settle_ok(p: Pool, u: User, total_staked: u64, now: int) -> bool {
    accrue_ok(p, total_staked, now) && earned_ok(
        u.balance_staked as int,
        accrued(p, total_staked, now).reward_per_token_stored as int,
        u.reward_per_token_complete as int,
        u.reward_per_token_pending as int,
    )
}

/// The user with pending reward settled and checkpoint moved to the accumulator.
pub open spec fn settled(p: Pool, u: User, total_staked: u64, now: int) -> User {
    User {
        reward_per_token_pending: earned_value(
            u.balance_staked as int,
            accrued(p, total_staked, now).reward_per_token_stored as int,
            u.reward_per_token_complete as int,
            u.reward_per_token_pending as int,
        ) as u64,
        reward_per_token_complete: accrued(p, total_staked, now).reward_per_token_stored,
        ..u
    }
}

/// Brings the pool's accumulator up to `now` and moves its checkpoint to the
/// applicable time. On error the pool is left as it was.
pub fn update_rewards(pool: &mut Pool, total_staked: u64, now: i64) -> (r: Result<(), ErrorCode>)
    requires
        now >= 0,
    ensures
        r is Ok <==> accrue_ok(*old(pool), total_staked, now as int),
        r is Ok ==> *final(pool) == accrued(*old(pool), total_staked, now as int),
        r is Err ==> r == Err::<(), ErrorCode>(ErrorCode::MathOverflow) && *final(pool) == *old(pool),
{
    let applicable = last_time_reward_applicable(pool.reward_duration_end, now);
    let stored = reward_per_token(
        total_staked,
        pool.reward_per_token_stored,
        applicable,
        pool.last_update_time,
        pool.reward_rate,
    )?;
    pool.reward_per_token_stored = stored;
    pool.last_update_time = applicable;
    Ok(())
}

/// Brings the pool up to `now`, then settles the user's pending reward and
/// moves the user's checkpoint to the new accumulator. On error neither changes.
pub fn update_user_rewards(pool: &mut Pool, user: &mut User, total_staked: u64, now: i64) -> (r:
    Result<(), ErrorCode>)
    requires
        now >= 0,
    ensures
        r is Ok <==> settle_ok(*old(pool), *old(user), total_staked, now as int),
        r is Ok ==> *final(pool) == accrued(*old(pool), total_staked, now as int) && *final(user)
            == settled(*old(pool), *old(user), total_staked, now as int),
        r is Err ==> r == Err::<(), ErrorCode>(ErrorCode::MathOverflow) && *final(pool) == *old(
            pool,
        ) && *final(user) == *old(user),
{
    let mut p = *pool;
    update_rewards(&mut p, total_staked, now)?;
    let pending = earned(
        user.balance_staked,
        p.reward_per_token_stored,
        user.reward_per_token_complete,
        user.reward_per_token_pending,
    )?;
    user.reward_per_token_pending = pending;
    user.reward_per_token_complete = p.reward_per_token_stored;
    *pool = p;
    Ok(())
}

} // verus!
