use vstd::prelude::*;

use crate::accrual::MIN_DURATION;
use crate::address::{zero_key, Address};
use crate::error::ErrorCode;
use crate::pool::{Pool, User};

verus! {

/// Opens a pool with an empty reward window, an empty allowlist and a zero
/// accumulator. A window shorter than one day is rejected.
pub fn initialize_pool(
    authority: Address,
    pool_nonce: u8,
    staking_mint: Address,
    staking_vault: Address,
    reward_mint: Address,
    reward_vault: Address,
    reward_duration: u64,
    lock_period: u64,
) -> (r: Result<Pool, ErrorCode>)
    ensures
        reward_duration < MIN_DURATION ==> r == Err::<Pool, ErrorCode>(ErrorCode::DurationTooShort),
        reward_duration >= MIN_DURATION ==> (r matches Ok(p) && p.wf() && p.authority == authority
            && p.nonce == pool_nonce && !p.paused && p.staking_mint == staking_mint
            && p.staking_vault == staking_vault && p.reward_mint == reward_mint && p.reward_vault
            == reward_vault && p.reward_duration == reward_duration && p.reward_duration_end == 0
            && p.lock_period == lock_period && p.last_update_time == 0 && p.reward_rate == 0
            && p.reward_per_token_stored == 0 && p.user_stake_count == 0 && forall|i: int|
            0 <= i < 5 ==> #[trigger] p.funders@[i]@ == zero_key()),
{
    if reward_duration < MIN_DURATION {
        return Err(ErrorCode::DurationTooShort);
    }
    let empty = Address::zero();
    Ok(
        Pool {
            authority,
            nonce: pool_nonce,
            paused: false,
            staking_mint,
            staking_vault,
            reward_mint,
            reward_vault,
            reward_duration,
            reward_duration_end: 0,
            lock_period,
            last_update_time: 0,
            reward_rate: 0,
            reward_per_token_stored: 0,
            user_stake_count: 0,
            funders: [empty; 5],
        },
    )
}

/// Opens an empty position on an unpaused pool and counts it.
pub fn create_user(pool: &mut Pool, pool_key: Address, owner: Address, nonce: u8) -> (r: Result<
    User,
    ErrorCode,
>)
    ensures
        old(pool).paused ==> r == Err::<User, ErrorCode>(ErrorCode::PoolPaused) && *final(pool)
            == *old(pool),
        !old(pool).paused && old(pool).user_stake_count == u32::MAX ==> r == Err::<
            User,
            ErrorCode,
        >(ErrorCode::MathOverflow) && *final(pool) == *old(pool),
        !old(pool).paused && old(pool).user_stake_count < u32::MAX ==> r == Ok::<User, ErrorCode>(
            User {
                pool: pool_key,
                owner,
                reward_per_token_complete: 0,
                reward_per_token_pending: 0,
                balance_staked: 0,
                maturity_time: 0,
                nonce,
            },
        ) && *final(pool) == (Pool { user_stake_count: (old(pool).user_stake_count + 1) as u32, ..*old(pool) }),
{
    if pool.paused {
        return Err(ErrorCode::PoolPaused);
    }
    if pool.user_stake_count == u32::MAX {
        return Err(ErrorCode::MathOverflow);
    }
    pool.user_stake_count = pool.user_stake_count + 1;
    Ok(
        User {
            pool: pool_key,
            owner,
            reward_per_token_complete: 0,
            reward_per_token_pending: 0,
            balance_staked: 0,
            maturity_time: 0,
            nonce,
        },
    )
}

/// The error `pause` rejects with, if any.
pub open spec fn pause_error(p: Pool, signer: Address, now: int) -> Option<ErrorCode> {
    if signer@ != p.authority@ {
        Some(ErrorCode::NotPoolAuthority)
    } else if p.paused {
        Some(ErrorCode::PoolPaused)
    } else if p.reward_duration_end >= now {
        Some(ErrorCode::RewardWindowActive)
    } else {
        None
    }
}

/// Pauses the pool. Only the authority may, and only once the reward window
/// has ended.
pub fn pause(pool: &mut Pool, signer: Address, now: i64) -> (r: Result<(), ErrorCode>)
    requires
        now >= 0,
    ensures
        match pause_error(*old(pool), signer, now as int) {
            Some(e) => r == Err::<(), ErrorCode>(e) && *final(pool) == *old(pool),
            None => r is Ok && *final(pool) == (Pool { paused: true, ..*old(pool) }),
        },
{
    if signer != pool.authority {
        return Err(ErrorCode::NotPoolAuthority);
    }
    if pool.paused {
        return Err(ErrorCode::PoolPaused);
    }
    if pool.reward_duration_end >= now as u64 {
        return Err(ErrorCode::RewardWindowActive);
    }
    pool.paused = true;
    Ok(())
}

/// The error `unpause` rejects with, if any.
pub open spec fn unpause_error(p: Pool, signer: Address) -> Option<ErrorCode> {
    if signer@ != p.authority@ {
        Some(ErrorCode::NotPoolAuthority)
    } else if !p.paused {
        Some(ErrorCode::PoolNotPaused)
    } else {
        None
    }
}

/// Unpauses a paused pool. Only the authority may.
pub fn unpause(pool: &mut Pool, signer: Address) -> (r: Result<(), ErrorCode>)
    ensures
        match unpause_error(*old(pool), signer) {
            Some(e) => r == Err::<(), ErrorCode>(e) && *final(pool) == *old(pool),
            None => r is Ok && *final(pool) == (Pool { paused: false, ..*old(pool) }),
        },
{
    if signer != pool.authority {
        return Err(ErrorCode::NotPoolAuthority);
    }
    if !pool.paused {
        return Err(ErrorCode::PoolNotPaused);
    }
    pool.paused = false;
    Ok(())
}


/// The error `close_pool` rejects with, if any.
pub open spec fn close_pool_error(
    p: Pool,
    signer: Address,
    now: int,
    staking_vault_balance: u64,
) -> Option<ErrorCode> {
    if signer@ != p.authority@ {
        Some(ErrorCode::NotPoolAuthority)
    } else if !p.paused {
        Some(ErrorCode::PoolNotPaused)
    } else if !(p.reward_duration_end > 0 && p.reward_duration_end < now) {
        Some(ErrorCode::RewardWindowActive)
    } else if p.user_stake_count != 0 {
        Some(ErrorCode::PositionsStillOpen)
    } else if staking_vault_balance != 0 {
        Some(ErrorCode::StakingVaultNotEmpty)
    } else {
        None
    }
}

/// Checks that the pool may be torn down: by its authority, paused, after a
/// window that has run and ended, with no open position and an empty staking
/// vault. Returns the reward vault's balance, which the caller refunds before
/// closing both vaults and the pool record.
pub fn close_pool(
    pool: &Pool,
    signer: Address,
    now: i64,
    staking_vault_balance: u64,
    reward_vault_balance: u64,
) -> (r: Result<u64, ErrorCode>)
    requires
        now >= 0,
    ensures
        match close_pool_error(*pool, signer, now as int, staking_vault_balance) {
            Some(e) => r == Err::<u64, ErrorCode>(e),
            None => r == Ok::<u64, ErrorCode>(reward_vault_balance),
        },
{
    if signer != pool.authority {
        return Err(ErrorCode::NotPoolAuthority);
    }
    if !pool.paused {
        return Err(ErrorCode::PoolNotPaused);
    }
    if !(pool.reward_duration_end > 0 && pool.reward_duration_end < now as u64) {
        return Err(ErrorCode::RewardWindowActive);
    }
    if pool.user_stake_count != 0 {
        return Err(ErrorCode::PositionsStillOpen);
    }
    if staking_vault_balance != 0 {
        return Err(ErrorCode::StakingVaultNotEmpty);
    }
    Ok(reward_vault_balance)
}

} // verus!
