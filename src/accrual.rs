use vstd::prelude::*;

use crate::error::ErrorCode;

verus! {

/// Fixed-point scale of the per-token accumulator: 2^64 - 1.
pub const PRECISION: u128 = 18446744073709551615;

/// Shortest reward window accepted, in seconds (one day).
pub const MIN_DURATION: u64 = 86400;

/// The moment up to which reward accrues: now, capped at the window's end.
pub open spec fn applicable_time(duration_end: int, now: int) -> int {
    if now < duration_end {
        now
    } else {
        duration_end
    }
}

/// Accumulator growth over `elapsed` seconds at `rate` shared by `total` units.
pub open spec fn accumulator_growth(elapsed: int, rate: int, total: int) -> int {
    (elapsed * rate * (PRECISION as int)) / total
}

/// Whether the accumulator update fits the 128-bit arithmetic: the interval is
/// not negative and neither the scaled product nor the sum overflows.
pub open spec fn reward_per_token_ok(
    total_staked: int,
    stored: int,
    applicable: int,
    last_update: int,
    rate: int,
) -> bool {
    total_staked == 0 || (last_update <= applicable && (applicable - last_update) * rate
            * (PRECISION as int) <= u128::MAX && stored + accumulator_growth(
            applicable - last_update,
            rate,
            total_staked,
        ) <= u128::MAX)
}

/// The updated accumulator; unchanged while nothing is staked.
pub open spec fn reward_per_token_value(
    total_staked: int,
    stored: int,
    applicable: int,
    last_update: int,
    rate: int,
) -> int {
    if total_staked == 0 {
        stored
    } else {
        stored + accumulator_growth(applicable - last_update, rate, total_staked)
    }
}

/// Whether the user's reward settles in range: the checkpoint does not exceed
/// the accumulator, the product fits 128 bits and the sum fits 64 bits.
pub open spec fn earned_ok(balance: int, accumulator: int, checkpoint: int, pending: int) -> bool {
    checkpoint <= accumulator && balance * (accumulator - checkpoint) <= u128::MAX
        && earned_value(balance, accumulator, checkpoint, pending) <= u64::MAX
}

/// Pending reward after settling: the prior pending amount plus the balance
/// times the accumulator's advance, floor-divided by the scale.
pub open spec fn earned_value(balance: int, accumulator: int, checkpoint: int, pending: int) -> int {
    pending + (balance * (accumulator - checkpoint)) / (PRECISION as int)
}

/// `min(now, reward_duration_end)` for a non-negative timestamp.
pub fn last_time_reward_applicable(reward_duration_end: u64, unix_timestamp: i64) -> (r: u64)
    requires
        unix_timestamp >= 0,
    ensures
        r == applicable_time(reward_duration_end as int, unix_timestamp as int),
{
    let now = unix_timestamp as u64;
    if now < reward_duration_end {
        now
    } else {
        reward_duration_end
    }
}

/// Advances the accumulator from `last_update_time` to `last_time_reward_applicable`.
pub fn reward_per_token(
    total_staked: u64,
    reward_per_token_stored: u128,
    last_time_reward_applicable: u64,
    last_update_time: u64,
    reward_rate: u64,
) -> (r: Result<u128, ErrorCode>)
    ensures
        r is Ok <==> reward_per_token_ok(
            total_staked as int,
            reward_per_token_stored as int,
            last_time_reward_applicable as int,
            last_update_time as int,
            reward_rate as int,
        ),
        r is Ok ==> r->Ok_0 == reward_per_token_value(
            total_staked as int,
            reward_per_token_stored as int,
            last_time_reward_applicable as int,
            last_update_time as int,
            reward_rate as int,
        ),
        r is Err ==> r == Err::<u128, ErrorCode>(ErrorCode::MathOverflow),
{
    if total_staked == 0 {
        return Ok(reward_per_token_stored);
    }
    if last_time_reward_applicable < last_update_time {
        return Err(ErrorCode::MathOverflow);
    }
    let elapsed: u128 = (last_time_reward_applicable - last_update_time) as u128;
    let rate: u128 = reward_rate as u128;
    let per_precision = match elapsed.checked_mul(rate) {
        Some(v) => v,
        None => {
            proof {
                lemma_scaled_overflow(elapsed as int * rate as int);
            }
            return Err(ErrorCode::MathOverflow);
        },
    };
    let scaled = match per_precision.checked_mul(PRECISION) {
        Some(v) => v,
        None => return Err(ErrorCode::MathOverflow),
    };
    let growth: u128 = scaled / (total_staked as u128);
    match reward_per_token_stored.checked_add(growth) {
        Some(v) => Ok(v),
        None => Err(ErrorCode::MathOverflow),
    }
}

proof fn lemma_scaled_overflow(x: int)
    requires
        x > u128::MAX,
    ensures
        x * (PRECISION as int) > u128::MAX,
{
    assert(x * (PRECISION as int) >= x) by (nonlinear_arith)
        requires
            x > 0,
            PRECISION >= 1,
    ;
}

/// Settles a user's pending reward against the current accumulator.
pub fn earned(
    balance_staked: u64,
    reward_per_token: u128,
    user_reward_per_token_paid: u128,
    user_reward_pending: u64,
) -> (r: Result<u64, ErrorCode>)
    ensures
        r is Ok <==> earned_ok(
            balance_staked as int,
            reward_per_token as int,
            user_reward_per_token_paid as int,
            user_reward_pending as int,
        ),
        r is Ok ==> r->Ok_0 == earned_value(
            balance_staked as int,
            reward_per_token as int,
            user_reward_per_token_paid as int,
            user_reward_pending as int,
        ),
        r is Err ==> r == Err::<u64, ErrorCode>(ErrorCode::MathOverflow),
{
    if reward_per_token < user_reward_per_token_paid {
        return Err(ErrorCode::MathOverflow);
    }
    let advance: u128 = reward_per_token - user_reward_per_token_paid;
    let product = match (balance_staked as u128).checked_mul(advance) {
        Some(v) => v,
        None => return Err(ErrorCode::MathOverflow),
    };
    let share: u128 = product / PRECISION;
    let total = match share.checked_add(user_reward_pending as u128) {
        Some(v) => v,
        None => return Err(ErrorCode::MathOverflow),
    };
    if total > u64::MAX as u128 {
        Err(ErrorCode::MathOverflow)
    } else {
        Ok(total as u64)
    }
}

} // verus!
