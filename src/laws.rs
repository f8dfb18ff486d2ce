use vstd::prelude::*;

use crate::accrual::{accumulator_growth, earned_value, PRECISION};
use crate::address::{zero_key, Address};
use crate::error::ErrorCode;
use crate::funders::{authorize_error, deauthorize_error, is_listed};
use crate::funding::{fund_in_range, funded};
use crate::lifecycle::{close_pool_error, pause_error};
use crate::pool::{accrue_ok, accrued, pool_applicable, settle_ok, settled, Pool, User};
use crate::positions::{claim_error, payout, stake_error, staked, unstake_error, unstaked};

verus! {

/// While something is staked, bringing the pool up to `now` raises the
/// accumulator by exactly `elapsed * rate * PRECISION / total_staked`, floored,
/// where `elapsed` runs from the last checkpoint to the applicable time.
pub proof fn lemma_accumulator_growth(p: Pool, total_staked: u64, now: int)
    requires
        total_staked > 0,
        accrue_ok(p, total_staked, now),
    ensures
        accrued(p, total_staked, now).reward_per_token_stored == p.reward_per_token_stored + (
        (pool_applicable(p, now) - p.last_update_time) * p.reward_rate * (PRECISION as int))
            / (total_staked as int),
        accrued(p, total_staked, now).last_update_time == pool_applicable(p, now),
{
}

/// Accrual and funding keep the checkpoint at or before both `now` and the
/// end of the reward window.
pub proof fn lemma_checkpoint_within_window(p: Pool, amount: u64, total_staked: u64, now: int)
    requires
        0 <= now,
    ensures
        accrued(p, total_staked, now).last_update_time <= now,
        accrued(p, total_staked, now).last_update_time <= accrued(
            p,
            total_staked,
            now,
        ).reward_duration_end,
        now <= u64::MAX && fund_in_range(p, amount, now) ==> funded(
            p,
            amount,
            total_staked,
            now,
        ).last_update_time == now && now <= funded(p, amount, total_staked, now).reward_duration_end,
{
}

/// For a position settled at the last checkpoint, with its balance and the
/// pool's total unchanged since, the reward settled at `now` is the exact
/// proportional share `balance * rate * elapsed / total_staked`, floored, or
/// one unit less.
pub proof fn lemma_earned_within_dust(p: Pool, u: User, total_staked: u64, now: int)
    requires
        total_staked > 0,
        u.reward_per_token_complete == p.reward_per_token_stored,
        settle_ok(p, u, total_staked, now),
    ensures
        ({
            let share = (u.balance_staked * p.reward_rate * (pool_applicable(p, now)
                - p.last_update_time)) / (total_staked as int);
            let gained = settled(p, u, total_staked, now).reward_per_token_pending
                - u.reward_per_token_pending;
            share - 1 <= gained <= share
        }),
{
    let x = (pool_applicable(p, now) - p.last_update_time) * p.reward_rate;
    let b = u.balance_staked as int;
    let t = total_staked as int;
    let pr = PRECISION as int;
    let g = accumulator_growth(pool_applicable(p, now) - p.last_update_time, p.reward_rate as int, t);
    assert(g == (x * pr) / t);
    assert(accrued(p, total_staked, now).reward_per_token_stored - u.reward_per_token_complete == g);
    assert(settled(p, u, total_staked, now).reward_per_token_pending == earned_value(
        b,
        accrued(p, total_staked, now).reward_per_token_stored as int,
        u.reward_per_token_complete as int,
        u.reward_per_token_pending as int,
    ));
    assert(x >= 0) by (nonlinear_arith)
        requires
            x == (pool_applicable(p, now) - p.last_update_time) * p.reward_rate,
            pool_applicable(p, now) - p.last_update_time >= 0,
            p.reward_rate >= 0,
    ;
    lemma_floor_share(b, x, t, pr);
    assert(b * x == u.balance_staked * p.reward_rate * (pool_applicable(p, now) - p.last_update_time))
        by (nonlinear_arith)
        requires
            x == (pool_applicable(p, now) - p.last_update_time) * p.reward_rate,
            b == u.balance_staked,
    ;
}

/// Scaling by `pr`, flooring, and unscaling loses at most one unit against
/// the direct floor, when the multiplier `b` is at most the scale.
proof fn lemma_floor_share(b: int, x: int, t: int, pr: int)
    requires
        0 <= b <= pr,
        x >= 0,
        t > 0,
        pr > 0,
    ensures
        (b * x) / t - 1 <= (b * ((x * pr) / t)) / pr <= (b * x) / t,
{
    let g = (x * pr) / t;
    let d = (b * g) / pr;
    let q = (b * x) / t;
    assert(g * t <= x * pr < (g + 1) * t) by (nonlinear_arith)
        requires
            g == (x * pr) / t,
            t > 0,
    ;
    assert(d * pr <= b * g < (d + 1) * pr) by (nonlinear_arith)
        requires
            d == (b * g) / pr,
            pr > 0,
    ;
    assert(q * t <= b * x < (q + 1) * t) by (nonlinear_arith)
        requires
            q == (b * x) / t,
            t > 0,
    ;
    assert(d * t <= b * x) by (nonlinear_arith)
        requires
            d * pr <= b * g,
            g * t <= x * pr,
            b >= 0,
            t > 0,
            pr > 0,
    ;
    assert(d <= q) by (nonlinear_arith)
        requires
            d * t <= b * x,
            b * x < (q + 1) * t,
            t > 0,
    ;
    assert(b * x < (d + 2) * t) by (nonlinear_arith)
        requires
            x * pr < (g + 1) * t,
            b * g < (d + 1) * pr,
            0 <= b <= pr,
            t > 0,
            pr > 0,
    ;
    assert(q - 1 <= d) by (nonlinear_arith)
        requires
            q * t <= b * x,
            b * x < (d + 2) * t,
            t > 0,
    ;
}

/// Unstaking a whole position and staking the same amount back at the same
/// moment leaves its pending reward as the unstake settled it, and restores
/// its balance.
pub proof fn lemma_restake_keeps_pending(
    p: Pool,
    u: User,
    total_staked: u64,
    total_after: u64,
    now: int,
)
    requires
        unstake_error(p, u, u.balance_staked, total_staked, now) is None,
        stake_error(
            accrued(p, total_staked, now),
            unstaked(p, u, u.balance_staked, total_staked, now),
            u.balance_staked,
            total_after,
            now,
        ) is None,
    ensures
        ({
            let p1 = accrued(p, total_staked, now);
            let u1 = unstaked(p, u, u.balance_staked, total_staked, now);
            let u2 = staked(p1, u1, u.balance_staked, total_after, now);
            &&& u2.reward_per_token_pending == u1.reward_per_token_pending
            &&& u2.reward_per_token_pending == settled(
                p,
                u,
                total_staked,
                now,
            ).reward_per_token_pending
            &&& u2.balance_staked == u.balance_staked
        }),
{
    let p1 = accrued(p, total_staked, now);
    let u1 = unstaked(p, u, u.balance_staked, total_staked, now);
    assert(u1.balance_staked == 0);
    assert(0 * (p1.reward_per_token_stored - u1.reward_per_token_complete) == 0);
}

/// A claim against a reward vault that holds less than the settled pending
/// reward pays out exactly the vault's balance, and clears the pending reward.
pub proof fn lemma_claim_shortfall(p: Pool, u: User, total_staked: u64, vault: u64, now: int)
    requires
        claim_error(p, u, total_staked, now) is None,
        vault < settled(p, u, total_staked, now).reward_per_token_pending,
    ensures
        payout(settled(p, u, total_staked, now).reward_per_token_pending, vault) == vault,
        (User { reward_per_token_pending: 0, ..settled(p, u, total_staked, now) })
            .reward_per_token_pending == 0,
{
}

/// With every slot taken, the authority's request to add a funder that is
/// neither the authority nor listed fails for lack of room.
pub proof fn lemma_funder_capacity(p: Pool, funder: Address)
    requires
        forall|i: int| 0 <= i < 5 ==> #[trigger] p.funders@[i]@ != zero_key(),
        funder@ != p.authority@,
        !is_listed(p.funders, funder@),
    ensures
        authorize_error(p, p.authority, funder) == Some(ErrorCode::MaxFunders),
{
}

/// The authority is never added to the allowlist, and can never be removed
/// from the set of those that may fund.
pub proof fn lemma_authority_stays_apart(p: Pool, signer: Address)
    ensures
        authorize_error(p, signer, p.authority) is Some,
        deauthorize_error(p, signer, p.authority) is Some,
        signer@ == p.authority@ ==> deauthorize_error(p, signer, p.authority) == Some(
            ErrorCode::CannotDeauthorizePoolAuthority,
        ),
{
}

/// A pool cannot be paused before its reward window has ended.
pub proof fn lemma_pause_needs_ended_window(p: Pool, signer: Address, now: int)
    requires
        p.reward_duration_end >= now,
    ensures
        pause_error(p, signer, now) is Some,
{
}

/// A pool cannot be closed while positions are open or staked tokens remain.
pub proof fn lemma_close_needs_empty_pool(p: Pool, signer: Address, now: int, staking_vault_balance: u64)
    requires
        p.user_stake_count != 0 || staking_vault_balance != 0,
    ensures
        close_pool_error(p, signer, now, staking_vault_balance) is Some,
{
}

} // verus!
