use reward_pool::{
    authorize_funder, claim, close_pool, close_user, create_user, deauthorize_funder, earned,
    find_slot, fund, initialize_pool, is_authorized_funder, last_time_reward_applicable, pause,
    reward_per_token, stake, unpause, unstake, update_rewards, update_user_rewards, Address,
    ErrorCode, Pool, User, MAX_FUNDERS, MIN_DURATION, PRECISION,
};

fn addr(tag: u8) -> Address {
    let mut bytes = [0u8; 32];
    bytes[0] = tag;
    bytes[31] = tag;
    Address::new(bytes)
}

fn authority() -> Address {
    addr(1)
}

fn new_pool(duration: u64, lock_period: u64) -> Pool {
    initialize_pool(authority(), 7, addr(2), addr(3), addr(4), addr(5), duration, lock_period)
        .unwrap()
}

fn new_user(pool: &mut Pool, owner: u8) -> User {
    create_user(pool, addr(9), addr(owner), 1).unwrap()
}

#[test]
fn precision_is_u64_max() {
    assert_eq!(PRECISION, u64::MAX as u128);
    assert_eq!(MIN_DURATION, 86400);
    assert_eq!(MAX_FUNDERS, 5);
}

#[test]
fn applicable_time_is_capped_at_window_end() {
    assert_eq!(last_time_reward_applicable(500, 100), 100);
    assert_eq!(last_time_reward_applicable(500, 900), 500);
    assert_eq!(last_time_reward_applicable(500, 500), 500);
    assert_eq!(last_time_reward_applicable(0, 0), 0);
}

#[test]
fn accumulator_grows_by_floored_share() {
    // 7 seconds at rate 5 shared by 3 units.
    let r = reward_per_token(3, 11, 107, 100, 5).unwrap();
    assert_eq!(r, 11 + (35 * PRECISION) / 3);
}

#[test]
fn accumulator_unchanged_when_nothing_staked() {
    assert_eq!(reward_per_token(0, 42, 1_000, 0, 1_000), Ok(42));
}

#[test]
fn accumulator_rejects_negative_interval() {
    assert_eq!(reward_per_token(10, 0, 99, 100, 1), Err(ErrorCode::MathOverflow));
}

#[test]
fn accumulator_rejects_overflow() {
    assert_eq!(reward_per_token(1, 0, u64::MAX, 0, u64::MAX), Err(ErrorCode::MathOverflow));
    assert_eq!(reward_per_token(1, u128::MAX, 1, 0, 1), Err(ErrorCode::MathOverflow));
}

#[test]
fn earned_adds_scaled_share_to_pending() {
    assert_eq!(earned(100, 10 * PRECISION, 0, 0), Ok(1000));
    assert_eq!(earned(100, 12 * PRECISION, 2 * PRECISION, 5), Ok(1005));
    // A fractional remainder is dropped.
    assert_eq!(earned(1, PRECISION - 1, 0, 3), Ok(3));
}

#[test]
fn earned_rejects_checkpoint_above_accumulator() {
    assert_eq!(earned(1, 5, 6, 0), Err(ErrorCode::MathOverflow));
}

#[test]
fn earned_rejects_result_above_u64() {
    assert_eq!(earned(1, PRECISION, 0, u64::MAX), Err(ErrorCode::MathOverflow));
}

#[test]
fn earned_share_is_within_one_unit_of_exact() {
    // A balance of 7 out of 9 staked, at rate 5 for 13 seconds.
    let (b, rate, dt, total) = (7u128, 5u128, 13u128, 9u128);
    let growth = reward_per_token(total as u64, 0, dt as u64, 0, rate as u64).unwrap();
    let gained = earned(b as u64, growth, 0, 0).unwrap() as u128;
    let exact = b * rate * dt / total;
    assert!(gained == exact || gained + 1 == exact);
}

#[test]
fn initialize_rejects_short_window() {
    let r = initialize_pool(authority(), 0, addr(2), addr(3), addr(4), addr(5), 86_399, 0);
    assert!(matches!(r, Err(ErrorCode::DurationTooShort)));
}

#[test]
fn initialize_sets_empty_state() {
    let p = new_pool(86_400, 60);
    assert!(p.authority == authority());
    assert_eq!(p.nonce, 7);
    assert!(!p.paused);
    assert!(p.staking_vault == addr(3));
    assert!(p.reward_vault == addr(5));
    assert_eq!(p.reward_duration, 86_400);
    assert_eq!(p.reward_duration_end, 0);
    assert_eq!(p.lock_period, 60);
    assert_eq!(p.reward_rate, 0);
    assert_eq!(p.reward_per_token_stored, 0);
    assert_eq!(p.user_stake_count, 0);
    for f in p.funders.iter() {
        assert!(*f == Address::zero());
    }
}

#[test]
fn create_user_counts_positions() {
    let mut p = new_pool(86_400, 0);
    let u = new_user(&mut p, 20);
    assert_eq!(p.user_stake_count, 1);
    assert!(u.owner == addr(20));
    assert!(u.pool == addr(9));
    assert_eq!(u.balance_staked, 0);
    assert_eq!(u.reward_per_token_pending, 0);
    assert_eq!(u.reward_per_token_complete, 0);
    assert_eq!(u.nonce, 1);
}

#[test]
fn create_user_rejected_while_paused() {
    let mut p = new_pool(86_400, 0);
    p.paused = true;
    assert!(matches!(create_user(&mut p, addr(9), addr(20), 1), Err(ErrorCode::PoolPaused)));
    assert_eq!(p.user_stake_count, 0);
}

#[test]
fn fund_after_window_sets_rate_from_amount() {
    let mut p = new_pool(86_400, 0);
    fund(&mut p, authority(), 864_000, 0, 1_000).unwrap();
    assert_eq!(p.reward_rate, 10);
    assert_eq!(p.last_update_time, 1_000);
    assert_eq!(p.reward_duration_end, 1_000 + 86_400);
}

#[test]
fn fund_small_amount_truncates_rate_to_zero() {
    let mut p = new_pool(86_400, 0);
    fund(&mut p, authority(), 86_399, 0, 1_000).unwrap();
    assert_eq!(p.reward_rate, 0);
}

#[test]
fn fund_mid_window_carries_leftover() {
    let mut p = new_pool(86_400, 0);
    p.reward_rate = 10;
    p.reward_duration_end = 10_500;
    p.last_update_time = 10_000;
    fund(&mut p, authority(), 3_640_000, 0, 10_000).unwrap();
    assert_eq!(p.reward_rate, 42);
    assert_eq!(p.reward_duration_end, 10_000 + 86_400);
}

#[test]
fn fund_zero_restarts_window() {
    let mut p = new_pool(86_400, 0);
    fund(&mut p, authority(), 864_000, 0, 1_000).unwrap();
    fund(&mut p, authority(), 0, 0, 2_000).unwrap();
    // Leftover of 85400 s at rate 10 spread over a fresh day.
    assert_eq!(p.reward_rate, 854_000 / 86_400);
    assert_eq!(p.reward_duration_end, 2_000 + 86_400);
}

#[test]
fn fund_rejected_for_unlisted_funder() {
    let mut p = new_pool(86_400, 0);
    let before = p;
    assert_eq!(fund(&mut p, addr(30), 100, 0, 1_000), Err(ErrorCode::UnauthorizedFunder));
    assert_eq!(p.reward_rate, before.reward_rate);
    assert_eq!(p.reward_duration_end, before.reward_duration_end);
}

#[test]
fn fund_accepted_from_listed_funder() {
    let mut p = new_pool(86_400, 0);
    authorize_funder(&mut p, authority(), addr(30)).unwrap();
    assert!(is_authorized_funder(&p, &addr(30)));
    fund(&mut p, addr(30), 864_000, 0, 1_000).unwrap();
    assert_eq!(p.reward_rate, 10);
}

#[test]
fn fund_rejected_while_paused() {
    let mut p = new_pool(86_400, 0);
    p.paused = true;
    assert_eq!(fund(&mut p, authority(), 100, 0, 1_000), Err(ErrorCode::PoolPaused));
}

#[test]
fn stake_then_claim_pays_proportional_reward() {
    let mut p = new_pool(86_400, 0);
    let mut u = new_user(&mut p, 20);
    fund(&mut p, authority(), 864_000, 0, 1_000).unwrap();
    assert_eq!(p.reward_rate, 10);
    stake(&mut p, &mut u, 100, 0, 1_000).unwrap();
    assert_eq!(u.balance_staked, 100);
    let paid = claim(&mut p, &mut u, 100, 1_000_000, 1_100).unwrap();
    assert_eq!(p.reward_per_token_stored, 10 * PRECISION);
    assert_eq!(paid, 1_000);
    assert_eq!(u.reward_per_token_pending, 0);
    assert_eq!(u.reward_per_token_complete, 10 * PRECISION);
}

#[test]
fn reward_while_nothing_staked_is_forfeited() {
    let mut p = new_pool(86_400, 0);
    fund(&mut p, authority(), 864_000, 0, 1_000).unwrap();
    update_rewards(&mut p, 0, 1_500).unwrap();
    assert_eq!(p.reward_per_token_stored, 0);
    assert_eq!(p.last_update_time, 1_500);
    let mut u = new_user(&mut p, 20);
    stake(&mut p, &mut u, 100, 0, 1_500).unwrap();
    let paid = claim(&mut p, &mut u, 100, 1_000_000, 1_600).unwrap();
    assert_eq!(paid, 1_000);
}

#[test]
fn accrual_stops_at_window_end() {
    let mut p = new_pool(86_400, 0);
    fund(&mut p, authority(), 864_000, 0, 0).unwrap();
    update_rewards(&mut p, 864_000, 1_000_000).unwrap();
    assert_eq!(p.last_update_time, 86_400);
    assert_eq!(p.reward_per_token_stored, (864_000u128 * PRECISION) / 864_000);
}

#[test]
fn update_user_rewards_settles_position() {
    let mut p = new_pool(86_400, 0);
    p.reward_rate = 4;
    p.reward_duration_end = 10_000;
    let mut u = new_user(&mut p, 20);
    u.balance_staked = 50;
    update_user_rewards(&mut p, &mut u, 200, 100).unwrap();
    assert_eq!(p.reward_per_token_stored, (400 * PRECISION) / 200);
    assert_eq!(u.reward_per_token_pending, 100);
    assert_eq!(u.reward_per_token_complete, p.reward_per_token_stored);
}

#[test]
fn stake_rejects_zero_amount() {
    let mut p = new_pool(86_400, 0);
    let mut u = new_user(&mut p, 20);
    assert_eq!(stake(&mut p, &mut u, 0, 0, 10), Err(ErrorCode::AmountMustBeGreaterThanZero));
}

#[test]
fn stake_rejected_while_paused() {
    let mut p = new_pool(86_400, 0);
    let mut u = new_user(&mut p, 20);
    p.paused = true;
    assert_eq!(stake(&mut p, &mut u, 5, 0, 10), Err(ErrorCode::PoolPaused));
    assert_eq!(u.balance_staked, 0);
}

#[test]
fn stake_resets_lock_for_whole_position() {
    let mut p = new_pool(86_400, 100);
    let mut u = new_user(&mut p, 20);
    stake(&mut p, &mut u, 5, 0, 10).unwrap();
    assert_eq!(u.maturity_time, 110);
    stake(&mut p, &mut u, 5, 5, 50).unwrap();
    assert_eq!(u.maturity_time, 150);
    assert_eq!(u.balance_staked, 10);
}

#[test]
fn failed_stake_changes_nothing() {
    let mut p = new_pool(86_400, 0);
    p.reward_rate = 1;
    p.reward_duration_end = 1_000;
    p.last_update_time = 500;
    let mut u = new_user(&mut p, 20);
    u.balance_staked = u64::MAX;
    let before_stored = p.reward_per_token_stored;
    assert_eq!(stake(&mut p, &mut u, 1, 10, 600), Err(ErrorCode::MathOverflow));
    assert_eq!(p.reward_per_token_stored, before_stored);
    assert_eq!(p.last_update_time, 500);
    assert_eq!(u.balance_staked, u64::MAX);
    assert_eq!(u.reward_per_token_complete, 0);
}

#[test]
fn unstake_before_maturity_rejected() {
    let mut p = new_pool(86_400, 100);
    let mut u = new_user(&mut p, 20);
    stake(&mut p, &mut u, 5, 0, 10).unwrap();
    assert_eq!(
        unstake(&mut p, &mut u, 5, 5, 109),
        Err(ErrorCode::CannotStakeOrClaimBeforeMaturity)
    );
    unstake(&mut p, &mut u, 5, 5, 110).unwrap();
    assert_eq!(u.balance_staked, 0);
}

#[test]
fn unstake_more_than_staked_rejected() {
    let mut p = new_pool(86_400, 0);
    let mut u = new_user(&mut p, 20);
    stake(&mut p, &mut u, 5, 0, 10).unwrap();
    assert_eq!(unstake(&mut p, &mut u, 6, 5, 10), Err(ErrorCode::InsufficientFundUnstake));
    assert_eq!(unstake(&mut p, &mut u, 0, 5, 10), Err(ErrorCode::AmountMustBeGreaterThanZero));
}

#[test]
fn unstake_then_restake_keeps_pending() {
    let mut p = new_pool(86_400, 0);
    let mut u = new_user(&mut p, 20);
    fund(&mut p, authority(), 864_000, 0, 1_000).unwrap();
    stake(&mut p, &mut u, 100, 0, 1_000).unwrap();
    unstake(&mut p, &mut u, 100, 100, 1_100).unwrap();
    let pending = u.reward_per_token_pending;
    assert_eq!(pending, 1_000);
    stake(&mut p, &mut u, 100, 0, 1_100).unwrap();
    assert_eq!(u.reward_per_token_pending, pending);
    assert_eq!(u.balance_staked, 100);
}

#[test]
fn claim_shortfall_pays_vault_and_clears_pending() {
    let mut p = new_pool(86_400, 0);
    let mut u = new_user(&mut p, 20);
    fund(&mut p, authority(), 864_000, 0, 1_000).unwrap();
    stake(&mut p, &mut u, 100, 0, 1_000).unwrap();
    let paid = claim(&mut p, &mut u, 100, 300, 1_100).unwrap();
    assert_eq!(paid, 300);
    assert_eq!(u.reward_per_token_pending, 0);
    // The shortfall is not carried forward.
    let again = claim(&mut p, &mut u, 100, 1_000_000, 1_100).unwrap();
    assert_eq!(again, 0);
}

#[test]
fn claim_before_maturity_rejected() {
    let mut p = new_pool(86_400, 100);
    let mut u = new_user(&mut p, 20);
    stake(&mut p, &mut u, 5, 0, 10).unwrap();
    assert_eq!(claim(&mut p, &mut u, 5, 0, 50), Err(ErrorCode::CannotStakeOrClaimBeforeMaturity));
}

#[test]
fn close_user_requires_empty_position() {
    let mut p = new_pool(86_400, 0);
    let mut u = new_user(&mut p, 20);
    u.reward_per_token_pending = 1;
    assert_eq!(close_user(&mut p, &u), Err(ErrorCode::PositionNotEmpty));
    u.reward_per_token_pending = 0;
    u.balance_staked = 1;
    assert_eq!(close_user(&mut p, &u), Err(ErrorCode::PositionNotEmpty));
    u.balance_staked = 0;
    close_user(&mut p, &u).unwrap();
    assert_eq!(p.user_stake_count, 0);
    assert_eq!(close_user(&mut p, &u), Err(ErrorCode::MathOverflow));
}

#[test]
fn sixth_funder_hits_capacity() {
    let mut p = new_pool(86_400, 0);
    for tag in 40..45u8 {
        authorize_funder(&mut p, authority(), addr(tag)).unwrap();
    }
    assert_eq!(authorize_funder(&mut p, authority(), addr(45)), Err(ErrorCode::MaxFunders));
    assert_eq!(find_slot(&p.funders, &addr(44)), Some(4));
}

#[test]
fn authority_cannot_be_listed_or_removed() {
    let mut p = new_pool(86_400, 0);
    assert_eq!(
        authorize_funder(&mut p, authority(), authority()),
        Err(ErrorCode::FunderAlreadyAuthorized)
    );
    assert_eq!(
        deauthorize_funder(&mut p, authority(), authority()),
        Err(ErrorCode::CannotDeauthorizePoolAuthority)
    );
    assert_eq!(find_slot(&p.funders, &authority()), None);
    assert!(is_authorized_funder(&p, &authority()));
}

#[test]
fn duplicate_funder_rejected() {
    let mut p = new_pool(86_400, 0);
    authorize_funder(&mut p, authority(), addr(40)).unwrap();
    assert_eq!(
        authorize_funder(&mut p, authority(), addr(40)),
        Err(ErrorCode::FunderAlreadyAuthorized)
    );
}

#[test]
fn deauthorize_frees_slot_for_reuse() {
    let mut p = new_pool(86_400, 0);
    for tag in 40..45u8 {
        authorize_funder(&mut p, authority(), addr(tag)).unwrap();
    }
    deauthorize_funder(&mut p, authority(), addr(42)).unwrap();
    assert!(p.funders[2] == Address::zero());
    assert!(!is_authorized_funder(&p, &addr(42)));
    authorize_funder(&mut p, authority(), addr(50)).unwrap();
    assert!(p.funders[2] == addr(50));
}

#[test]
fn deauthorize_missing_rejected() {
    let mut p = new_pool(86_400, 0);
    assert_eq!(
        deauthorize_funder(&mut p, authority(), addr(40)),
        Err(ErrorCode::CannotDeauthorizeMissingAuthority)
    );
}

#[test]
fn funder_changes_need_authority() {
    let mut p = new_pool(86_400, 0);
    assert_eq!(authorize_funder(&mut p, addr(30), addr(40)), Err(ErrorCode::NotPoolAuthority));
    assert_eq!(deauthorize_funder(&mut p, addr(30), addr(40)), Err(ErrorCode::NotPoolAuthority));
}

#[test]
fn pause_requires_ended_window() {
    let mut p = new_pool(86_400, 0);
    fund(&mut p, authority(), 864_000, 0, 1_000).unwrap();
    let end = p.reward_duration_end as i64;
    assert_eq!(pause(&mut p, authority(), end), Err(ErrorCode::RewardWindowActive));
    assert_eq!(pause(&mut p, addr(30), end + 1), Err(ErrorCode::NotPoolAuthority));
    pause(&mut p, authority(), end + 1).unwrap();
    assert!(p.paused);
    assert_eq!(pause(&mut p, authority(), end + 2), Err(ErrorCode::PoolPaused));
}

#[test]
fn unpause_requires_paused_pool() {
    let mut p = new_pool(86_400, 0);
    assert_eq!(unpause(&mut p, authority()), Err(ErrorCode::PoolNotPaused));
    p.paused = true;
    assert_eq!(unpause(&mut p, addr(30)), Err(ErrorCode::NotPoolAuthority));
    unpause(&mut p, authority()).unwrap();
    assert!(!p.paused);
}

#[test]
fn close_pool_preconditions() {
    let mut p = new_pool(86_400, 0);
    assert_eq!(close_pool(&p, authority(), 10, 0, 0), Err(ErrorCode::PoolNotPaused));
    p.paused = true;
    // The window never started.
    assert_eq!(close_pool(&p, authority(), 10, 0, 0), Err(ErrorCode::RewardWindowActive));
    p.reward_duration_end = 100;
    assert_eq!(close_pool(&p, authority(), 100, 0, 0), Err(ErrorCode::RewardWindowActive));
    assert_eq!(close_pool(&p, addr(30), 101, 0, 0), Err(ErrorCode::NotPoolAuthority));
    p.user_stake_count = 1;
    assert_eq!(close_pool(&p, authority(), 101, 0, 0), Err(ErrorCode::PositionsStillOpen));
    p.user_stake_count = 0;
    assert_eq!(close_pool(&p, authority(), 101, 3, 0), Err(ErrorCode::StakingVaultNotEmpty));
    assert_eq!(close_pool(&p, authority(), 101, 0, 777), Ok(777));
}
