//! Staking-reward accounting: a pool into which participants deposit a staking
//! asset, and a lazily evaluated accumulator that shares a funded reward
//! stream among them in proportion to stake size and stake duration.
//!
//! Time, vault balances and the signing principal are handed in as plain
//! values; asset transfers are returned to the caller, who performs them.

pub mod accrual;
pub mod address;
pub mod error;
pub mod funders;
pub mod funding;
pub mod laws;
pub mod lifecycle;
pub mod pool;
pub mod positions;

pub use accrual::{earned, last_time_reward_applicable, reward_per_token, MIN_DURATION, PRECISION};
pub use address::Address;
pub use error::ErrorCode;
pub use funders::{authorize_funder, deauthorize_funder, find_slot, is_authorized_funder};
pub use funding::fund;
pub use laws::{
    lemma_accumulator_growth, lemma_authority_stays_apart, lemma_checkpoint_within_window,
    lemma_claim_shortfall, lemma_close_needs_empty_pool, lemma_earned_within_dust,
    lemma_funder_capacity, lemma_pause_needs_ended_window, lemma_restake_keeps_pending,
};
pub use lifecycle::{close_pool, create_user, initialize_pool, pause, unpause};
pub use pool::{update_rewards, update_user_rewards, Pool, User, MAX_FUNDERS};
pub use positions::{claim, close_user, stake, unstake};
