use vstd::prelude::*;

verus! {

/// Why an operation was rejected. A rejected operation changes nothing.
#[derive(Clone, Copy, Debug, PartialEq, Eq, Structural)]
pub enum ErrorCode {
    /// Unstaking more than the position holds.
    InsufficientFundUnstake,
    /// A stake or unstake of zero units.
    AmountMustBeGreaterThanZero,
    /// The pool is paused.
    PoolPaused,
    /// A reward window shorter than one day.
    DurationTooShort,
    /// The funder is the authority or already in the allowlist.
    FunderAlreadyAuthorized,
    /// Every allowlist slot is taken.
    MaxFunders,
    /// The authority cannot be removed from the funders.
    CannotDeauthorizePoolAuthority,
    /// The address to remove is not in the allowlist.
    CannotDeauthorizeMissingAuthority,
    /// The position has not reached its maturity time.
    CannotStakeOrClaimBeforeMaturity,
    /// Overflow, underflow or a negative interval in the reward arithmetic.
    MathOverflow,
    /// The signer is not the pool authority.
    NotPoolAuthority,
    /// The signer is neither the authority nor an allowlisted funder.
    UnauthorizedFunder,
    /// The pool is not paused.
    PoolNotPaused,
    /// The reward window has not ended (or never started, for closing).
    RewardWindowActive,
    /// Positions are still open on the pool.
    PositionsStillOpen,
    /// The staking vault still holds tokens.
    StakingVaultNotEmpty,
    /// The position still holds a stake or a pending reward.
    PositionNotEmpty,
}

} // verus!
