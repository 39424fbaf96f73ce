use vstd::prelude::*;

verus! {

/// Units of the reward token accrued per full day while staked. The rate is
/// a fixed constant of the engine, not a runtime parameter.
pub const RATE_PER_DAY: u64 = 1000;

/// Seconds in one day: the granularity of the accrual formula.
pub const SECONDS_PER_DAY: u64 = 86400;

/// Largest elapsed span, in seconds, that the accrual formula accepts
/// without 64-bit overflow.
pub const MAX_ELAPSED_SECONDS: u64 = u64::MAX / RATE_PER_DAY;

/// The reward owed for `elapsed` seconds of staking: a floor division, so
/// fractional-day remainders are lost, not carried to the next window.
pub open spec fn spec_reward(elapsed: int) -> int {
    (RATE_PER_DAY as int) * elapsed / (SECONDS_PER_DAY as int)
}

/// Computes the reward owed for `elapsed` seconds of staking.
pub fn reward_amount(elapsed: u64) -> (r: u64)
    requires
        elapsed <= MAX_ELAPSED_SECONDS,
    ensures
        r == spec_reward(elapsed as int),
        r <= elapsed * RATE_PER_DAY,
{
    let units: u64 = RATE_PER_DAY * elapsed;
    units / SECONDS_PER_DAY
}

/// The reward of a window never exceeds the reward of a longer window: the
/// accrual formula is monotone in elapsed time.
pub proof fn lemma_reward_monotone(shorter: int, longer: int)
    requires
        0 <= shorter <= longer,
    ensures
        spec_reward(shorter) <= spec_reward(longer),
{
    vstd::arithmetic::div_mod::lemma_div_is_ordered(
        (RATE_PER_DAY as int) * shorter,
        (RATE_PER_DAY as int) * longer,
        SECONDS_PER_DAY as int,
    );
}

/// An empty accrual window earns nothing, and no window earns a negative
/// reward.
pub proof fn lemma_reward_nonnegative(elapsed: int)
    requires
        0 <= elapsed,
    ensures
        0 <= spec_reward(elapsed),
        spec_reward(0) == 0,
{
    vstd::arithmetic::div_mod::lemma_div_is_ordered(
        0,
        (RATE_PER_DAY as int) * elapsed,
        SECONDS_PER_DAY as int,
    );
}

} // verus!
