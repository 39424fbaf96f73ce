use vstd::prelude::*;
use crate::errors::StakeError;
use crate::instructions::redeem::{redeem_allowed, redeem_error, redeem_reward, redeemed_record};
use crate::instructions::stake::{stake_allowed, stake_error, staked_record};
use crate::instructions::unstake::{unstake_allowed, unstake_error, unstaked_record};
use crate::reward::lemma_reward_nonnegative;
use crate::schema::state::{AccountId, StakeState, UserStakeInfo};

verus! {

/// Through a full stake -> redeem -> redeem -> unstake round on one
/// (owner, asset) pair, the record is staked after the stake and after each
/// redemption, each step is admitted by its guard, and the record is
/// unstaked after the final unstake.
pub proof fn lemma_lifecycle_states(
    record: UserStakeInfo,
    user: AccountId,
    token_account: AccountId,
    t0: i64,
    t1: i64,
    t2: i64,
    t3: i64,
)
    requires
        record.wf(),
        stake_allowed(record, user, token_account),
        0 <= t0,
    ensures
        ({
            let r1 = staked_record(record, user, token_account, t0);
            let r2 = redeemed_record(r1, t1);
            let r3 = redeemed_record(r2, t2);
            let r4 = unstaked_record(r3, t3);
            &&& r1.stake_state is Staked
            &&& redeem_allowed(r1, user, token_account)
            &&& r2.stake_state is Staked
            &&& redeem_allowed(r2, user, token_account)
            &&& r3.stake_state is Staked
            &&& unstake_allowed(r3, user, token_account)
            &&& r4.stake_state is Unstaked
        }),
{
}

/// A record that has never gone through a successful stake admits neither a
/// redeem nor an unstake, and both report `UninitializedAccount` when the
/// identities themselves are in order.
pub proof fn lemma_uninitialized_rejected(
    record: UserStakeInfo,
    user: AccountId,
    token_account: AccountId,
)
    requires
        !record.is_initialized,
        record.bound_to(user, token_account),
    ensures
        !redeem_allowed(record, user, token_account),
        !unstake_allowed(record, user, token_account),
        redeem_error(record, user, token_account) == StakeError::UninitializedAccount,
        unstake_error(record, user, token_account) == StakeError::UninitializedAccount,
{
}

/// A record that is already staked admits no further stake, whatever
/// identities the caller supplies, and a caller holding the record's own
/// pair is turned away with `AlreadyStaked`.
pub proof fn lemma_double_stake_rejected(
    record: UserStakeInfo,
    user: AccountId,
    token_account: AccountId,
)
    requires
        record.stake_state is Staked,
    ensures
        !stake_allowed(record, user, token_account),
        record.bound_to(user, token_account) ==> stake_error(record, user, token_account)
            == StakeError::AlreadyStaked,
{
}

/// A caller whose identity, or whose named asset account, differs from the
/// record's bound pair is turned away from redeem and unstake with
/// `OwnershipMismatch`, whatever the record's state.
pub proof fn lemma_ownership_mismatch_rejected(
    record: UserStakeInfo,
    user: AccountId,
    token_account: AccountId,
)
    requires
        !record.bound_to(user, token_account),
    ensures
        !redeem_allowed(record, user, token_account),
        !unstake_allowed(record, user, token_account),
        redeem_error(record, user, token_account) == StakeError::OwnershipMismatch,
        unstake_error(record, user, token_account) == StakeError::OwnershipMismatch,
{
}

/// A second redemption with the clock unchanged accrues nothing: its reward
/// is exactly zero, the accrual window does not move backwards, and the
/// record is still open to further redemptions.
pub proof fn lemma_repeat_redeem_earns_nothing(
    record: UserStakeInfo,
    user: AccountId,
    token_account: AccountId,
    now: i64,
)
    requires
        record.wf(),
        redeem_allowed(record, user, token_account),
        record.last_stake_redeem <= now,
    ensures
        ({
            let r1 = redeemed_record(record, now);
            &&& redeem_reward(r1, now) == 0
            &&& r1.last_stake_redeem >= record.last_stake_redeem
            &&& redeem_allowed(r1, user, token_account)
        }),
{
}

/// `total_earned` never decreases: not through a stake, and not through a
/// redeem or unstake whose reward still fits the accumulator.
pub proof fn lemma_total_earned_monotonic(
    record: UserStakeInfo,
    user: AccountId,
    token_account: AccountId,
    now: i64,
)
    requires
        record.wf(),
        record.last_stake_redeem <= now,
        record.total_earned + redeem_reward(record, now) <= u64::MAX,
    ensures
        staked_record(record, user, token_account, now).total_earned >= record.total_earned,
        redeemed_record(record, now).total_earned >= record.total_earned,
        unstaked_record(record, now).total_earned >= record.total_earned,
{
    lemma_reward_nonnegative(now - record.last_stake_redeem);
}

/// Once a record is bound, no admitted transition rebinds it: a further
/// stake, a redeem and an unstake all leave the (owner, asset) pair exactly
/// as it was, and neither redemption touches the stake start time.
pub proof fn lemma_pair_immutable(
    record: UserStakeInfo,
    user: AccountId,
    token_account: AccountId,
    now: i64,
)
    requires
        record.is_initialized,
    ensures
        stake_allowed(record, user, token_account) ==> staked_record(
            record,
            user,
            token_account,
            now,
        ).bound_to(record.user_pubkey, record.token_account),
        redeemed_record(record, now).user_pubkey == record.user_pubkey,
        redeemed_record(record, now).token_account == record.token_account,
        redeemed_record(record, now).stake_start_time == record.stake_start_time,
        unstaked_record(record, now).user_pubkey == record.user_pubkey,
        unstaked_record(record, now).token_account == record.token_account,
        unstaked_record(record, now).stake_start_time == record.stake_start_time,
{
}

/// An unstake closes the books exactly as a redeem at the same instant
/// would — same reward, same window, same accumulator — and differs from it
/// in the state alone, so no accrual is ever lost by exiting.
pub proof fn lemma_unstake_folds_redeem(record: UserStakeInfo, now: i64)
    ensures
        unstaked_record(record, now) == (UserStakeInfo {
            stake_state: StakeState::Unstaked,
            ..redeemed_record(record, now)
        }),
{
}

} // verus!
