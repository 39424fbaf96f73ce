use vstd::prelude::*;
use crate::adapter::AdapterCall;
use crate::errors::StakeError;
use crate::reward::{reward_amount, spec_reward, MAX_ELAPSED_SECONDS};
use crate::schema::state::{AccountId, StakeState, UserStakeInfo};

verus! {

/// A redeem may proceed when the caller-supplied identities match the bound
/// pair, the record has gone through a first successful stake, and the
/// record is currently staked.
pub open spec fn redeem_allowed(record: UserStakeInfo, user: AccountId, token_account: AccountId) -> bool {
    &&& record.bound_to(user, token_account)
    &&& record.is_initialized
    &&& record.stake_state is Staked
}

/// The one error a rejected redeem reports, in check order: an identity
/// mismatch first, then the initialization guard, then the state guard.
pub open spec fn redeem_error(record: UserStakeInfo, user: AccountId, token_account: AccountId) -> StakeError {
    if !record.bound_to(user, token_account) {
        StakeError::OwnershipMismatch
    } else if !record.is_initialized {
        StakeError::UninitializedAccount
    } else {
        StakeError::InvalidStakeState
    }
}

/// The reward owed at time `now`: the accrual formula over the window open
/// since the last redemption.
pub open spec fn redeem_reward(record: UserStakeInfo, now: i64) -> int {
    spec_reward(now - record.last_stake_redeem)
}

/// The record after a successful redeem at time `now`: the accrual window
/// restarts at `now`, the accumulator grows by the minted reward, and
/// everything else — the bound pair, the staked state, the stake start
/// time — is unchanged.
pub open spec fn redeemed_record(record: UserStakeInfo, now: i64) -> UserStakeInfo {
    UserStakeInfo {
        last_stake_redeem: now,
        total_earned: (record.total_earned + redeem_reward(record, now)) as u64,
        ..record
    }
}

/// The adapter calls a redeem performs: a single mint of the owed reward.
/// The mint runs even when the reward is zero, so that the timestamp
/// bookkeeping stays uniform.
pub open spec fn redeem_plan(record: UserStakeInfo, now: i64) -> Seq<AdapterCall> {
    seq![
        AdapterCall::MintTo { amount: redeem_reward(record, now) as u64 },
    ]
}

/// The reward-collection transition; the record stays staked. Checks run
/// before anything else; on rejection nothing is returned, so the stored
/// record stays as it was. On success the caller receives the updated
/// record together with the adapter plan, to be committed only if the mint
/// succeeds within the host's all-or-nothing transaction.
///
/// The two bounds on `now` are machine limits: the host clock never runs
/// backwards past a recorded timestamp, and a 64-bit reward computation
/// caps the elapsed span.
pub fn exec(record: &UserStakeInfo, user: AccountId, token_account: AccountId, now: i64) -> (res: Result<(UserStakeInfo, Vec<AdapterCall>), StakeError>)
    requires
        record.wf(),
        record.last_stake_redeem <= now,
        now - record.last_stake_redeem <= MAX_ELAPSED_SECONDS as int,
        record.total_earned + redeem_reward(*record, now) <= u64::MAX,
    ensures
        res is Ok <==> redeem_allowed(*record, user, token_account),
        (res matches Ok((updated, plan)) ==> {
            &&& updated == redeemed_record(*record, now)
            &&& updated.wf()
            &&& updated.stake_state is Staked
            &&& updated.total_earned == record.total_earned + redeem_reward(*record, now)
            &&& plan@ == redeem_plan(*record, now)
        }),
        (res matches Err(e) ==> e == redeem_error(*record, user, token_account)),
{
    if !(record.user_pubkey == user && record.token_account == token_account) {
        return Err(StakeError::OwnershipMismatch);
    }
    if !record.is_initialized {
        return Err(StakeError::UninitializedAccount);
    }
    if record.stake_state != StakeState::Staked {
        return Err(StakeError::InvalidStakeState);
    }

    let elapsed: u64 = (now - record.last_stake_redeem) as u64;
    let reward: u64 = reward_amount(elapsed);

    let updated = UserStakeInfo {
        last_stake_redeem: now,
        total_earned: record.total_earned + reward,
        ..*record
    };

    let mut plan: Vec<AdapterCall> = Vec::new();
    plan.push(AdapterCall::MintTo { amount: reward });
    proof {
        assert(plan@ =~= redeem_plan(*record, now));
    }
    Ok((updated, plan))
}

} // verus!
