use vstd::prelude::*;
use crate::adapter::AdapterCall;
use crate::errors::StakeError;
use crate::instructions::redeem::{redeem_allowed, redeem_error, redeem_reward};
use crate::reward::{reward_amount, MAX_ELAPSED_SECONDS};
use crate::schema::state::{AccountId, StakeState, UserStakeInfo};

verus! {

/// An unstake is guarded exactly as a redeem: matching identities, an
/// initialized record, and the staked state.
pub open spec fn unstake_allowed(record: UserStakeInfo, user: AccountId, token_account: AccountId) -> bool {
    redeem_allowed(record, user, token_account)
}

/// A rejected unstake reports the same error, under the same precedence, as
/// a rejected redeem.
pub open spec fn unstake_error(record: UserStakeInfo, user: AccountId, token_account: AccountId) -> StakeError {
    redeem_error(record, user, token_account)
}

/// The record after a successful unstake at time `now`: back to Unstaked,
/// with the final reward of the closing window folded into the accumulator
/// and the accrual window closed at `now`. The record stays initialized and
/// keeps its bound pair, ready for a later stake.
pub open spec fn unstaked_record(record: UserStakeInfo, now: i64) -> UserStakeInfo {
    UserStakeInfo {
        last_stake_redeem: now,
        total_earned: (record.total_earned + redeem_reward(record, now)) as u64,
        stake_state: StakeState::Unstaked,
        ..record
    }
}

/// The adapter calls an unstake performs, in their required order: thaw
/// first — a frozen but undelegated asset would be unrecoverable by its
/// owner — then the revocation of the delegate approval, then the mint of
/// the closing reward. The mint runs even when the reward is zero.
pub open spec fn unstake_plan(record: UserStakeInfo, now: i64) -> Seq<AdapterCall> {
    seq![
        AdapterCall::Thaw { asset_account: record.token_account },
        AdapterCall::Revoke { asset_account: record.token_account },
        AdapterCall::MintTo { amount: redeem_reward(record, now) as u64 },
    ]
}

/// The guarded transition Staked -> Unstaked, with the closing redemption
/// folded in so that no accrual window is ever lost on exit. Checks run
/// before anything else; on rejection nothing is returned, so the stored
/// record stays as it was. On success the caller receives the updated
/// record together with the ordered adapter plan, to be committed only if
/// every call of the plan succeeds within the host's all-or-nothing
/// transaction.
pub fn exec(record: &UserStakeInfo, user: AccountId, token_account: AccountId, now: i64) -> (res: Result<(UserStakeInfo, Vec<AdapterCall>), StakeError>)
    requires
        record.wf(),
        record.last_stake_redeem <= now,
        now - record.last_stake_redeem <= MAX_ELAPSED_SECONDS as int,
        record.total_earned + redeem_reward(*record, now) <= u64::MAX,
    ensures
        res is Ok <==> unstake_allowed(*record, user, token_account),
        (res matches Ok((updated, plan)) ==> {
            &&& updated == unstaked_record(*record, now)
            &&& updated.wf()
            &&& updated.stake_state is Unstaked
            &&& updated.is_initialized
            &&& updated.total_earned == record.total_earned + redeem_reward(*record, now)
            &&& plan@ == unstake_plan(*record, now)
        }),
        (res matches Err(e) ==> e == unstake_error(*record, user, token_account)),
{
    if !(record.user_pubkey == user && record.token_account == token_account) {
        return Err(StakeError::OwnershipMismatch);
    }
    if !record.is_initialized {
        return Err(StakeError::UninitializedAccount);
    }
    if record.stake_state != StakeState::Staked {
        return Err(StakeError::InvalidStakeState);
    }

    let elapsed: u64 = (now - record.last_stake_redeem) as u64;
    let reward: u64 = reward_amount(elapsed);

    let updated = UserStakeInfo {
        last_stake_redeem: now,
        total_earned: record.total_earned + reward,
        stake_state: StakeState::Unstaked,
        ..*record
    };

    let mut plan: Vec<AdapterCall> = Vec::new();
    plan.push(AdapterCall::Thaw { asset_account: record.token_account });
    plan.push(AdapterCall::Revoke { asset_account: record.token_account });
    plan.push(AdapterCall::MintTo { amount: reward });
    proof {
        assert(plan@ =~= unstake_plan(*record, now));
    }
    Ok((updated, plan))
}

} // verus!
