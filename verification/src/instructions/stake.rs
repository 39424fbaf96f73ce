use vstd::prelude::*;
use crate::adapter::AdapterCall;
use crate::errors::StakeError;
use crate::schema::state::{AccountId, StakeState, UserStakeInfo};

verus! {

/// A stake may proceed when the record is not already staked, and, if the
/// record has been exercised before, when the caller-supplied identities
/// match the bound pair. A fresh, uninitialized record carries its pair from
/// creation, so for it the binding check is vacuous.
pub open spec fn stake_allowed(record: UserStakeInfo, user: AccountId, token_account: AccountId) -> bool {
    &&& record.is_initialized ==> record.bound_to(user, token_account)
    &&& record.stake_state is Unstaked
}

/// The one error a rejected stake reports: an identity mismatch outranks the
/// state check, which in turn is the stake-specific `AlreadyStaked`.
pub open spec fn stake_error(record: UserStakeInfo, user: AccountId, token_account: AccountId) -> StakeError {
    if record.is_initialized && !record.bound_to(user, token_account) {
        StakeError::OwnershipMismatch
    } else {
        StakeError::AlreadyStaked
    }
}

/// The record after a successful stake at time `now`: bound to the pair,
/// staked, both timestamps opened at `now`, initialized, with the reward
/// accumulator carried over unchanged.
pub open spec fn staked_record(record: UserStakeInfo, user: AccountId, token_account: AccountId, now: i64) -> UserStakeInfo {
    UserStakeInfo {
        token_account: token_account,
        stake_start_time: now,
        last_stake_redeem: now,
        user_pubkey: user,
        stake_state: StakeState::Staked,
        is_initialized: true,
        total_earned: record.total_earned,
    }
}

/// The adapter calls a stake performs, in their required order: first the
/// delegate approval over a single unit of the asset, then the freeze under
/// that delegate. The freeze must never run without the approval.
pub open spec fn stake_plan(token_account: AccountId) -> Seq<AdapterCall> {
    seq![
        AdapterCall::Approve { asset_account: token_account, amount: 1 },
        AdapterCall::Freeze { asset_account: token_account },
    ]
}

/// The guarded transition Unstaked -> Staked. Checks run before anything
/// else; on rejection nothing is returned, so the stored record stays as it
/// was. On success the caller receives the updated record together with the
/// ordered adapter plan, to be committed only if every call of the plan
/// succeeds within the host's all-or-nothing transaction.
pub fn exec(record: &UserStakeInfo, user: AccountId, token_account: AccountId, now: i64) -> (res: Result<(UserStakeInfo, Vec<AdapterCall>), StakeError>)
    requires
        record.wf(),
        0 <= now,
    ensures
        res is Ok <==> stake_allowed(*record, user, token_account),
        (res matches Ok((updated, plan)) ==> {
            &&& updated == staked_record(*record, user, token_account, now)
            &&& updated.wf()
            &&& plan@ == stake_plan(token_account)
        }),
        (res matches Err(e) ==> e == stake_error(*record, user, token_account)),
{
    if record.is_initialized
        && !(record.user_pubkey == user && record.token_account == token_account) {
        return Err(StakeError::OwnershipMismatch);
    }
    if record.stake_state != StakeState::Unstaked {
        return Err(StakeError::AlreadyStaked);
    }

    let updated = UserStakeInfo {
        token_account: token_account,
        stake_start_time: now,
        last_stake_redeem: now,
        user_pubkey: user,
        stake_state: StakeState::Staked,
        is_initialized: true,
        total_earned: record.total_earned,
    };

    let mut plan: Vec<AdapterCall> = Vec::new();
    plan.push(AdapterCall::Approve { asset_account: token_account, amount: 1 });
    plan.push(AdapterCall::Freeze { asset_account: token_account });
    proof {
        assert(plan@ =~= stake_plan(token_account));
    }
    Ok((updated, plan))
}

} // verus!
