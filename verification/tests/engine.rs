use nft_staking::adapter::AdapterCall;
use nft_staking::errors::StakeError;
use nft_staking::instructions::redeem;
use nft_staking::instructions::stake;
use nft_staking::instructions::unstake;
use nft_staking::schema::state::AccountId;
use nft_staking::schema::state::StakeState;
use nft_staking::schema::state::UserStakeInfo;

fn acct(n: u64) -> AccountId {
    AccountId { w0: n, w1: 0, w2: 0, w3: 0 }
}

/// The host's all-or-nothing commit: the updated record replaces the stored
/// one only if every adapter call of the plan succeeded.
fn commit_if_all_succeed(
    stored: &mut UserStakeInfo,
    updated: UserStakeInfo,
    plan: &[AdapterCall],
    outcomes: &[bool],
) -> Result<(), StakeError> {
    assert_eq!(plan.len(), outcomes.len());
    for ok in outcomes {
        if !ok {
            return Err(StakeError::AdapterFailure);
        }
    }
    *stored = updated;
    Ok(())
}

#[test]
fn stake_fresh_record_freezes_and_binds() {
    let owner = acct(7);
    let asset = acct(9);
    let record = UserStakeInfo::new(owner, asset);
    let (updated, plan) = stake::exec(&record, owner, asset, 50).unwrap();
    assert_eq!(updated.user_pubkey, owner);
    assert_eq!(updated.token_account, asset);
    assert_eq!(updated.stake_state, StakeState::Staked);
    assert!(updated.is_initialized);
    assert_eq!(updated.stake_start_time, 50);
    assert_eq!(updated.last_stake_redeem, 50);
    assert_eq!(updated.total_earned, 0);
    assert_eq!(
        plan,
        vec![
            AdapterCall::Approve { asset_account: asset, amount: 1 },
            AdapterCall::Freeze { asset_account: asset },
        ]
    );
}

#[test]
fn stake_while_staked_is_rejected() {
    let owner = acct(7);
    let asset = acct(9);
    let record = UserStakeInfo::new(owner, asset);
    let (staked, _) = stake::exec(&record, owner, asset, 0).unwrap();
    let before = staked;
    assert_eq!(stake::exec(&staked, owner, asset, 10).unwrap_err(), StakeError::AlreadyStaked);
    assert_eq!(staked, before);
}

#[test]
fn stake_rebind_with_other_owner_is_rejected() {
    let owner = acct(7);
    let asset = acct(9);
    let intruder = acct(8);
    let record = UserStakeInfo::new(owner, asset);
    let (staked, _) = stake::exec(&record, owner, asset, 0).unwrap();
    let (unstaked, _) = unstake::exec(&staked, owner, asset, 5).unwrap();
    assert_eq!(
        stake::exec(&unstaked, intruder, asset, 10).unwrap_err(),
        StakeError::OwnershipMismatch
    );
}

#[test]
fn restake_keeps_the_accumulator() {
    let owner = acct(7);
    let asset = acct(9);
    let record = UserStakeInfo::new(owner, asset);
    let (staked, _) = stake::exec(&record, owner, asset, 0).unwrap();
    let (unstaked, _) = unstake::exec(&staked, owner, asset, 86400).unwrap();
    assert_eq!(unstaked.total_earned, 1000);
    let (restaked, _) = stake::exec(&unstaked, owner, asset, 90000).unwrap();
    assert_eq!(restaked.total_earned, 1000);
    assert_eq!(restaked.stake_start_time, 90000);
    assert_eq!(restaked.last_stake_redeem, 90000);
}

#[test]
fn redeem_uninitialized_is_rejected() {
    let owner = acct(7);
    let asset = acct(9);
    let record = UserStakeInfo::new(owner, asset);
    assert_eq!(
        redeem::exec(&record, owner, asset, 10).unwrap_err(),
        StakeError::UninitializedAccount
    );
}

#[test]
fn unstake_uninitialized_is_rejected() {
    let owner = acct(7);
    let asset = acct(9);
    let record = UserStakeInfo::new(owner, asset);
    assert_eq!(
        unstake::exec(&record, owner, asset, 10).unwrap_err(),
        StakeError::UninitializedAccount
    );
}

#[test]
fn redeem_while_unstaked_is_rejected() {
    let owner = acct(7);
    let asset = acct(9);
    let record = UserStakeInfo::new(owner, asset);
    let (staked, _) = stake::exec(&record, owner, asset, 0).unwrap();
    let (unstaked, _) = unstake::exec(&staked, owner, asset, 10).unwrap();
    assert_eq!(
        redeem::exec(&unstaked, owner, asset, 20).unwrap_err(),
        StakeError::InvalidStakeState
    );
}

#[test]
fn redeem_by_other_owner_is_rejected() {
    let owner = acct(7);
    let asset = acct(9);
    let intruder = acct(8);
    let record = UserStakeInfo::new(owner, asset);
    let (staked, _) = stake::exec(&record, owner, asset, 0).unwrap();
    let before = staked;
    assert_eq!(
        redeem::exec(&staked, intruder, asset, 100).unwrap_err(),
        StakeError::OwnershipMismatch
    );
    assert_eq!(staked, before);
}

#[test]
fn redeem_on_other_asset_is_rejected() {
    let owner = acct(7);
    let asset = acct(9);
    let other_asset = acct(11);
    let record = UserStakeInfo::new(owner, asset);
    let (staked, _) = stake::exec(&record, owner, asset, 0).unwrap();
    assert_eq!(
        redeem::exec(&staked, owner, other_asset, 100).unwrap_err(),
        StakeError::OwnershipMismatch
    );
}

#[test]
fn immediate_second_redeem_mints_zero() {
    let owner = acct(7);
    let asset = acct(9);
    let record = UserStakeInfo::new(owner, asset);
    let (staked, _) = stake::exec(&record, owner, asset, 0).unwrap();
    let (first, plan1) = redeem::exec(&staked, owner, asset, 86400).unwrap();
    assert_eq!(plan1, vec![AdapterCall::MintTo { amount: 1000 }]);
    // The clock has not moved: the second redeem still succeeds, mints
    // exactly zero, and the window start does not move back.
    let (second, plan2) = redeem::exec(&first, owner, asset, 86400).unwrap();
    assert_eq!(plan2, vec![AdapterCall::MintTo { amount: 0 }]);
    assert_eq!(second.last_stake_redeem, 86400);
    assert_eq!(second.total_earned, first.total_earned);
}

#[test]
fn full_lifecycle_scenario() {
    let owner = acct(7);
    let asset = acct(9);
    let mut stored = UserStakeInfo::new(owner, asset);

    // Stake at t = 0.
    let (updated, plan) = stake::exec(&stored, owner, asset, 0).unwrap();
    commit_if_all_succeed(&mut stored, updated, &plan, &[true, true]).unwrap();
    assert_eq!(stored.stake_state, StakeState::Staked);
    assert_eq!(stored.stake_start_time, 0);
    assert_eq!(stored.last_stake_redeem, 0);

    // Redeem a full day later: one day of rewards.
    let (updated, plan) = redeem::exec(&stored, owner, asset, 86400).unwrap();
    assert_eq!(plan, vec![AdapterCall::MintTo { amount: 1000 }]);
    commit_if_all_succeed(&mut stored, updated, &plan, &[true]).unwrap();
    assert_eq!(stored.stake_state, StakeState::Staked);
    assert_eq!(stored.last_stake_redeem, 86400);
    assert_eq!(stored.total_earned, 1000);

    // Unstake at t = 130000: 43600 seconds elapsed, floor pays 504.
    let (updated, plan) = unstake::exec(&stored, owner, asset, 130000).unwrap();
    assert_eq!(
        plan,
        vec![
            AdapterCall::Thaw { asset_account: asset },
            AdapterCall::Revoke { asset_account: asset },
            AdapterCall::MintTo { amount: 504 },
        ]
    );
    commit_if_all_succeed(&mut stored, updated, &plan, &[true, true, true]).unwrap();
    assert_eq!(stored.stake_state, StakeState::Unstaked);
    assert_eq!(stored.last_stake_redeem, 130000);
    assert_eq!(stored.total_earned, 1504);
    assert!(stored.is_initialized);
}

#[test]
fn freeze_failure_leaves_the_record_untouched() {
    let owner = acct(7);
    let asset = acct(9);
    let mut stored = UserStakeInfo::new(owner, asset);
    let before = stored;
    let (updated, plan) = stake::exec(&stored, owner, asset, 25).unwrap();
    // The approval succeeds but the freeze fails: nothing commits.
    let res = commit_if_all_succeed(&mut stored, updated, &plan, &[true, false]);
    assert_eq!(res.unwrap_err(), StakeError::AdapterFailure);
    assert_eq!(stored, before);
}

#[test]
fn mint_failure_leaves_the_record_untouched() {
    let owner = acct(7);
    let asset = acct(9);
    let mut stored = UserStakeInfo::new(owner, asset);
    let (updated, plan) = stake::exec(&stored, owner, asset, 0).unwrap();
    commit_if_all_succeed(&mut stored, updated, &plan, &[true, true]).unwrap();
    let before = stored;
    let (updated, plan) = redeem::exec(&stored, owner, asset, 86400).unwrap();
    let res = commit_if_all_succeed(&mut stored, updated, &plan, &[false]);
    assert_eq!(res.unwrap_err(), StakeError::AdapterFailure);
    assert_eq!(stored, before);
    assert_eq!(stored.last_stake_redeem, 0);
}

#[test]
fn full_accumulator_still_redeems_a_zero_reward() {
    let owner = acct(7);
    let asset = acct(9);
    let record = UserStakeInfo {
        token_account: asset,
        stake_start_time: 0,
        last_stake_redeem: 5,
        user_pubkey: owner,
        stake_state: StakeState::Staked,
        is_initialized: true,
        total_earned: u64::MAX,
    };
    let (updated, plan) = redeem::exec(&record, owner, asset, 5).unwrap();
    assert_eq!(plan, vec![AdapterCall::MintTo { amount: 0 }]);
    assert_eq!(updated.total_earned, u64::MAX);
    assert_eq!(updated.last_stake_redeem, 5);
}

#[test]
fn stake_state_defaults_to_unstaked() {
    assert_eq!(<StakeState as Default>::default(), StakeState::Unstaked);
}
